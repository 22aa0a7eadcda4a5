use scene_objects::data::{
    BasicData, Color, ObjectData, PlayerData, RawObjectData, RawObjectDataUnit, Vector, ONE, ZERO,
};

fn vector(x: f32, y: f32, z: f32) -> Vector {
    Vector { x: x.to_bits(), y: y.to_bits(), z: z.to_bits() }
}

fn floats(words: &[u32]) -> Vec<f32> {
    words.iter().map(|w| f32::from_bits(*w)).collect()
}

#[test]
fn constants_are_the_bits_of_zero_and_one() {
    assert_eq!(ZERO, 0.0f32.to_bits());
    assert_eq!(ONE, 1.0f32.to_bits());
}

#[test]
fn payload_of_kind_player_drops_the_dimensions() {
    let raw = RawObjectData::of_kind(
        RawObjectDataUnit::Player,
        vector(1.0, 2.0, 3.0),
        vector(9.0, 9.0, 9.0),
    );
    assert_eq!(raw, RawObjectData::Player(PlayerData::new(vector(1.0, 2.0, 3.0))));
    assert_eq!(raw.kind(), RawObjectDataUnit::Player);
    assert_eq!(raw.pos(), vector(1.0, 2.0, 3.0));
    assert_eq!(raw.scale(), vector(1.0, 1.0, 1.0));
}

#[test]
fn payload_of_kind_basic_keeps_both() {
    let raw = RawObjectData::of_kind(
        RawObjectDataUnit::Basic,
        vector(1.0, 2.0, 3.0),
        vector(4.0, 5.0, 6.0),
    );
    assert_eq!(
        raw,
        RawObjectData::Basic(BasicData::new(vector(1.0, 2.0, 3.0), vector(4.0, 5.0, 6.0)))
    );
    assert_eq!(raw.kind(), RawObjectDataUnit::Basic);
    assert_eq!(raw.pos(), vector(1.0, 2.0, 3.0));
    assert_eq!(raw.scale(), vector(4.0, 5.0, 6.0));
}

#[test]
fn new_data_has_the_identity_transform() {
    let raw = RawObjectData::of_kind(
        RawObjectDataUnit::Basic,
        vector(1.0, 2.0, 3.0),
        vector(4.0, 5.0, 6.0),
    );
    let data = ObjectData::new(11, Color::Rgb([ONE, ZERO, ZERO]), raw);
    assert_eq!(data.id(), 11);
    assert_eq!(data.raw(), raw);
    assert_eq!(data.kind(), RawObjectDataUnit::Basic);
    assert_eq!(
        floats(data.model()),
        vec![1.0, 0.0, 0.0, 0.0, 0.0, 1.0, 0.0, 0.0, 0.0, 0.0, 1.0, 0.0, 0.0, 0.0, 0.0, 1.0]
    );
}

#[test]
fn model_of_a_basic_entity_scales_then_moves() {
    let raw = RawObjectData::of_kind(
        RawObjectDataUnit::Basic,
        vector(1.0, 2.0, 3.0),
        vector(4.0, 5.0, 6.0),
    );
    let mut data = ObjectData::new(1, Color::Rgb([ONE, ONE, ONE]), raw);
    data.model_upt();
    assert_eq!(
        floats(data.model()),
        vec![4.0, 0.0, 0.0, 0.0, 0.0, 5.0, 0.0, 0.0, 0.0, 0.0, 6.0, 0.0, 1.0, 2.0, 3.0, 1.0]
    );
}

#[test]
fn model_of_a_player_only_moves() {
    let raw = RawObjectData::of_kind(
        RawObjectDataUnit::Player,
        vector(-1.5, 0.25, 8.0),
        vector(4.0, 5.0, 6.0),
    );
    let mut data = ObjectData::new(1, Color::Rgb([ONE, ONE, ONE]), raw);
    data.model_upt();
    assert_eq!(
        floats(data.model()),
        vec![1.0, 0.0, 0.0, 0.0, 0.0, 1.0, 0.0, 0.0, 0.0, 0.0, 1.0, 0.0, -1.5, 0.25, 8.0, 1.0]
    );
}

#[test]
fn model_upt_twice_gives_the_same_bits() {
    let raw = RawObjectData::of_kind(
        RawObjectDataUnit::Basic,
        vector(0.1, -0.2, 0.3),
        vector(f32::NAN, f32::INFINITY, -0.0),
    );
    let mut data = ObjectData::new(1, Color::Rgb([ONE, ONE, ONE]), raw);
    data.model_upt();
    let first = *data.model();
    data.model_upt();
    assert_eq!(*data.model(), first);
    assert_eq!(data.raw(), raw);
    assert_eq!(data.id(), 1);
}

#[test]
fn moving_leaves_the_transform_until_it_is_recomputed() {
    let raw = RawObjectData::of_kind(
        RawObjectDataUnit::Basic,
        vector(1.0, 2.0, 3.0),
        vector(4.0, 5.0, 6.0),
    );
    let mut data = ObjectData::new(1, Color::Rgb([ONE, ONE, ONE]), raw);
    data.model_upt();
    let before = *data.model();
    data.set_pos(vector(7.0, 8.0, 9.0));
    assert_eq!(*data.model(), before);
    assert_eq!(data.raw().pos(), vector(7.0, 8.0, 9.0));
    assert_eq!(data.raw().scale(), vector(4.0, 5.0, 6.0));
    data.model_upt();
    assert_eq!(
        floats(data.model()),
        vec![4.0, 0.0, 0.0, 0.0, 0.0, 5.0, 0.0, 0.0, 0.0, 0.0, 6.0, 0.0, 7.0, 8.0, 9.0, 1.0]
    );
}

#[test]
fn resizing_changes_a_basic_entity_only() {
    let pos = vector(1.0, 2.0, 3.0);
    let mut basic = ObjectData::new(
        1,
        Color::Rgb([ONE, ONE, ONE]),
        RawObjectData::of_kind(RawObjectDataUnit::Basic, pos, vector(4.0, 5.0, 6.0)),
    );
    basic.set_dim(vector(2.0, 2.0, 2.0));
    assert_eq!(
        basic.raw(),
        RawObjectData::Basic(BasicData::new(pos, vector(2.0, 2.0, 2.0)))
    );
    let mut player = ObjectData::new(
        2,
        Color::Rgb([ONE, ONE, ONE]),
        RawObjectData::of_kind(RawObjectDataUnit::Player, pos, vector(4.0, 5.0, 6.0)),
    );
    player.set_dim(vector(2.0, 2.0, 2.0));
    assert_eq!(player.raw(), RawObjectData::Player(PlayerData::new(pos)));
    assert_eq!(player.kind(), RawObjectDataUnit::Player);
}

#[test]
fn colour_has_three_or_four_channels() {
    let rgb = Color::Rgb([1.0f32.to_bits(), 0.5f32.to_bits(), 0.25f32.to_bits()]);
    assert_eq!(floats(rgb.channels()), vec![1.0, 0.5, 0.25]);
    let rgba = Color::Rgba([
        1.0f32.to_bits(),
        0.5f32.to_bits(),
        0.25f32.to_bits(),
        0.125f32.to_bits(),
    ]);
    assert_eq!(floats(rgba.channels()), vec![1.0, 0.5, 0.25, 0.125]);
    let origin = vector(0.0, 0.0, 0.0);
    let raw = RawObjectData::of_kind(RawObjectDataUnit::Player, origin, origin);
    let mut data = ObjectData::new(3, rgb, raw);
    assert_eq!(floats(data.color()), vec![1.0, 0.5, 0.25]);
    data.set_color(rgba);
    assert_eq!(floats(data.color()), vec![1.0, 0.5, 0.25, 0.125]);
    assert_eq!(data.id(), 3);
    assert_eq!(data.raw(), raw);
}

#[test]
fn only_basic_entities_mark_lights() {
    let pos = vector(0.0, 0.0, 0.0);
    let basic = ObjectData::new(
        1,
        Color::Rgb([ONE, ONE, ONE]),
        RawObjectData::of_kind(RawObjectDataUnit::Basic, pos, pos),
    );
    let player = ObjectData::new(
        2,
        Color::Rgb([ONE, ONE, ONE]),
        RawObjectData::of_kind(RawObjectDataUnit::Player, pos, pos),
    );
    assert!(basic.is_light());
    assert!(!player.is_light());
}
