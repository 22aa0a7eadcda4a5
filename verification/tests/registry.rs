use glow::{NativeBuffer, NativeProgram, NativeVertexArray};
use scene_objects::buffers::Buffers;
use scene_objects::command::Command;
use scene_objects::data::{Color, ObjectData, RawObjectData, RawObjectDataUnit, Vector, ONE, ZERO};
use scene_objects::err::Error;
use scene_objects::object::Object;
use scene_objects::program::{Program, ProgramUnit};
use scene_objects::registry::RawObjects;
use std::num::NonZeroU32;

const A: u64 = 1;
const B: u64 = 2;
const C: u64 = 3;

fn buffers(n: u32) -> Buffers {
    Buffers::new(
        NativeVertexArray(NonZeroU32::new(n).unwrap()),
        NativeBuffer(NonZeroU32::new(n + 1).unwrap()),
        NativeBuffer(NonZeroU32::new(n + 2).unwrap()),
    )
}

fn program(kind: ProgramUnit) -> Program {
    Program::new(NativeProgram(NonZeroU32::new(99).unwrap()), kind)
}

fn vector(x: f32, y: f32, z: f32) -> Vector {
    Vector { x: x.to_bits(), y: y.to_bits(), z: z.to_bits() }
}

fn data(id: u64, kind: RawObjectDataUnit) -> ObjectData {
    ObjectData::new(
        id,
        Color::Rgb([ONE, ZERO, ZERO]),
        RawObjectData::of_kind(kind, vector(1.0, 2.0, 3.0), vector(4.0, 5.0, 6.0)),
    )
}

fn entity(id: u64, kind: RawObjectDataUnit, first_name: u32) -> Object {
    let alloc = Ok(buffers(first_name));
    let built = Object::create_cube_with(alloc, program(ProgramUnit::Normal), data(id, kind));
    built.unwrap().0
}

fn ids(items: &[&Object]) -> Vec<u64> {
    let mut ids: Vec<u64> = items.iter().map(|o| o.id()).collect();
    ids.sort();
    ids
}

fn scene() -> RawObjects {
    let mut registry = RawObjects::new();
    registry.insert(entity(A, RawObjectDataUnit::Basic, 10));
    registry.insert(entity(B, RawObjectDataUnit::Player, 20));
    registry.insert(entity(C, RawObjectDataUnit::Basic, 30));
    registry
}

#[test]
fn new_registry_is_empty() {
    assert!(RawObjects::new().iter().is_empty());
    assert!(RawObjects::default().iter().is_empty());
    assert!(RawObjects::new().lights().is_empty());
}

#[test]
fn new_cube_then_iter_yields_that_entity() {
    for kind in [RawObjectDataUnit::Basic, RawObjectDataUnit::Player] {
        let mut registry = RawObjects::new();
        let color = Color::Rgba([ONE, ZERO, ONE, ONE]);
        let calls = registry
            .new_cube(
                Ok(buffers(10)),
                42,
                program(ProgramUnit::Normal),
                vector(1.0, 2.0, 3.0),
                vector(4.0, 5.0, 6.0),
                color,
                kind,
            )
            .unwrap();
        assert_eq!(calls.len(), 12);
        let items = registry.iter();
        assert_eq!(items.len(), 1);
        assert_eq!(items[0].id(), 42);
        assert_eq!(items[0].kind(), kind);
        assert_eq!(items[0].color(), &[ONE, ZERO, ONE, ONE]);
        assert_eq!(items[0].buffers(), buffers(10));
        assert_eq!(items[0].len(), 36);
    }
}

#[test]
fn new_cube_is_shaded_whatever_the_program() {
    let mut registry = RawObjects::new();
    registry
        .new_cube(
            Ok(buffers(10)),
            1,
            program(ProgramUnit::Simple),
            vector(0.0, 0.0, 0.0),
            vector(1.0, 1.0, 1.0),
            Color::Rgb([ONE, ONE, ONE]),
            RawObjectDataUnit::Basic,
        )
        .unwrap();
    let items = registry.iter();
    assert_eq!(items[0].len(), 36);
    assert_eq!(items[0].mode(), glow::TRIANGLES);
}

#[test]
fn new_cube_with_returns_the_upload_and_stores_under_the_data_s_identity() {
    let mut registry = RawObjects::new();
    let player = data(7, RawObjectDataUnit::Player);
    let calls = registry
        .new_cube_with(Ok(buffers(10)), program(ProgramUnit::Normal), player)
        .unwrap();
    let (expected, expected_calls) = Object::create_cube_with(
        Ok(buffers(10)),
        program(ProgramUnit::Normal),
        data(7, RawObjectDataUnit::Player),
    )
    .unwrap();
    assert_eq!(calls, expected_calls);
    let stored = registry.remove(7).unwrap();
    assert_eq!(stored.id(), 7);
    assert_eq!(stored.buffers(), expected.buffers());
    assert_eq!(stored.model(), expected.model());
    assert_eq!(stored.len(), expected.len());
}

#[test]
fn refused_creation_leaves_the_registry_as_it_was() {
    let mut registry = scene();
    let out = registry.new_cube_with(
        Err(Error::refused(String::from("refused"))),
        program(ProgramUnit::Normal),
        data(9, RawObjectDataUnit::Basic),
    );
    assert_eq!(out.unwrap_err().message(), "refused");
    let out = registry.new_cube(
        Err(Error::refused(String::from("refused again"))),
        A,
        program(ProgramUnit::Normal),
        vector(0.0, 0.0, 0.0),
        vector(0.0, 0.0, 0.0),
        Color::Rgb([ZERO, ZERO, ZERO]),
        RawObjectDataUnit::Player,
    );
    assert_eq!(out.unwrap_err().message(), "refused again");
    let out = registry.new_light(
        Err(Error::refused(String::from("no light"))),
        B,
        program(ProgramUnit::Simple),
        vector(0.0, 0.0, 0.0),
        vector(0.0, 0.0, 0.0),
        Color::Rgb([ZERO, ZERO, ZERO]),
    );
    assert_eq!(out.unwrap_err().message(), "no light");
    assert_eq!(ids(&registry.iter()), vec![A, B, C]);
    assert_eq!(registry.remove(A).unwrap().kind(), RawObjectDataUnit::Basic);
    assert_eq!(registry.remove(B).unwrap().kind(), RawObjectDataUnit::Player);
}

#[test]
fn new_light_is_a_basic_flat_cube() {
    let mut registry = RawObjects::new();
    let calls = registry
        .new_light(
            Ok(buffers(10)),
            5,
            program(ProgramUnit::Simple),
            vector(1.0, 2.0, 3.0),
            vector(4.0, 5.0, 6.0),
            Color::Rgb([ONE, ONE, ZERO]),
        )
        .unwrap();
    assert_eq!(calls.len(), 10);
    let lights = registry.lights();
    assert_eq!(lights.len(), 1);
    assert_eq!(lights[0].id(), 5);
    assert_eq!(lights[0].kind(), RawObjectDataUnit::Basic);
    assert_eq!(lights[0].len(), 14);
    assert_eq!(lights[0].mode(), glow::TRIANGLE_STRIP);
    assert_eq!(lights[0].color(), &[ONE, ONE, ZERO]);
    assert_eq!(
        lights[0].data().raw(),
        RawObjectData::of_kind(
            RawObjectDataUnit::Basic,
            vector(1.0, 2.0, 3.0),
            vector(4.0, 5.0, 6.0)
        )
    );
}

#[test]
fn insert_overwrites_without_giving_anything_back() {
    let mut registry = RawObjects::new();
    registry.insert(entity(A, RawObjectDataUnit::Basic, 10));
    registry.insert(entity(A, RawObjectDataUnit::Player, 20));
    let items = registry.iter();
    assert_eq!(items.len(), 1);
    assert_eq!(items[0].kind(), RawObjectDataUnit::Player);
    assert_eq!(items[0].buffers(), buffers(20));
}

#[test]
fn remove_of_an_absent_identity_changes_nothing() {
    let mut registry = scene();
    assert!(registry.remove(99).is_none());
    assert_eq!(ids(&registry.iter()), vec![A, B, C]);
    let mut empty = RawObjects::new();
    assert!(empty.remove(A).is_none());
    assert!(empty.iter().is_empty());
}

#[test]
fn remove_hands_the_entity_out() {
    let mut registry = scene();
    let removed = registry.remove(B).unwrap();
    assert_eq!(removed.id(), B);
    assert_eq!(removed.buffers(), buffers(20));
    assert_eq!(ids(&registry.iter()), vec![A, C]);
    assert!(registry.get_mut(B).is_none());
    assert!(registry.remove(B).is_none());
}

#[test]
fn get_mut_edits_in_place() {
    let mut registry = scene();
    assert!(registry.get_mut(99).is_none());
    {
        let data = registry.get_mut(A).unwrap();
        assert_eq!(data.id(), A);
        data.set_pos(vector(0.0, 0.0, 0.0));
        data.set_color(Color::Rgb([ZERO, ONE, ZERO]));
        data.model_upt();
    }
    let edited = registry.remove(A).unwrap();
    assert_eq!(edited.color(), &[ZERO, ONE, ZERO]);
    assert_eq!(edited.buffers(), buffers(10));
    let model: Vec<f32> = edited.model().iter().map(|w| f32::from_bits(*w)).collect();
    assert_eq!(
        model,
        vec![4.0, 0.0, 0.0, 0.0, 0.0, 5.0, 0.0, 0.0, 0.0, 0.0, 6.0, 0.0, 0.0, 0.0, 0.0, 1.0]
    );
    assert_eq!(ids(&registry.iter()), vec![B, C]);
}

#[test]
fn retain_takes_out_the_kind_and_releases_its_buffers() {
    let mut registry = scene();
    let calls = registry.retain(RawObjectDataUnit::Basic);
    assert_eq!(ids(&registry.iter()), vec![B]);
    assert_eq!(calls.len(), 6);
    let first = buffers(10).release();
    let second = buffers(30).release();
    let one_way: Vec<Command> = first.into_iter().chain(second).collect();
    let other_way: Vec<Command> =
        buffers(30).release().into_iter().chain(buffers(10).release()).collect();
    assert!(calls == one_way || calls == other_way);
}

#[test]
fn retain_leaves_the_other_kind_untouched() {
    let mut registry = scene();
    let calls = registry.retain(RawObjectDataUnit::Player);
    assert_eq!(calls, buffers(20).release());
    assert_eq!(ids(&registry.iter()), vec![A, C]);
    assert_eq!(registry.get_mut(A).unwrap().id(), A);
    assert_eq!(registry.remove(C).unwrap().buffers(), buffers(30));
}

#[test]
fn retain_without_a_match_is_a_no_op() {
    let mut registry = RawObjects::new();
    registry.insert(entity(B, RawObjectDataUnit::Player, 20));
    assert!(registry.retain(RawObjectDataUnit::Basic).is_empty());
    assert_eq!(ids(&registry.iter()), vec![B]);
    assert!(RawObjects::new().retain(RawObjectDataUnit::Player).is_empty());
}

#[test]
fn lights_are_among_all_and_never_players() {
    let mut registry = scene();
    registry
        .new_cube_with(
            Ok(buffers(40)),
            program(ProgramUnit::Normal),
            data(4, RawObjectDataUnit::Player),
        )
        .unwrap();
    let all = ids(&registry.iter());
    let lights = registry.lights();
    assert_eq!(ids(&lights), vec![A, C]);
    for light in lights.iter() {
        assert!(all.contains(&light.id()));
        assert!(light.is_light());
        assert_eq!(light.kind(), RawObjectDataUnit::Basic);
    }
    assert_eq!(all, vec![A, B, C, 4]);
}

#[test]
fn end_to_end_retain_basic_leaves_the_player() {
    let mut registry = RawObjects::new();
    registry.insert(entity(A, RawObjectDataUnit::Basic, 10));
    registry.insert(entity(B, RawObjectDataUnit::Player, 20));
    registry.insert(entity(C, RawObjectDataUnit::Basic, 30));
    registry.retain(RawObjectDataUnit::Basic);
    let items = registry.iter();
    assert_eq!(items.len(), 1);
    assert_eq!(items[0].id(), B);
    assert_eq!(items[0].kind(), RawObjectDataUnit::Player);
}

#[test]
fn a_copy_of_the_registry_lists_the_same_entities() {
    let registry = scene();
    let copy = registry.clone();
    assert_eq!(ids(&copy.iter()), ids(&registry.iter()));
}
