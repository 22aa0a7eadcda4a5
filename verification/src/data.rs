//! What an entity is, apart from its geometry: identity, colour, the
//! kind-tagged payload and the model transform derived from it.
//!
//! Every real number is held as the bit pattern of its IEEE-754
//! single-precision encoding, so two values are equal exactly when they are
//! bit-identical.

use vstd::prelude::*;

verus! {

/// Names one entity within a registry.
pub type Id = u64;

/// Bit pattern of the real number zero.
pub const ZERO: u32 = 0x0000_0000;

/// Bit pattern of the real number one.
pub const ONE: u32 = 0x3F80_0000;

/// Three components, used as a position and as the dimensions of a box.
#[derive(Clone, Copy, Debug, PartialEq, Eq, Structural)]
pub struct Vector {
    pub x: u32,
    pub y: u32,
    pub z: u32,
}

/// A shading colour of three or four channels.
#[derive(Clone, Copy, Debug, PartialEq, Eq)]
pub enum Color {
    Rgb([u32; 3]),
    Rgba([u32; 4]),
}

impl View for Color {
    type V = Seq<u32>;

    /// The channels, in order.
    open spec fn view(&self) -> Seq<u32> {
        match *self {
            Color::Rgb(c) => c@,
            Color::Rgba(c) => c@,
        }
    }
}

impl Color {
    /// The channels, in order: three or four of them.
    pub fn channels(&self) -> (out: &[u32])
        ensures
            out@ == self@,
            out@.len() == 3 || out@.len() == 4,
    {
        match self {
            Color::Rgb(c) => c.as_slice(),
            Color::Rgba(c) => c.as_slice(),
        }
    }
}

/// The two kinds of entity.
#[derive(Clone, Copy, Debug, PartialEq, Eq, Structural)]
pub enum RawObjectDataUnit {
    Player,
    Basic,
}

/// Payload of a player: a position.
#[derive(Clone, Copy, Debug, PartialEq, Eq, Structural)]
pub struct PlayerData {
    pub pos: Vector,
}

impl PlayerData {
    pub fn new(pos: Vector) -> (out: Self)
        ensures
            out == (PlayerData { pos }),
    {
        PlayerData { pos }
    }
}

/// Payload of a basic entity: a position and the dimensions of its box.
#[derive(Clone, Copy, Debug, PartialEq, Eq, Structural)]
pub struct BasicData {
    pub pos: Vector,
    pub dim: Vector,
}

impl BasicData {
    pub fn new(pos: Vector, dim: Vector) -> (out: Self)
        ensures
            out == (BasicData { pos, dim }),
    {
        BasicData { pos, dim }
    }
}

/// The payload, tagged by kind.
#[derive(Clone, Copy, Debug, PartialEq, Eq, Structural)]
pub enum RawObjectData {
    Player(PlayerData),
    Basic(BasicData),
}

impl RawObjectData {
    /// The tag of the payload.
    pub open spec fn spec_kind(self) -> RawObjectDataUnit {
        match self {
            RawObjectData::Player(_) => RawObjectDataUnit::Player,
            RawObjectData::Basic(_) => RawObjectDataUnit::Basic,
        }
    }

    /// Where the entity stands.
    pub open spec fn spec_pos(self) -> Vector {
        match self {
            RawObjectData::Player(p) => p.pos,
            RawObjectData::Basic(b) => b.pos,
        }
    }

    /// By how much the unit cube is scaled along each axis: the dimensions of
    /// a basic entity, and one along every axis for a player.
    pub open spec fn spec_scale(self) -> Vector {
        match self {
            RawObjectData::Player(_) => Vector { x: ONE, y: ONE, z: ONE },
            RawObjectData::Basic(b) => b.dim,
        }
    }

    /// The payload that an entity of `kind` at `pos` with dimensions `dim`
    /// starts with. A player carries no dimensions.
    pub open spec fn spec_of_kind(kind: RawObjectDataUnit, pos: Vector, dim: Vector) -> Self {
        match kind {
            RawObjectDataUnit::Player => RawObjectData::Player(PlayerData { pos }),
            RawObjectDataUnit::Basic => RawObjectData::Basic(BasicData { pos, dim }),
        }
    }

    #[verifier::when_used_as_spec(spec_of_kind)]
    pub fn of_kind(kind: RawObjectDataUnit, pos: Vector, dim: Vector) -> (out: Self)
        ensures
            out == Self::spec_of_kind(kind, pos, dim),
            out.spec_kind() == kind,
    {
        match kind {
            RawObjectDataUnit::Player => RawObjectData::Player(PlayerData::new(pos)),
            RawObjectDataUnit::Basic => RawObjectData::Basic(BasicData::new(pos, dim)),
        }
    }

    #[verifier::when_used_as_spec(spec_kind)]
    pub fn kind(self) -> (out: RawObjectDataUnit)
        ensures
            out == self.spec_kind(),
    {
        match self {
            RawObjectData::Player(_) => RawObjectDataUnit::Player,
            RawObjectData::Basic(_) => RawObjectDataUnit::Basic,
        }
    }

    #[verifier::when_used_as_spec(spec_pos)]
    pub fn pos(self) -> (out: Vector)
        ensures
            out == self.spec_pos(),
    {
        match self {
            RawObjectData::Player(p) => p.pos,
            RawObjectData::Basic(b) => b.pos,
        }
    }

    #[verifier::when_used_as_spec(spec_scale)]
    pub fn scale(self) -> (out: Vector)
        ensures
            out == self.spec_scale(),
    {
        match self {
            RawObjectData::Player(_) => Vector { x: ONE, y: ONE, z: ONE },
            RawObjectData::Basic(b) => b.dim,
        }
    }
}

/// The identity transform, column by column.
pub open spec fn identity() -> Seq<u32> {
    seq![
        ONE, ZERO, ZERO, ZERO,
        ZERO, ONE, ZERO, ZERO,
        ZERO, ZERO, ONE, ZERO,
        ZERO, ZERO, ZERO, ONE,
    ]
}

/// The model transform of a payload, column by column: the unit cube scaled
/// by the payload's scale, then moved to its position.
pub open spec fn model_of(raw: RawObjectData) -> Seq<u32> {
    let s = raw.spec_scale();
    let p = raw.spec_pos();
    seq![
        s.x, ZERO, ZERO, ZERO,
        ZERO, s.y, ZERO, ZERO,
        ZERO, ZERO, s.z, ZERO,
        p.x, p.y, p.z, ONE,
    ]
}

/// What an [`ObjectData`] holds.
pub struct ObjectDataView {
    pub id: Id,
    pub color: Color,
    pub raw: RawObjectData,
    /// Sixteen entries, column by column.
    pub model: Seq<u32>,
}

impl ObjectDataView {
    /// The kind, which is the tag of the payload.
    pub open spec fn kind(self) -> RawObjectDataUnit {
        self.raw.spec_kind()
    }

    /// Whether the entity marks a light: by convention the basic ones do.
    pub open spec fn is_light(self) -> bool {
        self.raw.spec_kind() == RawObjectDataUnit::Basic
    }

    /// Whether the model transform is the one that the payload gives.
    pub open spec fn is_current(self) -> bool {
        self.model == model_of(self.raw)
    }

    /// This value with its model transform brought up to date.
    pub open spec fn updated(self) -> Self {
        ObjectDataView { model: model_of(self.raw), ..self }
    }
}

/// Identity, colour, payload and the model transform derived from the
/// payload. The transform follows the payload only when [`Self::model_upt`]
/// is called.
#[derive(Clone, Copy, Debug)]
pub struct ObjectData {
    id: Id,
    color: Color,
    raw: RawObjectData,
    model: [u32; 16],
}

impl View for ObjectData {
    type V = ObjectDataView;

    closed spec fn view(&self) -> ObjectDataView {
        ObjectDataView { id: self.id, color: self.color, raw: self.raw, model: self.model@ }
    }
}

impl ObjectData {
    /// A value with the identity as its model transform.
    pub fn new(id: Id, color: Color, raw: RawObjectData) -> (out: Self)
        ensures
            out@ == (ObjectDataView { id, color, raw, model: identity() }),
    {
        let model: [u32; 16] = [
            ONE, ZERO, ZERO, ZERO,
            ZERO, ONE, ZERO, ZERO,
            ZERO, ZERO, ONE, ZERO,
            ZERO, ZERO, ZERO, ONE,
        ];
        assert(model@ =~= identity());
        ObjectData { id, color, raw, model }
    }

    pub fn id(&self) -> (out: Id)
        ensures
            out == self@.id,
    {
        self.id
    }

    /// The channels of the colour.
    pub fn color(&self) -> (out: &[u32])
        ensures
            out@ == self@.color@,
    {
        self.color.channels()
    }

    pub fn raw(&self) -> (out: RawObjectData)
        ensures
            out == self@.raw,
    {
        self.raw
    }

    pub fn kind(&self) -> (out: RawObjectDataUnit)
        ensures
            out == self@.kind(),
    {
        self.raw.kind()
    }

    pub fn is_light(&self) -> (out: bool)
        ensures
            out == self@.is_light(),
    {
        match self.raw {
            RawObjectData::Player(_) => false,
            RawObjectData::Basic(_) => true,
        }
    }

    /// The model transform as last computed, column by column.
    pub fn model(&self) -> (out: &[u32; 16])
        ensures
            out@ == self@.model,
    {
        &self.model
    }

    /// Replaces the colour; nothing else changes.
    pub fn set_color(&mut self, color: Color)
        ensures
            final(self)@ == (ObjectDataView { color, ..old(self)@ }),
    {
        self.color = color;
    }

    /// Moves the entity. The model transform stays as it was until
    /// [`Self::model_upt`] is called.
    pub fn set_pos(&mut self, pos: Vector)
        ensures
            final(self)@.id == old(self)@.id,
            final(self)@.color == old(self)@.color,
            final(self)@.model == old(self)@.model,
            final(self)@.raw == (match old(self)@.raw {
                RawObjectData::Player(_) => RawObjectData::Player(PlayerData { pos }),
                RawObjectData::Basic(b) => RawObjectData::Basic(BasicData { pos, dim: b.dim }),
            }),
    {
        self.raw = match self.raw {
            RawObjectData::Player(_) => RawObjectData::Player(PlayerData { pos }),
            RawObjectData::Basic(b) => RawObjectData::Basic(BasicData { pos, dim: b.dim }),
        };
    }

    /// Resizes a basic entity; a player has no dimensions and stays as it
    /// is. The model transform stays as it was until [`Self::model_upt`] is
    /// called.
    pub fn set_dim(&mut self, dim: Vector)
        ensures
            final(self)@.id == old(self)@.id,
            final(self)@.color == old(self)@.color,
            final(self)@.model == old(self)@.model,
            final(self)@.raw == (match old(self)@.raw {
                RawObjectData::Player(p) => RawObjectData::Player(p),
                RawObjectData::Basic(b) => RawObjectData::Basic(BasicData { pos: b.pos, dim }),
            }),
    {
        self.raw = match self.raw {
            RawObjectData::Player(p) => RawObjectData::Player(p),
            RawObjectData::Basic(b) => RawObjectData::Basic(BasicData { pos: b.pos, dim }),
        };
    }

    /// Recomputes the model transform from the payload.
    pub fn model_upt(&mut self)
        ensures
            final(self)@ == old(self)@.updated(),
            final(self)@.is_current(),
    {
        let s = self.raw.scale();
        let p = self.raw.pos();
        let model: [u32; 16] = [
            s.x, ZERO, ZERO, ZERO,
            ZERO, s.y, ZERO, ZERO,
            ZERO, ZERO, s.z, ZERO,
            p.x, p.y, p.z, ONE,
        ];
        assert(model@ =~= model_of(self.raw));
        self.model = model;
    }
}

/// Recomputing the model transform a second time, with the payload
/// untouched in between, changes nothing: the entries are the same bit for
/// bit.
pub proof fn lemma_model_upt_idempotent(data: ObjectDataView)
    ensures
        data.updated().updated() == data.updated(),
        data.updated().is_current(),
{
}

/// Recomputing the model transform touches neither the identity, the colour
/// nor the payload, and leaves a transform that is already current as it is.
pub proof fn lemma_model_upt_keeps(data: ObjectDataView)
    ensures
        data.updated().id == data.id,
        data.updated().color == data.color,
        data.updated().raw == data.raw,
        data.is_current() ==> data.updated() == data,
{
}

} // verus!
