//! The entities of a scene, each under its identity.

use crate::buffers::Buffers;
use crate::command::{Command, CommandView};
use crate::data::{
    Color, Id, ObjectData, ObjectDataView, RawObjectData, RawObjectDataUnit, Vector,
};
use crate::err::Error;
use crate::object::{built, cube, flat_cube, initial_data, uploads, Object, ObjectView, Shape};
use crate::program::Program;
use std::collections::hash_map::Entry;
use std::collections::HashMap;
use vstd::prelude::*;
use vstd::std_specs::hash::*;
use vstd::std_specs::iter::IteratorSpec;

verus! {

broadcast use group_hash_axioms;

/// The entities of a scene, each under its identity. The registry owns
/// them: an entity leaves it through [`RawObjects::remove`], which hands it
/// to the caller, or through [`RawObjects::retain`], which gives its buffers
/// back to the context.
#[derive(Clone, Debug)]
pub struct RawObjects {
    opaque: HashMap<Id, Object>,
}

impl View for RawObjects {
    type V = Map<Id, Object>;

    /// The entity under each identity.
    closed spec fn view(&self) -> Map<Id, Object> {
        self.opaque@
    }
}

impl Default for RawObjects {
    /// A registry without entities.
    fn default() -> (out: Self)
        ensures
            out@ == Map::<Id, Object>::empty(),
    {
        RawObjects::new()
    }
}

/// What creating an entity does to a registry. Where the context had
/// created the buffers, the entity that is built of `shape` for `data`
/// stands under `id` afterwards, every other entity is as before, and the
/// calls that upload the shape are returned. Where it had refused, the
/// registry is as before and the refusal is handed on.
pub open spec fn created(
    before: Map<Id, Object>,
    after: Map<Id, Object>,
    id: Id,
    alloc: Result<Buffers, Error>,
    out: Result<Vec<Command>, Error>,
    program: Program,
    shape: Shape,
    data: ObjectDataView,
) -> bool {
    match alloc {
        Ok(buffers) => {
            &&& out matches Ok(commands)
            &&& uploads(commands.deep_view(), buffers@, shape)
            &&& after.dom() == before.dom().insert(id)
            &&& after[id]@ == built(program, buffers, shape, data)
            &&& forall|other: Id|
                other != id && before.contains_key(other) ==> after[other] == before[other]
        },
        Err(error) => {
            &&& out == Err::<Vec<Command>, Error>(error)
            &&& after == before
        },
    }
}

/// Whether `items` are the entities that `registry` holds under the
/// identities in `chosen`, each once, in some order.
pub open spec fn lists(registry: Map<Id, Object>, chosen: Set<Id>, items: Seq<Object>) -> bool {
    exists|ids: Seq<Id>| #[trigger] lists_in_order(registry, chosen, ids, items)
}

/// Whether `items` are the entities that `registry` holds under `ids`, one
/// for one, and `ids` are the identities in `chosen`, each once.
pub open spec fn lists_in_order(
    registry: Map<Id, Object>,
    chosen: Set<Id>,
    ids: Seq<Id>,
    items: Seq<Object>,
) -> bool {
    &&& ids.no_duplicates()
    &&& ids.to_set() == chosen
    &&& ids.len() == items.len()
    &&& forall|i: int| 0 <= i < ids.len() ==> items[i] == registry[#[trigger] ids[i]]
}

/// The identities under which `registry` holds a light marker.
pub open spec fn light_ids(registry: Map<Id, Object>) -> Set<Id> {
    registry.dom().filter(|id: Id| registry[id]@.data.is_light())
}

/// The identities under which `registry` holds an entity of `kind`.
pub open spec fn ids_of_kind(registry: Map<Id, Object>, kind: RawObjectDataUnit) -> Set<Id> {
    registry.dom().filter(|id: Id| registry[id]@.data.kind() == kind)
}

/// The calls that give back the buffers of the entities that `registry`
/// holds under `ids`, entity after entity.
pub open spec fn releases(registry: Map<Id, Object>, ids: Seq<Id>) -> Seq<CommandView>
    decreases ids.len(),
{
    if ids.len() == 0 {
        Seq::empty()
    } else {
        releases(registry, ids.drop_last()) + registry[ids.last()]@.buffers@.release()
    }
}

/// Which entities of a registry are meant.
enum Choice {
    All,
    Lights,
    OfKind(RawObjectDataUnit),
}

impl Choice {
    /// The identities under which `registry` holds an entity that is meant.
    spec fn ids(self, registry: Map<Id, Object>) -> Set<Id> {
        match self {
            Choice::All => registry.dom(),
            Choice::Lights => light_ids(registry),
            Choice::OfKind(kind) => ids_of_kind(registry, kind),
        }
    }

    /// Whether `object` is meant.
    fn takes(&self, object: &Object) -> (out: bool)
        ensures
            out == match *self {
                Choice::All => true,
                Choice::Lights => object@.data.is_light(),
                Choice::OfKind(kind) => object@.data.kind() == kind,
            },
    {
        match self {
            Choice::All => true,
            Choice::Lights => object.data().is_light(),
            Choice::OfKind(kind) => object.data().kind() == *kind,
        }
    }
}

impl RawObjects {
    /// A registry without entities.
    pub fn new() -> (out: Self)
        ensures
            out@ == Map::<Id, Object>::empty(),
    {
        RawObjects { opaque: HashMap::new() }
    }

    /// Creates a shaded cube for a new entity of `kind` and puts it under
    /// `id`. An entity that was there before is dropped as it is: its
    /// buffers are not given back. `alloc` is what the context answered
    /// when it was asked for the buffers; the calls that upload the cube
    /// are returned. Where the context refused, the registry stays as it
    /// is.
    pub fn new_cube(
        &mut self,
        alloc: Result<Buffers, Error>,
        id: Id,
        program: Program,
        pos: Vector,
        dim: Vector,
        color: Color,
        kind: RawObjectDataUnit,
    ) -> (out: Result<Vec<Command>, Error>)
        ensures
            created(
                old(self)@,
                final(self)@,
                id,
                alloc,
                out,
                program,
                cube(),
                initial_data(id, color, kind, pos, dim),
            ),
            out is Ok <==> alloc is Ok,
            out is Ok ==> {
                &&& final(self)@.contains_key(id)
                &&& final(self)@[id]@.data.id == id
                &&& final(self)@[id]@.data.color == color
                &&& final(self)@[id]@.data.kind() == kind
            },
    {
        let raw_data = RawObjectData::of_kind(kind, pos, dim);
        let data = ObjectData::new(id, color, raw_data);
        self.new_cube_with(alloc, program, data)
    }

    /// Creates a shaded cube around `data` and puts it under the identity
    /// that `data` names. An entity that was there before is dropped as it
    /// is: its buffers are not given back. Where the context refused, the
    /// registry stays as it is.
    pub fn new_cube_with(
        &mut self,
        alloc: Result<Buffers, Error>,
        program: Program,
        data: ObjectData,
    ) -> (out: Result<Vec<Command>, Error>)
        ensures
            created(old(self)@, final(self)@, data@.id, alloc, out, program, cube(), data@),
            out is Ok <==> alloc is Ok,
            out is Ok ==> {
                &&& final(self)@.contains_key(data@.id)
                &&& final(self)@[data@.id]@.data == data@.updated()
            },
    {
        match Object::create_cube_with(alloc, program, data) {
            Ok((obj, commands)) => {
                self.opaque.insert(data.id(), obj);
                Ok(commands)
            },
            Err(error) => Err(error),
        }
    }

    /// Creates a light marker under `id`: a basic entity drawn as a flat
    /// cube, its colour being the colour of the light. An entity that was
    /// there before is dropped as it is: its buffers are not given back.
    /// Where the context refused, the registry stays as it is.
    pub fn new_light(
        &mut self,
        alloc: Result<Buffers, Error>,
        id: Id,
        program: Program,
        pos: Vector,
        dim: Vector,
        color: Color,
    ) -> (out: Result<Vec<Command>, Error>)
        ensures
            created(
                old(self)@,
                final(self)@,
                id,
                alloc,
                out,
                program,
                flat_cube(),
                initial_data(id, color, RawObjectDataUnit::Basic, pos, dim),
            ),
            out is Ok <==> alloc is Ok,
            out is Ok ==> {
                &&& final(self)@.contains_key(id)
                &&& final(self)@[id]@.data.id == id
                &&& final(self)@[id]@.data.color == color
                &&& final(self)@[id]@.data.is_light()
            },
    {
        match Object::create_flat_cube(
            alloc,
            program,
            pos,
            dim,
            color,
            id,
            RawObjectDataUnit::Basic,
        ) {
            Ok((obj, commands)) => {
                self.opaque.insert(id, obj);
                Ok(commands)
            },
            Err(error) => Err(error),
        }
    }

    /// Puts `obj` under its own identity. An entity that was there before
    /// is dropped as it is: its buffers are not given back.
    pub fn insert(&mut self, obj: Object)
        ensures
            final(self)@ == old(self)@.insert(obj@.data.id, obj),
    {
        self.opaque.insert(obj.id(), obj);
    }

    /// Takes the entity under `id` out and hands it to the caller, who from
    /// then on is the one to give its buffers back.
    pub fn remove(&mut self, id: Id) -> (out: Option<Object>)
        ensures
            final(self)@ == old(self)@.remove(id),
            !final(self)@.contains_key(id),
            out == (if old(self)@.contains_key(id) {
                Some(old(self)@[id])
            } else {
                None
            }),
            !old(self)@.contains_key(id) ==> final(self)@ == old(self)@,
    {
        let out = self.opaque.remove(&id);
        assert(!old(self)@.contains_key(id) ==> old(self)@.remove(id) =~= old(self)@);
        out
    }

    /// Takes out every entity of `kind` and returns the calls that give
    /// their buffers back to the context, entity after entity in no
    /// particular order. Entities of the other kind stay as they are.
    pub fn retain(&mut self, kind: RawObjectDataUnit) -> (out: Vec<Command>)
        ensures
            final(self)@ == old(self)@.remove_keys(ids_of_kind(old(self)@, kind)),
            exists|ids: Seq<Id>|
                {
                    &&& ids.no_duplicates()
                    &&& ids.to_set() == ids_of_kind(old(self)@, kind)
                    &&& out.deep_view() == #[trigger] releases(old(self)@, ids)
                },
            out@.len() == 3 * ids_of_kind(old(self)@, kind).len(),
    {
        let (gone, _) = self.select(Choice::OfKind(kind));
        let ghost all = ids_of_kind(old(self)@, kind);
        let mut out: Vec<Command> = Vec::new();
        let mut i: usize = 0;
        while i < gone.len()
            invariant
                0 <= i <= gone.len(),
                gone@.no_duplicates(),
                gone@.to_set() == all,
                all == ids_of_kind(old(self)@, kind),
                self@ == old(self)@.remove_keys(gone@.take(i as int).to_set()),
                out.deep_view() == releases(old(self)@, gone@.take(i as int)),
                out@.len() == 3 * i,
            decreases gone.len() - i,
        {
            let id = gone[i];
            let ghost before = self@;
            let ghost sent = out.deep_view();
            proof {
                assert(gone@.to_set().contains(id));
                assert(old(self)@.contains_key(id));
                assert(!gone@.take(i as int).contains(id)) by {
                    if gone@.take(i as int).contains(id) {
                        let j = choose|j: int| 0 <= j < i && gone@.take(i as int)[j] == id;
                        assert(gone@[j] == gone@[i as int]);
                    }
                }
                assert(before.contains_key(id));
                assert(before[id] == old(self)@[id]);
            }
            match self.opaque.remove(&id) {
                Some(obj) => {
                    let mut calls = obj.buffers().release();
                    out.append(&mut calls);
                },
                None => {},
            }
            proof {
                let next = gone@.take(i as int + 1);
                assert(next.drop_last() =~= gone@.take(i as int));
                assert(next.last() == id);
                assert(next.to_set() =~= gone@.take(i as int).to_set().insert(id));
                assert(self@ =~= old(self)@.remove_keys(next.to_set()));
                assert(out.deep_view() =~= sent + old(self)@[id]@.buffers@.release());
            }
            i += 1;
        }
        proof {
            assert(gone@.take(gone@.len() as int) =~= gone@);
            gone@.unique_seq_to_set();
        }
        out
    }

    /// Every entity, in no particular order.
    pub fn iter(&self) -> (out: Vec<&Object>)
        ensures
            lists(self@, self@.dom(), out@.map_values(|o: &Object| *o)),
            out@.len() == self@.dom().len(),
    {
        let (ids, out) = self.select(Choice::All);
        proof {
            ids@.unique_seq_to_set();
        }
        out
    }

    /// Every light marker, in no particular order.
    pub fn lights(&self) -> (out: Vec<&Object>)
        ensures
            lists(self@, light_ids(self@), out@.map_values(|o: &Object| *o)),
            out@.len() == light_ids(self@).len(),
    {
        let (ids, out) = self.select(Choice::Lights);
        proof {
            ids@.unique_seq_to_set();
        }
        out
    }

    /// The entities that `choice` means, each with the identity that it
    /// stands under.
    fn select(&self, choice: Choice) -> (out: (Vec<Id>, Vec<&Object>))
        ensures
            lists_in_order(self@, choice.ids(self@), out.0@, out.1@.map_values(|o: &Object| *o)),
    {
        broadcast use axiom_spec_hash_map_iter;

        let ghost chosen = choice.ids(self@);
        let ghost seq = spec_hash_map_iter(&self.opaque).remaining();
        let mut ids: Vec<Id> = Vec::new();
        let mut out: Vec<&Object> = Vec::new();
        let ghost mut done: int = 0;
        for entry in it: self.opaque.iter()
            invariant
                it.seq() == seq,
                seq == spec_hash_map_iter(&self.opaque).remaining(),
                seq.no_duplicates(),
                done == it.index(),
                0 <= done <= seq.len(),
                chosen == choice.ids(self@),
                ids@.len() == out@.len(),
                ids@.no_duplicates(),
                forall|i: int| 0 <= i < ids@.len() ==> *out@[i] == self@[#[trigger] ids@[i]],
                forall|i: int|
                    0 <= i < ids@.len() ==> chosen.contains(#[trigger] ids@[i]) && exists|j: int|
                        0 <= j < done && *(#[trigger] seq[j]).0 == ids@[i],
                forall|j: int|
                    0 <= j < done && chosen.contains(*(#[trigger] seq[j]).0) ==> ids@.contains(
                        *seq[j].0,
                    ),
        {
            let id = *entry.0;
            let obj: &Object = entry.1;
            let ghost before = ids@;
            assert(seq[done] == entry);
            assert(self@.contains_key(*seq[done].0) && self@[*seq[done].0] == *seq[done].1);
            if choice.takes(obj) {
                proof {
                    assert(chosen.contains(id));
                    assert forall|i: int| 0 <= i < ids@.len() implies ids@[i] != id by {
                        let j = choose|j: int| 0 <= j < done && *(#[trigger] seq[j]).0 == ids@[i];
                        if ids@[i] == id {
                            assert(self@[*seq[j].0] == *seq[j].1);
                            assert(*seq[j].1 == *seq[done].1);
                            assert(seq[j] == seq[done]);
                        }
                    }
                }
                ids.push(id);
                out.push(obj);
                assert(ids@[ids@.len() - 1] == id);
            }
            proof {
                assert forall|j: int|
                    0 <= j <= done && chosen.contains(*(#[trigger] seq[j]).0) implies ids@.contains(
                    *seq[j].0,
                ) by {
                    if j < done {
                        let k = choose|k: int| 0 <= k < before.len() && before[k] == *seq[j].0;
                        assert(ids@[k] == *seq[j].0);
                    } else {
                        assert(ids@[ids@.len() - 1] == id);
                    }
                }
                done = done + 1;
            }
        }
        proof {
            assert(done == seq.len());
            assert forall|id: Id| chosen.contains(id) implies ids@.to_set().contains(id) by {
                assert(self@.contains_key(id));
                assert(seq.contains((&id, &self@[id])));
                let j = choose|j: int| 0 <= j < seq.len() && seq[j] == (&id, &self@[id]);
                assert(*seq[j].0 == id);
                assert(ids@.contains(id));
            }
            assert(ids@.to_set() =~= chosen);
        }
        (ids, out)
    }

    /// The data of the entity under `id`, to be changed in place. Whoever
    /// moves or resizes the entity through it calls
    /// [`ObjectData::model_upt`] afterwards.
    pub fn get_mut(&mut self, id: Id) -> (out: Option<&mut ObjectData>)
        ensures
            match out {
                Some(data) => {
                    &&& old(self)@.contains_key(id)
                    &&& data@ == old(self)@[id]@.data
                    &&& final(self)@.dom() == old(self)@.dom()
                    &&& forall|other: Id|
                        other != id && old(self)@.contains_key(other) ==> final(self)@[other]
                            == old(self)@[other]
                    &&& final(self)@[id]@ == (ObjectView {
                        data: final(data)@,
                        ..old(self)@[id]@
                    })
                },
                None => !old(self)@.contains_key(id) && final(self)@ == old(self)@,
            },
    {
        match self.opaque.entry(id) {
            Entry::Occupied(entry) => Some(entry.into_mut().data_mut()),
            Entry::Vacant(_) => None,
        }
    }
}

/// A listing holds as many entities as there are identities to list.
pub proof fn lemma_lists_len(registry: Map<Id, Object>, chosen: Set<Id>, items: Seq<Object>)
    requires
        lists(registry, chosen, items),
    ensures
        chosen.finite(),
        items.len() == chosen.len(),
{
    let ids = choose|ids: Seq<Id>| #[trigger] lists_in_order(registry, chosen, ids, items);
    ids.unique_seq_to_set();
}

/// After a cube was created in a registry without entities, a listing of
/// the registry holds that one entity, of the kind, the colour and the
/// identity that were asked for.
pub proof fn lemma_new_cube_then_iter(
    before: Map<Id, Object>,
    after: Map<Id, Object>,
    alloc: Result<Buffers, Error>,
    out: Result<Vec<Command>, Error>,
    items: Seq<Object>,
    id: Id,
    program: Program,
    pos: Vector,
    dim: Vector,
    color: Color,
    kind: RawObjectDataUnit,
)
    requires
        before == Map::<Id, Object>::empty(),
        created(
            before,
            after,
            id,
            alloc,
            out,
            program,
            cube(),
            initial_data(id, color, kind, pos, dim),
        ),
        out is Ok,
        lists(after, after.dom(), items),
    ensures
        items.len() == 1,
        items[0]@.data.id == id,
        items[0]@.data.color == color,
        items[0]@.data.kind() == kind,
        items[0]@.data.is_current(),
{
    let ids = choose|ids: Seq<Id>| #[trigger] lists_in_order(after, after.dom(), ids, items);
    assert(after.dom() =~= set![id]);
    ids.unique_seq_to_set();
    assert(ids.to_set().contains(ids[0]));
    assert(ids[0] == id);
}

/// Taking out the entities of one kind takes out all of them and no other:
/// what is left are the entities of the other kind, each as it was. Where
/// there was none of the kind, the registry stays as it is and nothing is
/// given back to the context.
pub proof fn lemma_retain(before: Map<Id, Object>, kind: RawObjectDataUnit, ids: Seq<Id>)
    requires
        ids.to_set() == ids_of_kind(before, kind),
    ensures
        ({
            let after = before.remove_keys(ids_of_kind(before, kind));
            &&& forall|id: Id|
                after.contains_key(id) <==> before.contains_key(id) && before[id]@.data.kind()
                    != kind
            &&& forall|id: Id| after.contains_key(id) ==> after[id] == before[id]
            &&& ids_of_kind(after, kind) == Set::<Id>::empty()
            &&& ids_of_kind(before, kind) == Set::<Id>::empty() ==> after == before && releases(
                before,
                ids,
            ) == Seq::<CommandView>::empty()
        }),
{
    let after = before.remove_keys(ids_of_kind(before, kind));
    assert(ids_of_kind(after, kind) =~= Set::<Id>::empty());
    if ids_of_kind(before, kind) == Set::<Id>::empty() {
        assert(after =~= before);
        if ids.len() > 0 {
            assert(ids.to_set().contains(ids[0]));
        }
    }
}

/// An entity that was taken out is in no listing of the registry any more.
pub proof fn lemma_removed_is_not_listed(
    before: Map<Id, Object>,
    id: Id,
    chosen: Set<Id>,
    ids: Seq<Id>,
    items: Seq<Object>,
)
    requires
        chosen.subset_of(before.remove(id).dom()),
        lists_in_order(before.remove(id), chosen, ids, items),
    ensures
        !ids.contains(id),
        !before.contains_key(id) ==> before.remove(id) == before,
{
    if ids.contains(id) {
        assert(ids.to_set().contains(id));
    }
    if !before.contains_key(id) {
        assert(before.remove(id) =~= before);
    }
}

/// Every light marker of a listing of the lights is in every listing of
/// the whole registry, and none of them is a player.
pub proof fn lemma_lights_among_all(
    registry: Map<Id, Object>,
    lights: Seq<Object>,
    all: Seq<Object>,
)
    requires
        lists(registry, light_ids(registry), lights),
        lists(registry, registry.dom(), all),
    ensures
        forall|i: int| 0 <= i < lights.len() ==> all.contains(#[trigger] lights[i]),
        forall|i: int|
            0 <= i < lights.len() ==> (#[trigger] lights[i])@.data.kind()
                != RawObjectDataUnit::Player,
{
    let light = choose|ids: Seq<Id>| #[trigger]
        lists_in_order(registry, light_ids(registry), ids, lights);
    let every = choose|ids: Seq<Id>| #[trigger]
        lists_in_order(registry, registry.dom(), ids, all);
    assert forall|i: int| 0 <= i < lights.len() implies all.contains(#[trigger] lights[i])
        && lights[i]@.data.kind() != RawObjectDataUnit::Player by {
        let id = light[i];
        assert(light.to_set().contains(id));
        assert(every.to_set().contains(id));
        let j = choose|j: int| 0 <= j < every.len() && every[j] == id;
        assert(all[j] == registry[every[j]]);
    }
}

} // verus!
