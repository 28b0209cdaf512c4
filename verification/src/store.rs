//! The boundary to the entity store and its type registry.
//!
//! Everything the library knows of a `World` it has from the declarations in
//! this file: none of them is proved, each states what the store's code does.

use bevy::ecs::entity::Entity;
use bevy::ecs::reflect::ReflectComponent;
use bevy::ecs::world::World;
use bevy::reflect::GetPath;
use bevy::reflect::TypeRegistryArc;
use std::any::TypeId;
use vstd::prelude::*;
use crate::kind::ValueKind;

verus! {

/// `bevy::ecs::world::World`, the entity store, as an opaque value.
#[verifier::external_type_specification]
#[verifier::external_body]
pub struct ExWorld(World);

/// `std::any::TypeId`, the identifier of a runtime type, as an opaque value.
#[verifier::external_type_specification]
#[verifier::external_body]
pub struct ExTypeId(TypeId);

/// What the store holds, as path addressing sees it: for every record (the
/// bits of its entity and the full name of its component type) and every path
/// that addresses a value in that record, the runtime type of the value. The
/// empty path addresses the record itself.
pub uninterp spec fn store_contents(world: World) -> Map<(u64, Seq<char>, Seq<char>), TypeId>;

/// The component types that the store's type registry knows: every short or
/// full name under which it finds a registration with component access,
/// mapped to the registration's full name.
pub uninterp spec fn registered_names(world: World) -> Map<Seq<char>, Seq<char>>;

/// Addresses `path` in the record of type `owner` on the entity `record`.
///
/// Takes the registry from the world (`World::get_resource`,
/// `TypeRegistryArc::read`), finds the type by its full name
/// (`TypeRegistry::get_with_name`, `TypeRegistration::data`), borrows the
/// record (`ReflectComponent::reflect_component` on `Entity::from_bits`) and
/// walks the path (`GetPath::path`). The contract claims that the answer is
/// what [`store_contents`] holds under this key: the runtime type of the
/// addressed value, or nothing where any of these steps finds nothing. The
/// path walk slices by character counts, so only ASCII paths are admitted.
/// The registry lock is taken for reading: the caller must not hold it for
/// writing.
#[verifier::external_body]
pub(crate) fn probe(world: &World, record: u64, owner: &str, path: &str) -> (found: Option<TypeId>)
    requires
        path.is_ascii(),
    ensures
        found.is_some() == store_contents(*world).dom().contains((record, owner@, path@)),
        found matches Some(id) ==> id == store_contents(*world)[(record, owner@, path@)],
{
    let registry = world.get_resource::<TypeRegistryArc>()?.read();
    let access = registry.get_with_name(owner)?.data::<ReflectComponent>()?;
    let value = access.reflect_component(world, Entity::from_bits(record))?.path(path).ok()?;
    Some(value.any().type_id())
}

/// Looks a component type up by name.
///
/// Takes the registry from the world (`World::get_resource`,
/// `TypeRegistryArc::read`) and asks it for the short name first, then for
/// the full name (`TypeRegistry::get_with_short_name`,
/// `TypeRegistry::get_with_name`); a registration without component access
/// (`TypeRegistration::data`) counts as none. The contract claims that the
/// answer is what [`registered_names`] holds under `name`: the registration's
/// full name (`TypeRegistration::name`). The registry lock is taken for
/// reading: the caller must not hold it for writing.
#[verifier::external_body]
pub(crate) fn registered(world: &World, name: &str) -> (full: Option<String>)
    ensures
        full.is_some() == registered_names(*world).dom().contains(name@),
        full matches Some(text) ==> text@ == registered_names(*world)[name@],
{
    let registry = world.get_resource::<TypeRegistryArc>()?.read();
    let entry = registry.get_with_short_name(name).or(registry.get_with_name(name))?;
    entry.data::<ReflectComponent>()?;
    Some(entry.name().to_string())
}

/// `TypeId::eq`: two identifiers are equal exactly when they name the same
/// type.
#[verifier::external_body]
pub(crate) fn same_type(left: &TypeId, right: &TypeId) -> (same: bool)
    ensures
        same == (*left == *right),
{
    left == right
}

/// The kind that a table gives a runtime type: that of the first entry made
/// for the type, `Composite` where there is none.
pub open spec fn kind_in(entries: Seq<(TypeId, ValueKind)>, id: TypeId) -> ValueKind
    decreases entries.len(),
{
    if entries.len() == 0 {
        ValueKind::Composite
    } else if entries[0].0 == id {
        entries[0].1
    } else {
        kind_in(entries.drop_first(), id)
    }
}

/// The terminal kind table: which runtime types are terminal, and of which
/// kind. Resolution classifies by it, so that resolution, coercion and display
/// agree on one list.
pub struct KindTable {
    entries: Vec<(TypeId, ValueKind)>,
}

impl View for KindTable {
    type V = Seq<(TypeId, ValueKind)>;

    closed spec fn view(&self) -> Seq<(TypeId, ValueKind)> {
        self.entries@
    }
}

impl KindTable {
    /// A table without entries: every type is `Composite`.
    pub fn new() -> (table: KindTable)
        ensures
            table@ == Seq::<(TypeId, ValueKind)>::empty(),
    {
        KindTable { entries: Vec::new() }
    }

    /// Adds an entry after those already made. An earlier entry for the same
    /// type keeps precedence.
    pub fn register(&mut self, id: TypeId, kind: ValueKind)
        ensures
            final(self)@ == old(self)@.push((id, kind)),
    {
        self.entries.push((id, kind));
    }

    /// The number of entries.
    pub fn len(&self) -> (count: usize)
        ensures
            count == self@.len(),
    {
        self.entries.len()
    }

    /// The kind of a runtime type.
    pub fn classify(&self, id: &TypeId) -> (kind: ValueKind)
        ensures
            kind == kind_in(self@, *id),
    {
        let mut at: usize = 0;
        assert(self.entries@.skip(0) =~= self.entries@);
        while at < self.entries.len()
            invariant
                at <= self.entries@.len(),
                kind_in(self.entries@, *id) == kind_in(self.entries@.skip(at as int), *id),
            decreases self.entries@.len() - at,
        {
            let rest = Ghost(self.entries@.skip(at as int));
            assert(rest@[0] == self.entries@[at as int]);
            assert(rest@.drop_first() =~= self.entries@.skip(at + 1));
            if same_type(&self.entries[at].0, id) {
                return self.entries[at].1;
            }
            at = at + 1;
        }
        ValueKind::Composite
    }
}

} // verus!
