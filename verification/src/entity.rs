//! The handle on one entity that a script is given.

use bevy::ecs::world::World;
use vstd::prelude::*;
use crate::reference::RecordId;
use crate::reference::Reference;
use crate::reference::ReferenceView;
use crate::reference::TypeDescriptor;
use crate::store::registered;
use crate::store::registered_names;

verus! {

/// The entity that a script currently works on.
#[derive(Clone, Copy, Debug, PartialEq, Eq, Structural)]
pub struct EntityHandle {
    pub record: RecordId,
}

/// The reference that a descriptor found under a name gives on `record`: to
/// the whole record, under the descriptor's full name.
pub open spec fn whole(record: RecordId, full: Seq<char>) -> ReferenceView {
    ReferenceView { record, descriptor: full, path: None }
}

/// Makes the reference from the answer of the registry.
pub fn refer(record: RecordId, full: Option<String>) -> (found: Option<Reference>)
    ensures
        match (full, found) {
            (Some(name), Some(reference)) => reference@ == whole(record, name@),
            (None, None) => true,
            _ => false,
        },
{
    match full {
        Some(name) => Some(Reference { record, descriptor: TypeDescriptor { name }, path: None }),
        None => None,
    }
}

impl EntityHandle {
    /// The handle on the entity `record`.
    pub fn new(record: RecordId) -> (handle: EntityHandle)
        ensures
            handle.record == record,
    {
        EntityHandle { record }
    }

    /// A reference to the entity's record of the component type called
    /// `name`, by its short or its full name. A name that the registry does
    /// not know as a component type gives nothing; whether the entity holds
    /// such a record is found out when the reference is resolved.
    pub fn get(&self, world: &World, name: &str) -> (found: Option<Reference>)
        ensures
            found.is_some() == registered_names(*world).dom().contains(name@),
            found matches Some(reference) ==> reference@ == whole(
                self.record,
                registered_names(*world)[name@],
            ),
    {
        refer(self.record, registered(world, name))
    }
}

} // verus!
