//! The path resolver: walks a reference's dotted path against the live store
//! and classifies what it addresses.

use std::any::TypeId;
use bevy::ecs::world::World;
use vstd::prelude::*;
use vstd::utf8::is_ascii_chars;
use crate::kind::accessor_lane;
use crate::kind::lane_of_letter;
use crate::kind::ValueKind;
use crate::reference::Reference;
use crate::reference::ReferenceView;
use crate::store::kind_in;
use crate::store::probe;
use crate::store::store_contents;
use crate::store::KindTable;
use crate::text::find_last_dot;
use crate::text::last_dot;
use crate::text::lemma_last_dot;

verus! {

/// How a record is to be accessed while an operation runs.
#[derive(Clone, Copy, Debug, PartialEq, Eq, Structural)]
pub enum Access {
    ReadOnly,
    Exclusive,
}

/// What resolving a reference yields.
///
/// `reference` addresses the live value found: the resolved reference with
/// its path cut back to the deepest prefix that addresses anything. `holder`
/// is the kind of that value and `type_id` its runtime type. `lane` is set
/// when the path went one accessor further, into a component of a vector.
#[derive(Debug, PartialEq, Eq)]
pub struct Resolved {
    pub reference: Reference,
    pub type_id: TypeId,
    pub holder: ValueKind,
    pub lane: Option<u8>,
    pub access: Access,
}

/// The mathematical value of a [`Resolved`].
pub struct ResolvedView {
    pub reference: ReferenceView,
    pub type_id: TypeId,
    pub holder: ValueKind,
    pub lane: Option<u8>,
    pub access: Access,
}

impl ResolvedView {
    /// Whether the value is one that a resolution can yield: a component is
    /// attached only to a vector that has it.
    pub open spec fn wf(self) -> bool {
        self.lane matches Some(lane) ==> lane < self.holder.lane_count()
    }

    /// The classification: the holder's kind, or, for a component access, the
    /// scalar kind of the holder's components.
    pub open spec fn kind(self) -> ValueKind {
        if self.lane.is_some() {
            self.holder.lane_kind()
        } else {
            self.holder
        }
    }
}

impl View for Resolved {
    type V = ResolvedView;

    open spec fn view(&self) -> ResolvedView {
        ResolvedView {
            reference: self.reference@,
            type_id: self.type_id,
            holder: self.holder,
            lane: self.lane,
            access: self.access,
        }
    }
}

impl Resolved {
    /// The classification of the resolved value.
    pub fn kind(&self) -> (kind: ValueKind)
        ensures
            kind == self@.kind(),
    {
        if self.lane.is_some() {
            self.holder.component()
        } else {
            self.holder
        }
    }
}

/// Why a reference did not resolve.
#[derive(Debug, PartialEq, Eq)]
pub enum PathError {
    /// The record's owner is gone, or holds no record of the reference's type.
    RecordMissing,
    /// The path addresses nothing. `valid_prefix` is the deepest prefix that
    /// does, `invalid_suffix` what follows it.
    InvalidPath { valid_prefix: String, invalid_suffix: String },
}

/// The mathematical value of a [`PathError`].
pub enum PathErrorView {
    RecordMissing,
    InvalidPath { valid_prefix: Seq<char>, invalid_suffix: Seq<char> },
}

impl View for PathError {
    type V = PathErrorView;

    open spec fn view(&self) -> PathErrorView {
        match self {
            PathError::RecordMissing => PathErrorView::RecordMissing,
            PathError::InvalidPath { valid_prefix, invalid_suffix } => PathErrorView::InvalidPath {
                valid_prefix: valid_prefix@,
                invalid_suffix: invalid_suffix@,
            },
        }
    }
}

/// Whether `path` addresses a live value in the record `owner` of `record`.
pub open spec fn addressable(
    contents: Map<(u64, Seq<char>, Seq<char>), TypeId>,
    record: u64,
    owner: Seq<char>,
    path: Seq<char>,
) -> bool {
    is_ascii_chars(path) && contents.dom().contains((record, owner, path))
}

/// The deepest valid prefix of `path`: `path` itself where it addresses a
/// value, else what remains after dropping segments from its end, one at a
/// time, until the rest does. Where no segment is left the prefix is empty and
/// stands for the record itself.
pub open spec fn deepest(
    contents: Map<(u64, Seq<char>, Seq<char>), TypeId>,
    record: u64,
    owner: Seq<char>,
    path: Seq<char>,
) -> Seq<char>
    decreases path.len(),
{
    if addressable(contents, record, owner, path) {
        path
    } else {
        match last_dot(path) {
            Some(dot) => if 0 <= dot < path.len() {
                deepest(contents, record, owner, path.take(dot))
            } else {
                Seq::empty()
            },
            None => Seq::empty(),
        }
    }
}

/// The component that a dropped suffix names: a `.` and one accessor letter,
/// or the letter alone where the suffix is the whole path.
pub open spec fn accessor(suffix: Seq<char>, rooted: bool) -> Option<u8> {
    if suffix.len() == 2 && suffix[0] == '.' {
        lane_of_letter(suffix[1])
    } else if rooted && suffix.len() == 1 {
        lane_of_letter(suffix[0])
    } else {
        None
    }
}

/// What a reference resolves to, given that the first `reach` characters of
/// its path are its deepest valid prefix and address a value of type `id`.
pub open spec fn settlement(
    table: Seq<(TypeId, ValueKind)>,
    reference: ReferenceView,
    reach: nat,
    id: TypeId,
    access: Access,
) -> Result<ResolvedView, PathErrorView> {
    let holder = kind_in(table, id);
    match reference.path {
        None => Ok(ResolvedView { reference, type_id: id, holder, lane: None, access }),
        Some(path) => {
            let cut = if reach <= path.len() {
                reach as int
            } else {
                path.len() as int
            };
            let prefix = path.take(cut);
            let suffix = path.skip(cut);
            let target = reference.at(Some(prefix));
            if suffix.len() == 0 {
                Ok(ResolvedView { reference: target, type_id: id, holder, lane: None, access })
            } else {
                match accessor(suffix, cut == 0) {
                    Some(lane) => if lane < holder.lane_count() {
                        Ok(
                            ResolvedView {
                                reference: target,
                                type_id: id,
                                holder,
                                lane: Some(lane),
                                access,
                            },
                        )
                    } else {
                        Err(PathErrorView::InvalidPath { valid_prefix: prefix, invalid_suffix: suffix })
                    },
                    None => Err(
                        PathErrorView::InvalidPath { valid_prefix: prefix, invalid_suffix: suffix },
                    ),
                }
            }
        },
    }
}

/// What a reference resolves to against given store contents.
pub open spec fn resolution(
    contents: Map<(u64, Seq<char>, Seq<char>), TypeId>,
    table: Seq<(TypeId, ValueKind)>,
    reference: ReferenceView,
    access: Access,
) -> Result<ResolvedView, PathErrorView> {
    let record = reference.record.bits;
    let owner = reference.descriptor;
    if !contents.dom().contains((record, owner, Seq::empty())) {
        Err(PathErrorView::RecordMissing)
    } else {
        let prefix = match reference.path {
            Some(path) => deepest(contents, record, owner, path),
            None => Seq::empty(),
        };
        settlement(table, reference, prefix.len(), contents[(record, owner, prefix)], access)
    }
}

/// The deepest valid prefix is a prefix of the path.
pub proof fn lemma_deepest_prefix(
    contents: Map<(u64, Seq<char>, Seq<char>), TypeId>,
    record: u64,
    owner: Seq<char>,
    path: Seq<char>,
)
    ensures
        deepest(contents, record, owner, path).len() <= path.len(),
        deepest(contents, record, owner, path) == path.take(
            deepest(contents, record, owner, path).len() as int,
        ),
    decreases path.len(),
{
    let found = deepest(contents, record, owner, path);
    if addressable(contents, record, owner, path) {
        assert(path.take(path.len() as int) =~= path);
    } else {
        match last_dot(path) {
            Some(dot) => {
                if 0 <= dot < path.len() {
                    let front = path.take(dot);
                    lemma_deepest_prefix(contents, record, owner, front);
                    assert(front.take(found.len() as int) =~= path.take(found.len() as int));
                } else {
                    assert(path.take(0) =~= Seq::<char>::empty());
                }
            },
            None => {
                assert(path.take(0) =~= Seq::<char>::empty());
            },
        }
    }
}

/// Reads the accessor that a dropped suffix names.
pub fn accessor_of(suffix: &str, rooted: bool) -> (lane: Option<u8>)
    ensures
        lane == accessor(suffix@, rooted),
{
    let length = suffix.unicode_len();
    if length == 2 {
        if suffix.get_char(0) == '.' {
            accessor_lane(suffix.get_char(1))
        } else {
            None
        }
    } else if rooted && length == 1 {
        accessor_lane(suffix.get_char(0))
    } else {
        None
    }
}

/// Classifies a reference once its deepest valid prefix is known: `reach` is
/// the length of that prefix (a greater one counts as the whole path) and `id`
/// the runtime type of the value it addresses.
pub fn settle(
    table: &KindTable,
    reference: &Reference,
    reach: usize,
    id: TypeId,
    access: Access,
) -> (result: Result<Resolved, PathError>)
    ensures
        match result {
            Ok(found) => settlement(table@, reference@, reach as nat, id, access) == Ok::<
                ResolvedView,
                PathErrorView,
            >(found@),
            Err(error) => settlement(table@, reference@, reach as nat, id, access) == Err::<
                ResolvedView,
                PathErrorView,
            >(error@),
        },
        result matches Ok(found) ==> found@.wf(),
{
    let holder = table.classify(&id);
    let path = match &reference.path {
        None => {
            return Ok(
                Resolved { reference: reference.clone(), type_id: id, holder, lane: None, access },
            );
        },
        Some(path) => path.as_str(),
    };
    let total = path.unicode_len();
    let cut: usize = if reach <= total {
        reach
    } else {
        total
    };
    let prefix = path.substring_char(0, cut);
    let suffix = path.substring_char(cut, total);
    assert(prefix@ =~= path@.take(cut as int));
    assert(suffix@ =~= path@.skip(cut as int));
    if cut == total {
        return Ok(
            Resolved {
                reference: reference.with_path(prefix),
                type_id: id,
                holder,
                lane: None,
                access,
            },
        );
    }
    match accessor_of(suffix, cut == 0) {
        Some(lane) => {
            if lane < holder.lanes() {
                return Ok(
                    Resolved {
                        reference: reference.with_path(prefix),
                        type_id: id,
                        holder,
                        lane: Some(lane),
                        access,
                    },
                );
            }
        },
        None => {},
    }
    Err(
        PathError::InvalidPath {
            valid_prefix: String::from_str(prefix),
            invalid_suffix: String::from_str(suffix),
        },
    )
}

/// Resolves `reference` against the store.
///
/// Fails with `RecordMissing` where the record's owner is gone or holds no
/// record of the reference's type. Otherwise finds the deepest valid prefix
/// of the path, dropping one trailing segment at a time, and classifies what
/// it addresses; a single dropped accessor on a vector yields the component;
/// anything else left over is an `InvalidPath`.
pub fn resolve(world: &World, table: &KindTable, reference: &Reference, access: Access) -> (result:
    Result<Resolved, PathError>)
    ensures
        match result {
            Ok(found) => resolution(store_contents(*world), table@, reference@, access) == Ok::<
                ResolvedView,
                PathErrorView,
            >(found@),
            Err(error) => resolution(store_contents(*world), table@, reference@, access) == Err::<
                ResolvedView,
                PathErrorView,
            >(error@),
        },
        result matches Ok(found) ==> found@.wf(),
{
    let ghost contents = store_contents(*world);
    let record = reference.record.to_bits();
    let owner = reference.descriptor.name.as_str();
    proof {
        reveal_strlit("");
    }
    assert(""@ =~= Seq::<char>::empty());
    let root = match probe(world, record, owner, "") {
        Some(id) => id,
        None => {
            return Err(PathError::RecordMissing);
        },
    };
    let path = match &reference.path {
        None => {
            return settle(table, reference, 0, root, access);
        },
        Some(path) => path.as_str(),
    };
    let total = path.unicode_len();
    let mut end: usize = total;
    let mut id: TypeId = root;
    let mut searching = true;
    assert(path@.take(end as int) =~= path@);
    while searching
        invariant
            contents == store_contents(*world),
            record == reference@.record.bits,
            owner@ == reference@.descriptor,
            reference@.path == Some(path@),
            total == path@.len(),
            end <= total,
            contents.dom().contains((record, owner@, Seq::<char>::empty())),
            root == contents[(record, owner@, Seq::<char>::empty())],
            deepest(contents, record, owner@, path@) == deepest(
                contents,
                record,
                owner@,
                path@.take(end as int),
            ),
            !searching ==> addressable(contents, record, owner@, path@.take(end as int)) && id
                == contents[(record, owner@, path@.take(end as int))],
        decreases end + (if searching { 1nat } else { 0nat }),
    {
        let prefix = path.substring_char(0, end);
        assert(prefix@ =~= path@.take(end as int));
        let hit = if prefix.is_ascii() {
            probe(world, record, owner, prefix)
        } else {
            None
        };
        match hit {
            Some(found) => {
                id = found;
                searching = false;
            },
            None => {
                proof {
                    lemma_last_dot(prefix@);
                }
                match find_last_dot(prefix) {
                    Some(dot) => {
                        assert(prefix@.take(dot as int) =~= path@.take(dot as int));
                        end = dot;
                    },
                    None => {
                        assert(path@.take(0) =~= Seq::<char>::empty());
                        assert(is_ascii_chars(Seq::<char>::empty()));
                        end = 0;
                        id = root;
                        searching = false;
                    },
                }
            },
        }
    }
    proof {
        lemma_deepest_prefix(contents, record, owner@, path@);
    }
    settle(table, reference, end, id, access)
}

/// Where the record is live, the deepest valid prefix addresses a value.
pub proof fn lemma_deepest_addressable(
    contents: Map<(u64, Seq<char>, Seq<char>), TypeId>,
    record: u64,
    owner: Seq<char>,
    path: Seq<char>,
)
    requires
        contents.dom().contains((record, owner, Seq::empty())),
    ensures
        addressable(contents, record, owner, deepest(contents, record, owner, path)),
    decreases path.len(),
{
    if !addressable(contents, record, owner, path) {
        match last_dot(path) {
            Some(dot) => {
                if 0 <= dot < path.len() {
                    lemma_deepest_addressable(contents, record, owner, path.take(dot));
                }
            },
            None => {},
        }
    }
}

/// No prefix that ends at a segment boundary beyond the deepest valid prefix
/// addresses a value: the prefix is the longest valid one, and the suffix
/// reported as invalid the shortest.
pub proof fn lemma_deepest_longest(
    contents: Map<(u64, Seq<char>, Seq<char>), TypeId>,
    record: u64,
    owner: Seq<char>,
    path: Seq<char>,
    cut: int,
)
    requires
        deepest(contents, record, owner, path).len() < cut <= path.len(),
        cut == path.len() || path[cut] == '.',
    ensures
        !addressable(contents, record, owner, path.take(cut)),
    decreases path.len(),
{
    if addressable(contents, record, owner, path) {
    } else if cut == path.len() {
        assert(path.take(cut) =~= path);
    } else {
        lemma_last_dot(path);
        match last_dot(path) {
            Some(dot) => {
                if cut > dot {
                    assert(path.skip(dot + 1)[cut - dot - 1] == path[cut]);
                }
                let front = path.take(dot);
                assert(front.take(cut) =~= path.take(cut));
                lemma_deepest_longest(contents, record, owner, front, cut);
            },
            None => {
                assert(path[cut] != '.');
            },
        }
    }
}

/// Trimming is idempotent. The deepest valid prefix is its own deepest valid
/// prefix, a reference cut back to it resolves to the value it addresses, and
/// that value, with its type and kind, is the one that the resolution of the
/// full path was classified from.
pub proof fn lemma_trim_idempotent(
    contents: Map<(u64, Seq<char>, Seq<char>), TypeId>,
    table: Seq<(TypeId, ValueKind)>,
    reference: ReferenceView,
    access: Access,
)
    requires
        reference.path.is_some(),
        contents.dom().contains((reference.record.bits, reference.descriptor, Seq::empty())),
    ensures
        ({
            let record = reference.record.bits;
            let owner = reference.descriptor;
            let prefix = deepest(contents, record, owner, reference.path.unwrap());
            let trimmed = reference.at(Some(prefix));
            let id = contents[(record, owner, prefix)];
            &&& deepest(contents, record, owner, prefix) == prefix
            &&& resolution(contents, table, trimmed, access) == Ok::<ResolvedView, PathErrorView>(
                ResolvedView {
                    reference: trimmed,
                    type_id: id,
                    holder: kind_in(table, id),
                    lane: None,
                    access,
                },
            )
            &&& resolution(contents, table, reference, access) matches Ok(found) ==> {
                &&& found.reference == trimmed
                &&& found.type_id == id
                &&& found.holder == kind_in(table, id)
                &&& resolution(contents, table, found.reference, access) matches Ok(again)
                &&& again.holder == found.holder
            }
        }),
{
    let record = reference.record.bits;
    let owner = reference.descriptor;
    let path = reference.path.unwrap();
    let prefix = deepest(contents, record, owner, path);
    lemma_deepest_addressable(contents, record, owner, path);
    lemma_deepest_prefix(contents, record, owner, path);
    assert(prefix.take(prefix.len() as int) =~= prefix);
    assert(prefix.skip(prefix.len() as int).len() == 0);
    assert(path.take(prefix.len() as int) == prefix);
}

/// Whatever resolves is well formed, keeps the access it was resolved for and
/// addresses the record of the reference it was resolved from.
pub proof fn lemma_resolution_wf(
    contents: Map<(u64, Seq<char>, Seq<char>), TypeId>,
    table: Seq<(TypeId, ValueKind)>,
    reference: ReferenceView,
    access: Access,
)
    ensures
        resolution(contents, table, reference, access) matches Ok(found) ==> {
            &&& found.wf()
            &&& found.access == access
            &&& found.reference.aliases(reference)
            &&& found.holder == kind_in(table, found.type_id)
        },
{
}

/// A reference without a path resolves to `Composite` exactly when the type
/// of its live record is not a terminal one.
pub proof fn lemma_whole_record(
    contents: Map<(u64, Seq<char>, Seq<char>), TypeId>,
    table: Seq<(TypeId, ValueKind)>,
    reference: ReferenceView,
    access: Access,
)
    requires
        reference.path.is_none(),
        contents.dom().contains((reference.record.bits, reference.descriptor, Seq::empty())),
    ensures
        resolution(contents, table, reference, access) matches Ok(found) && found.reference
            == reference && found.lane.is_none() && (found.kind() == ValueKind::Composite
            <==> !kind_in(
            table,
            contents[(reference.record.bits, reference.descriptor, Seq::empty())],
        ).terminal()),
{
}

} // verus!
