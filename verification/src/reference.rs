//! References: cheap addresses of a record and a dotted path into it.

use vstd::prelude::*;
use crate::text::decimal;
use crate::text::decimal_text;

verus! {

/// The store's handle for one record owner: a slot index in the low half and
/// the slot's generation in the high half.
#[derive(Clone, Copy, Debug, PartialEq, Eq, Structural)]
pub struct RecordId {
    pub bits: u64,
}

impl RecordId {
    pub open spec fn spec_index(self) -> u32 {
        (self.bits & 0xffff_ffff) as u32
    }

    pub open spec fn spec_generation(self) -> u32 {
        (self.bits >> 32) as u32
    }

    /// The text that names the record in traces: index, `v`, generation.
    pub open spec fn label(self) -> Seq<char> {
        decimal(self.spec_index() as nat) + seq!['v'] + decimal(self.spec_generation() as nat)
    }

    pub fn from_bits(bits: u64) -> (id: RecordId)
        ensures
            id.bits == bits,
    {
        RecordId { bits }
    }

    pub fn to_bits(self) -> (bits: u64)
        ensures
            bits == self.bits,
    {
        self.bits
    }

    #[verifier::when_used_as_spec(spec_index)]
    pub fn index(self) -> (index: u32)
        ensures
            index == self.spec_index(),
    {
        let bits: u64 = self.bits;
        assert(bits & 0xffff_ffff <= 0xffff_ffff) by (bit_vector);
        (bits & 0xffff_ffff) as u32
    }

    #[verifier::when_used_as_spec(spec_generation)]
    pub fn generation(self) -> (generation: u32)
        ensures
            generation == self.spec_generation(),
    {
        let bits: u64 = self.bits;
        assert(bits >> 32 <= 0xffff_ffff) by (bit_vector);
        (bits >> 32) as u32
    }

    pub fn name(self) -> (text: String)
        ensures
            text@ == self.label(),
    {
        let mut text = decimal_text(self.index());
        proof {
            reveal_strlit("v");
        }
        text.append("v");
        let generation = decimal_text(self.generation());
        text.append(generation.as_str());
        assert(text@ =~= self.label());
        text
    }
}

/// What a type descriptor is known by: the full name under which the type
/// registry holds the record's type. The registry keeps one registration per
/// full name, so the name also identifies the type when references are
/// compared.
#[derive(Debug, PartialEq, Eq)]
pub struct TypeDescriptor {
    pub name: String,
}

impl View for TypeDescriptor {
    type V = Seq<char>;

    open spec fn view(&self) -> Seq<char> {
        self.name@
    }
}

impl Clone for TypeDescriptor {
    fn clone(&self) -> (copy: Self)
        ensures
            copy@ == self@,
    {
        TypeDescriptor { name: self.name.clone() }
    }
}

/// An address into the store: a record, the descriptor of its type, and an
/// optional dotted path into the record. A reference holds no borrowed data
/// and is never changed once made.
#[derive(Debug, PartialEq, Eq)]
pub struct Reference {
    pub record: RecordId,
    pub descriptor: TypeDescriptor,
    pub path: Option<String>,
}

/// The mathematical value of a [`Reference`].
pub struct ReferenceView {
    pub record: RecordId,
    pub descriptor: Seq<char>,
    pub path: Option<Seq<char>>,
}

/// The path of a child: the key alone under a base without a path, else the
/// base's path, a `.` and the key.
pub open spec fn join(base: Option<Seq<char>>, key: Seq<char>) -> Seq<char> {
    match base {
        Some(path) => path + seq!['.'] + key,
        None => key,
    }
}

impl ReferenceView {
    /// The reference that indexing by `key` yields.
    pub open spec fn child(self, key: Seq<char>) -> ReferenceView {
        ReferenceView { path: Some(join(self.path, key)), ..self }
    }

    /// The same record and type under another path.
    pub open spec fn at(self, path: Option<Seq<char>>) -> ReferenceView {
        ReferenceView { path, ..self }
    }

    /// Whether two references address the same record of the same type,
    /// whatever their paths.
    pub open spec fn aliases(self, other: ReferenceView) -> bool {
        self.record == other.record && self.descriptor == other.descriptor
    }

    /// The display trace: record, type name and, where there is one, the
    /// dotted path, separated by `.`.
    pub open spec fn trace(self) -> Seq<char> {
        let head = self.record.label() + seq!['.'] + self.descriptor;
        match self.path {
            Some(path) => head + seq!['.'] + path,
            None => head,
        }
    }
}

impl View for Reference {
    type V = ReferenceView;

    open spec fn view(&self) -> ReferenceView {
        ReferenceView {
            record: self.record,
            descriptor: self.descriptor@,
            path: match self.path {
                Some(path) => Some(path@),
                None => None,
            },
        }
    }
}

impl Clone for Reference {
    fn clone(&self) -> (copy: Self)
        ensures
            copy@ == self@,
    {
        let path = match &self.path {
            Some(path) => Some(path.clone()),
            None => None,
        };
        Reference { record: self.record, descriptor: self.descriptor.clone(), path }
    }
}

impl Reference {
    /// A reference to a whole record.
    pub fn new(record: RecordId, name: &str) -> (made: Reference)
        ensures
            made@ == (ReferenceView { record, descriptor: name@, path: None }),
    {
        Reference { record, descriptor: TypeDescriptor { name: String::from_str(name) }, path: None }
    }

    /// Indexes the reference by `key`. The store is not consulted: whether the
    /// child addresses anything is found out when it is resolved.
    pub fn index(&self, key: &str) -> (child: Reference)
        ensures
            child@ == self@.child(key@),
    {
        let path = match &self.path {
            Some(base) => {
                let mut path = base.clone();
                proof {
                    reveal_strlit(".");
                }
                path.append(".");
                path.append(key);
                assert(path@ =~= base@ + seq!['.'] + key@);
                path
            },
            None => String::from_str(key),
        };
        Reference { record: self.record, descriptor: self.descriptor.clone(), path: Some(path) }
    }

    /// The same record and type under `path`.
    pub fn with_path(&self, path: &str) -> (moved: Reference)
        ensures
            moved@ == self@.at(Some(path@)),
    {
        Reference {
            record: self.record,
            descriptor: self.descriptor.clone(),
            path: Some(String::from_str(path)),
        }
    }

    /// Whether `other` addresses the same record of the same type.
    pub fn aliases(&self, other: &Reference) -> (yes: bool)
        ensures
            yes == self@.aliases(other@),
    {
        self.record.bits == other.record.bits && self.descriptor.name == other.descriptor.name
    }

    /// Whether `other` is the same address: record, type and path.
    pub fn same(&self, other: &Reference) -> (yes: bool)
        ensures
            yes == (self@ == other@),
    {
        let paths = match (&self.path, &other.path) {
            (Some(mine), Some(theirs)) => *mine == *theirs,
            (None, None) => true,
            _ => false,
        };
        self.aliases(other) && paths
    }

    /// The display trace of the reference.
    pub fn trace(&self) -> (text: String)
        ensures
            text@ == self@.trace(),
    {
        let mut text = self.record.name();
        proof {
            reveal_strlit(".");
        }
        text.append(".");
        text.append(self.descriptor.name.as_str());
        match &self.path {
            Some(path) => {
                text.append(".");
                text.append(path.as_str());
                assert(text@ =~= self@.trace());
            },
            None => {
                assert(text@ =~= self@.trace());
            },
        }
        text
    }
}

/// Indexing twice is indexing once by the keys joined with a `.`: a path is
/// built from its keys by concatenation alone.
pub proof fn lemma_index_joins(base: ReferenceView, first: Seq<char>, second: Seq<char>)
    ensures
        base.child(first).child(second) == base.child(first + seq!['.'] + second),
{
    match base.path {
        Some(path) => {
            assert((path + seq!['.'] + first) + seq!['.'] + second =~= path + seq!['.'] + (first
                + seq!['.'] + second));
        },
        None => {},
    }
}

} // verus!
