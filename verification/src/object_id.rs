//! Identifiers of plotted objects, bounded by `MAX_OBJECTS`.
use vstd::prelude::*;

verus! {

/// Number of distinct identifiers: an identifier is below this bound.
pub const MAX_OBJECTS: usize = 4096;

/// The identifier of an object, a number below `MAX_OBJECTS`.
#[derive(Copy, Clone, Debug, Default, Ord, PartialOrd, Eq, PartialEq, Hash, Structural)]
pub struct ObjectId {
    id: usize,
}

impl ObjectId {
    /// The number this identifier stands for.
    pub closed spec fn spec_id(self) -> usize {
        self.id
    }

    /// An identifier is valid when its number is below `MAX_OBJECTS`.
    pub open spec fn wf(self) -> bool {
        self.spec_id() < MAX_OBJECTS
    }

    /// Every identifier's number is below `MAX_OBJECTS`.
    #[verifier::type_invariant]
    spec fn in_bounds(self) -> bool {
        self.id < MAX_OBJECTS
    }

    /// Makes the identifier for `id`, or `None` when `id` is out of bounds.
    pub fn new(id: usize) -> (res: Option<ObjectId>)
        ensures
            res is Some <==> id < MAX_OBJECTS,
            res matches Some(o) ==> o.spec_id() == id && o.wf(),
    {
        if id < MAX_OBJECTS {
            Some(ObjectId { id })
        } else {
            None
        }
    }

    /// Makes the identifier for `id`, which must be in bounds.
    pub fn force(id: usize) -> (o: ObjectId)
        requires
            id < MAX_OBJECTS,
        ensures
            o.spec_id() == id,
            o.wf(),
    {
        ObjectId { id }
    }

    /// The number this identifier stands for.
    pub fn id(&self) -> (n: usize)
        ensures
            n == self.spec_id(),
            n < MAX_OBJECTS,
    {
        proof {
            use_type_invariant(self);
        }
        self.id
    }
}

impl core::ops::Deref for ObjectId {
    type Target = usize;

    fn deref(&self) -> (n: &usize)
        ensures
            *n == self.spec_id(),
            *n < MAX_OBJECTS,
    {
        proof {
            use_type_invariant(self);
        }
        &self.id
    }
}

/// An identifier is determined by its number.
pub proof fn lemma_id_determines(a: ObjectId, b: ObjectId)
    requires
        a.spec_id() == b.spec_id(),
    ensures
        a == b,
{
}

} // verus!
