//! Coordinate sequences: the engine's arrays of points.

use vstd::prelude::*;
use crate::error::Error;
use crate::resource::{lemma_owned_single, owned, owner_of, raw_of, Refusal, Resource};

verus! {

/// A coordinate sequence of the engine, with the size and the number of
/// dimensions that it was made with.
#[derive(Debug)]
pub struct CoordSeq {
    c_obj: Resource,
    size: u32,
    dims: u32,
}

/// What a coordinate sequence is to its users.
pub struct CoordSeqView {
    /// The handle of the engine's sequence while it is owned.
    pub owner: Option<usize>,
    /// The number of points.
    pub size: u32,
    /// The number of ordinates of each point.
    pub dims: u32,
}

impl View for CoordSeq {
    type V = CoordSeqView;

    closed spec fn view(&self) -> CoordSeqView {
        CoordSeqView { owner: self.c_obj@, size: self.size, dims: self.dims }
    }
}

impl CoordSeq {
    /// Whether the point `idx` may be read or written: the sequence is alive
    /// and has such a point.
    pub open spec fn spec_admits(&self, idx: u32) -> bool {
        self@.owner is Some && idx < self@.size
    }

    /// Takes charge of a sequence that the engine returned, of `size` points
    /// with `dims` ordinates each. The null handle gives an inert value.
    pub fn new_from_c_obj(c_obj: usize, size: u32, dims: u32) -> (seq: CoordSeq)
        ensures
            seq@ == (CoordSeqView { owner: owner_of(c_obj), size, dims }),
    {
        CoordSeq { c_obj: Resource::adopt(c_obj), size, dims }
    }

    /// The number of points.
    pub fn size(&self) -> (n: u32)
        ensures
            n == self@.size,
    {
        self.size
    }

    /// The number of ordinates of each point.
    pub fn dims(&self) -> (n: u32)
        ensures
            n == self@.dims,
    {
        self.dims
    }

    /// Whether the value owns no sequence.
    pub fn is_inert(&self) -> (b: bool)
        ensures
            b == (self@.owner is None),
    {
        self.c_obj.is_inert()
    }

    /// The handle for an engine call that only reads the sequence, or
    /// `NoConstructionFromNullPtr` for an inert value.
    pub fn handle(&self) -> (r: Result<usize, Error>)
        ensures
            match r {
                Ok(h) => self@.owner == Some(h),
                Err(e) => self@.owner is None && e is NoConstructionFromNullPtr,
            },
    {
        self.c_obj.handle()
    }

    /// Whether the point `idx` may be read or written. The engine does not
    /// check an index itself: an ordinate is asked of it, or set, only where
    /// this holds.
    #[verifier::when_used_as_spec(spec_admits)]
    pub fn admits(&self, idx: u32) -> (b: bool)
        ensures
            b == self.spec_admits(idx),
    {
        !self.c_obj.is_inert() && idx < self.size
    }

    /// The value for a copy that the engine made of this sequence under the
    /// handle `copy`: a sequence of its own, of the same shape.
    ///
    /// The null handle says that the engine made no copy, and a handle that
    /// this value owns is no copy: both give `InvalidGeometry`. Of an inert
    /// value there is nothing to copy; a handle that came all the same is to
    /// be released.
    pub fn duplicate(&self, copy: usize) -> (r: Result<CoordSeq, Refusal>)
        ensures
            r is Ok <==> self@.owner is Some && copy != 0 && self@.owner != Some(copy),
            r matches Ok(seq) ==> seq@ == (CoordSeqView {
                owner: Some(copy),
                size: self@.size,
                dims: self@.dims,
            }),
            r matches Err(refusal) ==> if self@.owner is None {
                refusal.error is NoConstructionFromNullPtr && refusal.release@ == owned(
                    seq![copy],
                )
            } else {
                refusal.error is InvalidGeometry && refusal.release@ == Seq::<usize>::empty()
            },
    {
        proof {
            lemma_owned_single(copy);
        }
        let mut release: Vec<usize> = Vec::new();
        if self.c_obj.is_inert() {
            if copy != 0 {
                release.push(copy);
                assert(release@ =~= seq![copy]);
            }
            Err(Refusal { error: Error::NoConstructionFromNullPtr, release })
        } else if copy == 0 || copy == self.c_obj.as_ptr() {
            Err(Refusal { error: Error::InvalidGeometry, release })
        } else {
            Ok(CoordSeq { c_obj: Resource::adopt(copy), size: self.size, dims: self.dims })
        }
    }

    /// Moves the sequence out into a new value and leaves this one inert.
    pub fn take(&mut self) -> (moved: CoordSeq)
        ensures
            moved@ == old(self)@,
            final(self)@ == (CoordSeqView { owner: None, ..old(self)@ }),
    {
        CoordSeq { c_obj: self.c_obj.take(), size: self.size, dims: self.dims }
    }

    /// Gives up the record of the sequence to a hand-over.
    pub(crate) fn into_resource(self) -> (record: Resource)
        ensures
            record@ == self@.owner,
    {
        self.c_obj
    }

    /// Hands the bare handle to a consumer, who answers for it from now on.
    /// The value is used up, so the handle cannot be released a second time
    /// through it.
    pub fn release(self) -> (raw: usize)
        ensures
            raw == raw_of(self@.owner),
    {
        self.c_obj.release()
    }

    /// Ends the value's life: returns the handle that has to be handed back
    /// to the engine now, if one is owned, and leaves the value inert.
    pub fn dispose(&mut self) -> (due: Option<usize>)
        ensures
            due == old(self)@.owner,
            final(self)@ == (CoordSeqView { owner: None, ..old(self)@ }),
    {
        self.c_obj.dispose()
    }
}

} // verus!
