//! Who owns an engine handle.
//!
//! The engine hands out bare handles and keeps no record of who holds them.
//! A `Resource` is the binding's record for one handle: it either owns the
//! handle, and then the handle has to go back to the engine exactly once, or
//! it is inert and nothing is owed for it.

use vstd::prelude::*;
use vstd::seq_lib::to_multiset_build;
use crate::error::Error;

verus! {

/// The record for one engine handle: owning or inert.
///
/// The null handle is never owned, so an inert record and a record of the null
/// handle are the same thing.
#[derive(Debug)]
pub struct Resource {
    raw: usize,
}

impl View for Resource {
    type V = Option<usize>;

    /// `Some(h)` while the record owns the handle `h`, `None` once it is inert.
    closed spec fn view(&self) -> Option<usize> {
        owner_of(self.raw)
    }
}

/// What a record made from the bare handle `raw` owns: nothing for the null
/// handle, else `raw`.
pub open spec fn owner_of(raw: usize) -> Option<usize> {
    if raw == 0 {
        None
    } else {
        Some(raw)
    }
}

/// The bare handle that stands for an ownership state: null for none.
pub open spec fn raw_of(owned: Option<usize>) -> usize {
    match owned {
        Some(h) => h,
        None => 0,
    }
}

impl Resource {
    /// Takes charge of a handle that the engine returned.
    pub fn adopt(raw: usize) -> (r: Resource)
        ensures
            r@ == owner_of(raw),
    {
        Resource { raw }
    }

    /// A record that owns nothing.
    pub fn inert() -> (r: Resource)
        ensures
            r@ is None,
    {
        Resource { raw: 0 }
    }

    /// Whether nothing is owned.
    pub fn is_inert(&self) -> (b: bool)
        ensures
            b == (self@ is None),
    {
        self.raw == 0
    }

    /// The bare handle to pass to an engine call that only reads it; null when
    /// inert. Ownership stays here.
    pub fn as_ptr(&self) -> (raw: usize)
        ensures
            raw == raw_of(self@),
    {
        self.raw
    }

    /// The handle for an engine call that only reads it. An inert record has
    /// none to give: that is `NoConstructionFromNullPtr`, and the engine is
    /// not to be called.
    pub fn handle(&self) -> (r: Result<usize, Error>)
        ensures
            match r {
                Ok(h) => self@ == Some(h),
                Err(e) => self@ is None && e is NoConstructionFromNullPtr,
            },
    {
        if self.raw == 0 {
            Err(Error::NoConstructionFromNullPtr)
        } else {
            Ok(self.raw)
        }
    }

    /// Moves the ownership out into a new record and leaves this one inert.
    pub fn take(&mut self) -> (moved: Resource)
        ensures
            moved@ == old(self)@,
            final(self)@ is None,
    {
        let raw = self.raw;
        self.raw = 0;
        Resource { raw }
    }

    /// Gives the handle up to a consumer: the caller now answers for it.
    pub fn release(self) -> (raw: usize)
        ensures
            raw == raw_of(self@),
    {
        self.raw
    }

    /// Ends the record's life: returns the handle that has to be handed back
    /// to the engine now, if one is owned, and leaves the record inert.
    pub fn dispose(&mut self) -> (due: Option<usize>)
        ensures
            due == old(self)@,
            final(self)@ is None,
    {
        let raw = self.raw;
        self.raw = 0;
        if raw == 0 {
            None
        } else {
            Some(raw)
        }
    }
}

/// A record never owns the null handle.
pub proof fn lemma_owned_is_not_null(r: Resource)
    ensures
        r@ matches Some(h) ==> h != 0,
        raw_of(r@) == 0 <==> r@ is None,
        owner_of(raw_of(r@)) == r@,
{
}

/// The handles in a row that are owned: the row without its nulls, in order.
pub open spec fn owned(raws: Seq<usize>) -> Seq<usize> {
    raws.filter(|h: usize| h != 0)
}

/// Whether no handle in the row is null.
pub open spec fn all_owned(raws: Seq<usize>) -> bool {
    forall|i: int| 0 <= i < raws.len() ==> raws[i] != 0
}

/// A row without nulls is its own owned part.
pub proof fn lemma_owned_of_all_owned(raws: Seq<usize>)
    requires
        all_owned(raws),
    ensures
        owned(raws) == raws,
    decreases raws.len(),
{
    reveal(Seq::filter);
    if raws.len() > 0 {
        lemma_owned_of_all_owned(raws.drop_last());
        assert(raws.drop_last().push(raws.last()) =~= raws);
    } else {
        assert(owned(raws) =~= raws);
    }
}

/// The owned part of a row grows with the row: by the new handle if it is
/// owned, else not at all.
pub proof fn lemma_owned_push(raws: Seq<usize>, h: usize)
    ensures
        owned(raws.push(h)) == if h != 0 {
            owned(raws).push(h)
        } else {
            owned(raws)
        },
{
    reveal(Seq::filter);
    assert(raws.push(h).drop_last() =~= raws);
}

/// The owned part of nothing is nothing, and that of a single handle is the
/// handle itself, or nothing for the null handle.
pub proof fn lemma_owned_single(h: usize)
    ensures
        owned(Seq::<usize>::empty()) == Seq::<usize>::empty(),
        owned(seq![h]) == if h != 0 {
            seq![h]
        } else {
            Seq::<usize>::empty()
        },
{
    reveal(Seq::filter);
    assert(owned(Seq::<usize>::empty()) =~= Seq::<usize>::empty());
    lemma_owned_push(Seq::empty(), h);
    assert(Seq::<usize>::empty().push(h) =~= seq![h]);
}

/// The count of resources is kept: a handle is listed in the owned part of a
/// row exactly as often as the row holds it, and the null handle never. So a
/// release of the owned part frees every resource of the row, none twice and
/// none that the row did not hold.
pub proof fn lemma_owned_counts(raws: Seq<usize>, h: usize)
    ensures
        owned(raws).to_multiset().count(h) == if h != 0 {
            raws.to_multiset().count(h)
        } else {
            0
        },
    decreases raws.len(),
{
    if raws.len() == 0 {
        lemma_owned_single(h);
        assert(raws =~= Seq::<usize>::empty());
        assert(Seq::<usize>::empty().to_multiset().count(h) == 0) by {
            vstd::seq_lib::to_multiset_len(Seq::<usize>::empty());
        }
    } else {
        let init = raws.drop_last();
        let last = raws.last();
        lemma_owned_counts(init, h);
        lemma_owned_push(init, last);
        assert(init.push(last) =~= raws);
        to_multiset_build(init, last);
        if last != 0 {
            to_multiset_build(owned(init), last);
        }
    }
}

/// Why something was not done, and what is owed to the engine for it.
#[derive(Debug)]
pub struct Refusal {
    /// The failure to report.
    pub error: Error,
    /// The handles that nobody owns any more and that the engine did not take:
    /// each has to be given back to the engine, once.
    pub release: Vec<usize>,
}

} // verus!
