//! Prepared geometries: the engine's accelerators for repeated predicates.

use vstd::prelude::*;
use crate::error::Error;
use crate::resource::Resource;

verus! {

/// An accelerator that the engine built from a geometry.
///
/// It is a resource of its own: it keeps nothing of the geometry that it was
/// built from, and it is released on its own. There is no way to copy it, so
/// no two values ever answer for one accelerator.
#[derive(Debug)]
pub struct PreparedGGeom {
    c_obj: Resource,
}

impl View for PreparedGGeom {
    type V = Option<usize>;

    /// The handle of the accelerator that is owned, if any.
    closed spec fn view(&self) -> Option<usize> {
        self.c_obj@
    }
}

impl PreparedGGeom {
    /// Takes charge of the accelerator that the engine returned under the
    /// handle `prepared`. The null handle is the engine's way to say that it
    /// failed: it gives `InvalidGeometry`.
    pub fn new(prepared: usize) -> (r: Result<PreparedGGeom, Error>)
        ensures
            match r {
                Ok(p) => prepared != 0 && p@ == Some(prepared),
                Err(e) => prepared == 0 && e is InvalidGeometry,
            },
    {
        if prepared == 0 {
            Err(Error::InvalidGeometry)
        } else {
            Ok(PreparedGGeom { c_obj: Resource::adopt(prepared) })
        }
    }

    /// The handle for a predicate call, or `NoConstructionFromNullPtr` for an
    /// inert value.
    pub fn handle(&self) -> (r: Result<usize, Error>)
        ensures
            match r {
                Ok(h) => self@ == Some(h),
                Err(e) => self@ is None && e is NoConstructionFromNullPtr,
            },
    {
        self.c_obj.handle()
    }

    /// Ends the value's life: returns the handle that has to be handed back
    /// to the engine now, if one is owned, and leaves the value inert.
    pub fn dispose(&mut self) -> (due: Option<usize>)
        ensures
            due == old(self)@,
            final(self)@ is None,
    {
        self.c_obj.dispose()
    }
}

} // verus!
