//! The scratch space: the mutable per-call workspace every scan needs.
//!
//! A workspace is sized for the largest database it will run against; a
//! scan against a database that requires more space is rejected before any
//! match work.  Exclusive use per in-flight scan is enforced structurally:
//! every scan call borrows the workspace mutably, so a second concurrent
//! user cannot exist.  Release is the drop of the single owning handle,
//! which happens exactly once on every exit path.

use vstd::prelude::*;

use crate::database::{required_scratch, Database};
use crate::errors::Error;

verus! {

/// A mutable workspace, sized to the largest database it is used with.
pub struct Scratch {
    pub(crate) size: usize,
}

impl Scratch {
    /// The capacity of the workspace: how far back it can look over input.
    pub closed spec fn spec_size(&self) -> nat {
        self.size as nat
    }

    /// Allocates a fresh workspace sized exactly for `db`.
    ///
    /// The result is either a fully valid workspace or an error, never a
    /// partial handle.  In this runtime allocation itself cannot fail (a
    /// heap exhaustion aborts instead), so the call always returns `Ok`;
    /// the `Result` carries the foreign interface's `NoMem`/`BadAlloc`
    /// failure channel.
    pub fn allocate(db: &Database) -> (r: Result<Scratch, Error>)
        ensures
            r matches Ok(s) && s.spec_size() == required_scratch(db.spec_patterns()),
    {
        Ok(Scratch { size: db.scratch_size() })
    }

    /// The current capacity.
    pub fn size(&self) -> (r: usize)
        ensures
            r == self.spec_size(),
    {
        self.size
    }

    /// Grows the workspace in place if `db` needs more space than it holds;
    /// otherwise a no-op on the same handle.  Never shrinks, so the
    /// workspace stays valid for every database it already served.
    pub fn grow_for(&mut self, db: &Database) -> (r: Result<(), Error>)
        ensures
            r is Ok,
            old(self).spec_size() >= required_scratch(db.spec_patterns()) ==> *final(self)
                == *old(self),
            final(self).spec_size() == if required_scratch(db.spec_patterns()) > old(
                self,
            ).spec_size() {
                required_scratch(db.spec_patterns())
            } else {
                old(self).spec_size()
            },
    {
        let need = db.scratch_size();
        if need > self.size {
            self.size = need;
        }
        Ok(())
    }
}

impl Clone for Scratch {
    /// An independent workspace of the same capacity, usable concurrently
    /// with the original.
    fn clone(&self) -> (r: Scratch)
        ensures
            r.spec_size() == self.spec_size(),
    {
        Scratch { size: self.size }
    }
}

} // verus!
