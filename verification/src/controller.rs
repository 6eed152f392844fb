//! A source of emulator work that a front end drives, one cycle at a time.

use vstd::prelude::*;

verus! {

/// Something the front end runs cycle after cycle. Until an implementor says
/// otherwise, a cycle fails with the message that the controller is not set up.
pub trait Controller {
    type Output;

    /// The controller can run a cycle now (always, unless an implementor
    /// says otherwise).
    open spec fn ready(&self) -> bool {
        true
    }

    /// Run one cycle.
    fn cycle(&mut self) -> (r: Result<Self::Output, String>)
        requires
            old(self).ready(),
        default_ensures
            r matches Err(e) && e@ == "Controller not initialized."@,
    {
        Err(String::from_str("Controller not initialized."))
    }
}

/// A closure is a controller: a cycle calls it.
impl<F, O> Controller for F where F: FnMut() -> Result<O, String> {
    type Output = O;

    open spec fn ready(&self) -> bool {
        call_requires(*self, ())
    }

    fn cycle(&mut self) -> (r: Result<O, String>)
        ensures
            call_ensures(*old(self), (), r),
    {
        self()
    }
}

} // verus!
