//! The two front ends that a build may leave out: the desktop window and the
//! system service.

use vstd::prelude::*;

verus! {

/// A front end to start.
#[derive(Clone, Copy, Debug, PartialEq, Eq, Structural)]
pub enum Frontend {
    Gui,
    Service,
}

/// Starts the desktop window. Only a build that holds it can be asked to.
pub fn run(gui_built: bool) -> (start: Frontend)
    requires
        gui_built,
    ensures
        start == Frontend::Gui,
{
    Frontend::Gui
}

/// Starts the system service. Only a platform that has services can be
/// asked to.
pub fn run_service(service_supported: bool) -> (start: Frontend)
    requires
        service_supported,
    ensures
        start == Frontend::Service,
{
    Frontend::Service
}

} // verus!
