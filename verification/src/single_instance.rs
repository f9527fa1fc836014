use vstd::prelude::*;

verus! {

/// What to do once the named instance mutex has been asked for.
#[derive(Debug, Clone, Copy, PartialEq, Eq, Structural)]
pub struct InstancePlan {
    /// This process is the first instance and keeps running.
    pub first_instance: bool,
    /// The mutex handle that was obtained is to be closed again.
    pub close_mutex: bool,
    /// The running instance is to be asked to show its window.
    pub notify_running_instance: bool,
    /// The named show-request event is to be created.
    pub create_show_event: bool,
}

/// Decides the start-up of a possibly second instance. When the mutex could
/// not be created, another instance is taken to run. When it already existed,
/// another instance runs: the handle is closed and, if a window is wanted,
/// that instance is asked to show itself. Otherwise this is the first
/// instance, which creates the event on which show requests arrive.
pub fn plan_single_instance(mutex_created: bool, already_exists: bool, should_show_window: bool) -> (r:
    InstancePlan)
    ensures
        r.first_instance == (mutex_created && !already_exists),
        r.close_mutex == (mutex_created && already_exists),
        r.notify_running_instance == (mutex_created && already_exists && should_show_window),
        r.create_show_event == r.first_instance,
{
    if !mutex_created {
        InstancePlan {
            first_instance: false,
            close_mutex: false,
            notify_running_instance: false,
            create_show_event: false,
        }
    } else if already_exists {
        InstancePlan {
            first_instance: false,
            close_mutex: true,
            notify_running_instance: should_show_window,
            create_show_event: false,
        }
    } else {
        InstancePlan {
            first_instance: true,
            close_mutex: false,
            notify_running_instance: false,
            create_show_event: true,
        }
    }
}

/// The result code of a wait that means the show-request event was signalled.
pub open spec fn wait_object_0() -> u32 {
    0
}

/// Whether the show-request listener shows the window and waits again after
/// a wait ended with `wait_result`; any code other than the signalled one
/// (a failure or an abandoned wait) ends the listener.
pub fn show_request_received(wait_result: u32) -> (r: bool)
    ensures
        r == (wait_result == wait_object_0()),
{
    wait_result == 0
}

} // verus!
