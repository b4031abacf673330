use vstd::prelude::*;

verus! {

/// What woke the flush scheduler.
#[derive(PartialEq, Eq, Structural, Clone, Copy, Debug)]
pub enum SchedulerEvent {
    /// The fixed-interval timer fired.
    Tick,
    /// A graceful shutdown was requested.
    Shutdown,
}

/// What the scheduler asks its driver to do next.
#[derive(PartialEq, Eq, Structural, Clone, Copy, Debug)]
pub enum SchedulerAction {
    /// Nothing to do: the buffer is empty or the scheduler has stopped.
    Idle,
    /// Run one drain-and-commit cycle, then keep running.
    Flush,
    /// Run one last drain-and-commit cycle, then stop the loop.
    FinalFlush,
}

/// The decision logic of the background flush task.
///
/// The driver owns the timer and the shutdown signal; it reports each wakeup
/// here together with the current buffer depth and performs the returned
/// action.  The scheduler itself never blocks and never touches the store, so
/// its whole behaviour is the `step` contract: ticks flush exactly when work
/// is pending, and a shutdown request triggers one final flush before the
/// loop exits cleanly.
pub struct Scheduler {
    running: bool,
}

impl Scheduler {
    /// Whether the loop should keep running.
    pub closed spec fn spec_running(self) -> bool {
        self.running
    }

    /// A scheduler ready to serve its first wakeup.
    pub fn new() -> (r: Scheduler)
        ensures
            r.spec_running(),
    {
        Scheduler { running: true }
    }

    /// Whether the loop should keep running.
    pub fn is_running(&self) -> (r: bool)
        ensures
            r == self.spec_running(),
    {
        self.running
    }

    /// One wakeup of the background task: maps the event and the current
    /// buffer depth to the action the driver must perform.
    pub fn step(&mut self, event: SchedulerEvent, pending: usize) -> (action: SchedulerAction)
        ensures
            !old(self).spec_running() ==> {
                &&& action == SchedulerAction::Idle
                &&& !final(self).spec_running()
            },
            old(self).spec_running() && event == SchedulerEvent::Tick ==> {
                &&& final(self).spec_running()
                &&& (action == SchedulerAction::Flush <==> pending > 0)
                &&& (action == SchedulerAction::Idle <==> pending == 0)
            },
            old(self).spec_running() && event == SchedulerEvent::Shutdown ==> {
                &&& action == SchedulerAction::FinalFlush
                &&& !final(self).spec_running()
            },
    {
        if !self.running {
            SchedulerAction::Idle
        } else {
            match event {
                SchedulerEvent::Tick => {
                    if pending > 0 {
                        SchedulerAction::Flush
                    } else {
                        SchedulerAction::Idle
                    }
                },
                SchedulerEvent::Shutdown => {
                    self.running = false;
                    SchedulerAction::FinalFlush
                },
            }
        }
    }
}

/// The synchronous threshold trigger, evaluated inside `push`: a flush is due
/// as soon as the buffer depth reaches the configured capacity.
pub fn threshold_reached(pending: usize, capacity: usize) -> (r: bool)
    ensures
        r <==> pending >= capacity,
{
    pending >= capacity
}

} // verus!
