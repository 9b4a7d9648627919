use vstd::prelude::*;

verus! {

/// The shared signal by which a command handler's end is seen by the
/// dispatch loop. It starts lowered and, once raised, stays raised. Only the
/// dispatch loop reads it: a handler's end stops neither the other handler
/// nor the process.
#[derive(Clone, Copy, Debug, PartialEq, Eq, Structural)]
pub struct FaultFlag {
    pub raised: bool,
}

impl FaultFlag {
    pub fn new() -> (r: FaultFlag)
        ensures
            !r.raised,
    {
        FaultFlag { raised: false }
    }

    pub fn raise(&mut self)
        ensures
            final(self).raised,
    {
        self.raised = true;
    }

    pub fn is_raised(&self) -> (r: bool)
        ensures
            r == self.raised,
    {
        self.raised
    }
}

/// The two states of the dispatch loop; `Halted` is terminal.
#[derive(Clone, Copy, Debug, PartialEq, Eq, Structural)]
pub enum DispatchState {
    Running,
    Halted,
}

/// What the dispatch loop does on a tick.
#[derive(Clone, Copy, Debug, PartialEq, Eq, Structural)]
pub enum TickAction {
    /// Query the due rows, publish each, mark the published ones consumed,
    /// then sleep for the interval.
    Dispatch,
    /// Stop ticking for good.
    Halt,
}

/// The dispatch loop's decisions.
#[derive(Clone, Copy, Debug, PartialEq, Eq, Structural)]
pub struct Dispatcher {
    pub state: DispatchState,
}

impl Dispatcher {
    pub fn new() -> (r: Dispatcher)
        ensures
            r.state == DispatchState::Running,
    {
        Dispatcher { state: DispatchState::Running }
    }

    /// Decides a tick from the fault flag: a running loop dispatches while
    /// the flag is lowered and halts once it is raised; a halted loop stays
    /// halted. Errors within a dispatch never halt the loop: a failed
    /// publish or update is retried on a later tick.
    pub fn on_tick(&mut self, fault: &FaultFlag) -> (r: TickAction)
        ensures
            old(self).state == DispatchState::Halted ==> r == TickAction::Halt,
            fault.raised ==> r == TickAction::Halt,
            old(self).state == DispatchState::Running && !fault.raised ==> r == TickAction::Dispatch,
            final(self).state == (if r == TickAction::Halt {
                DispatchState::Halted
            } else {
                DispatchState::Running
            }),
    {
        match self.state {
            DispatchState::Halted => TickAction::Halt,
            DispatchState::Running => {
                if fault.is_raised() {
                    self.state = DispatchState::Halted;
                    TickAction::Halt
                } else {
                    TickAction::Dispatch
                }
            },
        }
    }
}

} // verus!
