use vstd::prelude::*;

verus! {

/// A notification from the engine to the debug observer.
pub enum MessageType {
    /// One instruction was executed: its opcode byte and the cycles it
    /// consumed.
    LineExecuted(u8, u32),
    /// Reserved for a breakpoint facility: the engine waits for input.
    Waiting,
    /// Reserved for a breakpoint facility: a counter overflowed.
    Overflow,
    /// Reserved for a breakpoint facility: a recorded breakpoint was reached.
    BreakpointHit,
}

/// The observer slot: a callback invoked once per executed instruction,
/// plus recorded breakpoint addresses.
pub struct Debugger<E> {
    /// The observer callback.
    pub messenger: E,
    /// The address the observer last reported from.
    pub pc: u16,
    /// Whether a breakpoint facility has paused the run.
    pub wait_next_instruction: bool,
    /// Whether a breakpoint facility has stopped the run.
    pub halt: bool,
    /// Recorded breakpoint addresses; recording is offered, but no engine
    /// logic consults them yet.
    pub breakpoints: Vec<u16>,
}

impl<E> Debugger<E> {
    /// Wrap a callback in a fresh observer slot with no breakpoints.
    pub fn new(messenger: E) -> (r: Debugger<E>)
        ensures
            r.messenger == messenger,
            r.breakpoints@ == Seq::<u16>::empty(),
            r.pc == 0,
            r.wait_next_instruction == false,
            r.halt == false,
    {
        Debugger {
            messenger,
            pc: 0,
            wait_next_instruction: false,
            halt: false,
            breakpoints: Vec::new(),
        }
    }
}

} // verus!
