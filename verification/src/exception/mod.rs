//! Trap causes, the trapped context, and the dispatcher.

use vstd::prelude::*;

use self::fault::handle_fault;
use self::interrupt::{
    complete_interrupt, handle_interrupt, spec_complete_interrupt, spec_handle_interrupt, DELTA,
};
use self::trap::{
    complete_trap, handle_trap, spec_complete_trap, spec_handle_trap, BREAKPOINT_LENGTH,
    ECALL_LENGTH,
};
use crate::sbi_call::{set_timer, shutdown, CompatibleSbi, DecodeError, Extension, SbiRet};
use crate::Sstatus;

pub mod abi_call;
pub mod fault;
pub mod interrupt;
pub mod trap;

verus! {

/// The raw value of the supervisor cause register.
///
/// The top bit of the word tells interrupts from synchronous exceptions; the
/// remaining bits are the exception code.
#[derive(Debug, Clone, Copy, PartialEq, Eq, Structural)]
pub struct Cause(pub usize);

impl Cause {
    /// Whether the top bit of the word is set.
    pub open spec fn spec_is_interrupt(&self) -> bool {
        self.0 > isize::MAX
    }

    /// The word without its top bit.
    pub open spec fn spec_exception_code(&self) -> usize {
        if self.0 > isize::MAX {
            (self.0 - isize::MAX - 1) as usize
        } else {
            self.0
        }
    }

    #[verifier::when_used_as_spec(spec_is_interrupt)]
    pub fn is_interrupt(&self) -> (interrupt: bool)
        ensures
            interrupt == self.spec_is_interrupt(),
    {
        self.0 > isize::MAX as usize
    }

    #[verifier::when_used_as_spec(spec_exception_code)]
    pub fn exception_code(&self) -> (code: usize)
        ensures
            code == self.spec_exception_code(),
    {
        let raw: usize = self.0;
        let mask: usize = isize::MAX as usize;
        proof {
            let r = raw as u64;
            let m = mask as u64;
            assert((raw & mask) as u64 == r & m) by (bit_vector)
                requires
                    r == raw as u64,
                    m == mask as u64,
            ;
            if usize::BITS == 32 {
                assert(r & m == if r > m { (r - m - 1) as u64 } else { r }) by (bit_vector)
                    requires
                        m == 0x7fff_ffff,
                        r <= 0xffff_ffff,
                ;
            } else {
                assert(r & m == if r > m { (r - m - 1) as u64 } else { r }) by (bit_vector)
                    requires
                        m == 0x7fff_ffff_ffff_ffff,
                ;
            }
        }
        raw & mask
    }
}

/// What a cause register stands for.
#[derive(Debug, Clone, Copy, PartialEq, Eq, Structural)]
pub enum Exception {
    Interrupt(Interrupt),
    Sync(SyncException),
}

/// An asynchronous cause, by exception code.
#[derive(Debug, Clone, Copy, PartialEq, Eq, Structural)]
pub enum Interrupt {
    SupervisorSoftware,
    SupervisorTimer,
    SupervisorExternal,
    Reserved { exception_code: usize },
    DesignedForPlatformUse { exception_code: usize },
}

impl Interrupt {
    /// The code that the cause register holds for this interrupt.
    pub open spec fn spec_exception_code(&self) -> usize {
        match self {
            Interrupt::SupervisorSoftware => 1,
            Interrupt::SupervisorTimer => 5,
            Interrupt::SupervisorExternal => 9,
            Interrupt::Reserved { exception_code } => *exception_code,
            Interrupt::DesignedForPlatformUse { exception_code } => *exception_code,
        }
    }

    #[verifier::when_used_as_spec(spec_exception_code)]
    pub fn exception_code(&self) -> (code: usize)
        ensures
            code == self.spec_exception_code(),
    {
        match self {
            Interrupt::SupervisorSoftware => 1,
            Interrupt::SupervisorTimer => 5,
            Interrupt::SupervisorExternal => 9,
            Interrupt::Reserved { exception_code } => *exception_code,
            Interrupt::DesignedForPlatformUse { exception_code } => *exception_code,
        }
    }
}

impl From<usize> for Interrupt {
    fn from(exception_code: usize) -> (interrupt: Self) {
        match exception_code {
            1 => Interrupt::SupervisorSoftware,
            5 => Interrupt::SupervisorTimer,
            9 => Interrupt::SupervisorExternal,
            0 | 2..=4 | 6..=8 | 10..=15 => Interrupt::Reserved { exception_code },
            _ => Interrupt::DesignedForPlatformUse { exception_code },
        }
    }
}

impl vstd::std_specs::convert::FromSpecImpl<usize> for Interrupt {
    open spec fn obeys_from_spec() -> bool {
        true
    }

    open spec fn from_spec(exception_code: usize) -> Self {
        Interrupt::classify(exception_code)
    }
}

impl Interrupt {
    /// The interrupt that an exception code stands for: codes 1, 5 and 9 are
    /// the three supervisor interrupts; the other codes up to 15 are reserved;
    /// every code from 16 on is for the platform.
    pub open spec fn classify(exception_code: usize) -> Interrupt {
        if exception_code == 1 {
            Interrupt::SupervisorSoftware
        } else if exception_code == 5 {
            Interrupt::SupervisorTimer
        } else if exception_code == 9 {
            Interrupt::SupervisorExternal
        } else if exception_code <= 15 {
            Interrupt::Reserved { exception_code }
        } else {
            Interrupt::DesignedForPlatformUse { exception_code }
        }
    }
}

/// A synchronous cause, by exception code.
#[derive(Debug, Clone, Copy, PartialEq, Eq, Structural)]
pub enum SyncException {
    Trap(Trap),
    Fault(Fault),
    Reserved { exception_code: usize },
    DesignedForPlatformUse { exception_code: usize },
}

/// The synchronous causes that are raised on purpose, by an instruction.
#[derive(Debug, Clone, Copy, PartialEq, Eq, Structural)]
pub enum Trap {
    Breakpoint,
    EnvironmentCallFromUMode,
    EnvironmentCallFromSMode,
}

/// The synchronous causes that report a failed instruction.
#[derive(Debug, Clone, Copy, PartialEq, Eq, Structural)]
pub enum Fault {
    InstructionAddressMisaligned,
    InstructionAccessFault,
    IllegalInstruction,
    LoadAddressMisaligned,
    LoadAccessFault,
    StoreOrAmoAddressMisaligned,
    StoreOrAmoAccessFault,
    InstructionPageFault,
    LoadPageFault,
    StoreOrAmoPageFault,
}

impl Fault {
    /// The code that the cause register holds for this fault.
    pub open spec fn spec_exception_code(&self) -> usize {
        match self {
            Fault::InstructionAddressMisaligned => 0,
            Fault::InstructionAccessFault => 1,
            Fault::IllegalInstruction => 2,
            Fault::LoadAddressMisaligned => 4,
            Fault::LoadAccessFault => 5,
            Fault::StoreOrAmoAddressMisaligned => 6,
            Fault::StoreOrAmoAccessFault => 7,
            Fault::InstructionPageFault => 12,
            Fault::LoadPageFault => 13,
            Fault::StoreOrAmoPageFault => 15,
        }
    }
}

impl Trap {
    /// The code that the cause register holds for this trap.
    pub open spec fn spec_exception_code(&self) -> usize {
        match self {
            Trap::Breakpoint => 3,
            Trap::EnvironmentCallFromUMode => 8,
            Trap::EnvironmentCallFromSMode => 9,
        }
    }
}

impl From<usize> for SyncException {
    fn from(exception_code: usize) -> (exception: Self) {
        match exception_code {
            0 => SyncException::Fault(Fault::InstructionAddressMisaligned),
            1 => SyncException::Fault(Fault::InstructionAccessFault),
            2 => SyncException::Fault(Fault::IllegalInstruction),
            3 => SyncException::Trap(Trap::Breakpoint),
            4 => SyncException::Fault(Fault::LoadAddressMisaligned),
            5 => SyncException::Fault(Fault::LoadAccessFault),
            6 => SyncException::Fault(Fault::StoreOrAmoAddressMisaligned),
            7 => SyncException::Fault(Fault::StoreOrAmoAccessFault),
            8 => SyncException::Trap(Trap::EnvironmentCallFromUMode),
            9 => SyncException::Trap(Trap::EnvironmentCallFromSMode),
            12 => SyncException::Fault(Fault::InstructionPageFault),
            13 => SyncException::Fault(Fault::LoadPageFault),
            15 => SyncException::Fault(Fault::StoreOrAmoPageFault),
            24..=31 | 48..=63 => SyncException::DesignedForPlatformUse { exception_code },
            _ => SyncException::Reserved { exception_code },
        }
    }
}

impl vstd::std_specs::convert::FromSpecImpl<usize> for SyncException {
    open spec fn obeys_from_spec() -> bool {
        true
    }

    open spec fn from_spec(exception_code: usize) -> Self {
        SyncException::classify(exception_code)
    }
}

impl SyncException {
    /// The synchronous exception that an exception code stands for: codes 3, 8
    /// and 9 are the traps; codes 0 to 2, 4 to 7, 12, 13 and 15 are the
    /// faults; codes 24 to 31 and 48 to 63 are for the platform; every other
    /// code is reserved.
    pub open spec fn classify(exception_code: usize) -> SyncException {
        if exception_code == 0 {
            SyncException::Fault(Fault::InstructionAddressMisaligned)
        } else if exception_code == 1 {
            SyncException::Fault(Fault::InstructionAccessFault)
        } else if exception_code == 2 {
            SyncException::Fault(Fault::IllegalInstruction)
        } else if exception_code == 3 {
            SyncException::Trap(Trap::Breakpoint)
        } else if exception_code == 4 {
            SyncException::Fault(Fault::LoadAddressMisaligned)
        } else if exception_code == 5 {
            SyncException::Fault(Fault::LoadAccessFault)
        } else if exception_code == 6 {
            SyncException::Fault(Fault::StoreOrAmoAddressMisaligned)
        } else if exception_code == 7 {
            SyncException::Fault(Fault::StoreOrAmoAccessFault)
        } else if exception_code == 8 {
            SyncException::Trap(Trap::EnvironmentCallFromUMode)
        } else if exception_code == 9 {
            SyncException::Trap(Trap::EnvironmentCallFromSMode)
        } else if exception_code == 12 {
            SyncException::Fault(Fault::InstructionPageFault)
        } else if exception_code == 13 {
            SyncException::Fault(Fault::LoadPageFault)
        } else if exception_code == 15 {
            SyncException::Fault(Fault::StoreOrAmoPageFault)
        } else if 24 <= exception_code <= 31 || 48 <= exception_code <= 63 {
            SyncException::DesignedForPlatformUse { exception_code }
        } else {
            SyncException::Reserved { exception_code }
        }
    }
}

impl From<Cause> for Exception {
    fn from(cause: Cause) -> (exception: Self) {
        if cause.is_interrupt() {
            Exception::Interrupt(Interrupt::from(cause.exception_code()))
        } else {
            Exception::Sync(SyncException::from(cause.exception_code()))
        }
    }
}

impl vstd::std_specs::convert::FromSpecImpl<Cause> for Exception {
    open spec fn obeys_from_spec() -> bool {
        true
    }

    open spec fn from_spec(cause: Cause) -> Self {
        Exception::classify(cause)
    }
}

impl Exception {
    /// What a cause register stands for: an interrupt where the top bit is
    /// set, a synchronous exception where it is clear, of the kind that the
    /// remaining bits give.
    pub open spec fn classify(cause: Cause) -> Exception {
        if cause.spec_is_interrupt() {
            Exception::Interrupt(Interrupt::classify(cause.spec_exception_code()))
        } else {
            Exception::Sync(SyncException::classify(cause.spec_exception_code()))
        }
    }
}

/// The enable register with the bit of an interrupt set.
pub open spec fn spec_enable_supervisor_interrupt(sie: usize, interrupt: Interrupt) -> usize {
    sie | (1usize << interrupt.spec_exception_code())
}

/// The enable register with the bit of an interrupt cleared.
pub open spec fn spec_disable_supervisor_interrupt(sie: usize, interrupt: Interrupt) -> usize {
    sie & !(1usize << interrupt.spec_exception_code())
}

/// Computes the value of the enable register that lets an interrupt through:
/// `sie` with the bit at the interrupt's exception code set.
pub fn enable_supervisor_interrupt(sie: usize, interrupt: &Interrupt) -> (enabled: usize)
    requires
        interrupt.spec_exception_code() < usize::BITS,
    ensures
        enabled == spec_enable_supervisor_interrupt(sie, *interrupt),
{
    sie | (1usize << interrupt.exception_code())
}

/// Computes the value of the enable register that holds an interrupt back:
/// `sie` with the bit at the interrupt's exception code cleared.
pub fn disable_supervisor_interrupt(sie: usize, interrupt: &Interrupt) -> (disabled: usize)
    requires
        interrupt.spec_exception_code() < usize::BITS,
    ensures
        disabled == spec_disable_supervisor_interrupt(sie, *interrupt),
{
    sie & !(1usize << interrupt.exception_code())
}

/// Enabling sets the bit of the interrupt in the enable register and disabling
/// clears it; neither changes any other bit.
pub proof fn lemma_enable_disable(sie: usize, interrupt: Interrupt)
    ensures
        ({
            let bit = 1usize << interrupt.spec_exception_code();
            let enabled = spec_enable_supervisor_interrupt(sie, interrupt);
            let disabled = spec_disable_supervisor_interrupt(sie, interrupt);
            &&& enabled & bit == bit
            &&& disabled & bit == 0
            &&& enabled & !bit == sie & !bit
            &&& disabled & !bit == sie & !bit
        }),
{
    let bit = 1usize << interrupt.spec_exception_code();
    assert((sie | bit) & bit == bit && (sie & !bit) & bit == 0 && (sie | bit) & !bit == sie & !bit
        && (sie & !bit) & !bit == sie & !bit) by (bit_vector);
}

/// The general-purpose registers as they were when the trap was taken, by
/// register number.
#[derive(Debug, Clone, Copy, PartialEq, Eq)]
pub struct RegisterContext {
    pub x: [usize; 32],
}

/// The privileged registers that a handler may change. They are read once
/// when the trap is entered and written back once when it is left.
#[derive(Debug, Clone, Copy, PartialEq, Eq, Structural)]
pub struct PrivilegedSnapshot {
    pub sstatus: Sstatus,
    pub sepc: usize,
    pub sip: usize,
    pub sie: usize,
}

/// What a handler may change while the trap is open: the register file of the
/// interrupted code, held for the length of the trap, and the snapshot of the
/// privileged registers.
#[derive(Debug)]
pub struct ExceptionMutContext<'entry> {
    pub register_context: &'entry mut RegisterContext,
    pub sstatus: Sstatus,
    pub sepc: usize,
    pub sip: usize,
    pub sie: usize,
}

/// The values that an open context holds.
pub struct TrappedState {
    pub x: Seq<usize>,
    pub sstatus: Sstatus,
    pub sepc: usize,
    pub sip: usize,
    pub sie: usize,
}

impl TrappedState {
    /// The privileged registers of the state.
    pub open spec fn snapshot(self) -> PrivilegedSnapshot {
        PrivilegedSnapshot {
            sstatus: self.sstatus,
            sepc: self.sepc,
            sip: self.sip,
            sie: self.sie,
        }
    }
}

impl<'entry> View for ExceptionMutContext<'entry> {
    type V = TrappedState;

    open spec fn view(&self) -> TrappedState {
        TrappedState {
            x: self.register_context.x@,
            sstatus: self.sstatus,
            sepc: self.sepc,
            sip: self.sip,
            sie: self.sie,
        }
    }
}

impl<'entry> ExceptionMutContext<'entry> {
    /// Opens the context of a trap over the register file that the entry code
    /// saved and the privileged registers as they were read at entry.
    pub fn new(register_context: &'entry mut RegisterContext, snapshot: PrivilegedSnapshot) -> (context:
        Self)
        ensures
            context@.x == old(register_context).x@,
            context@.snapshot() == snapshot,
            *final(context.register_context) == *final(register_context),
    {
        Self {
            register_context,
            sstatus: snapshot.sstatus,
            sepc: snapshot.sepc,
            sip: snapshot.sip,
            sie: snapshot.sie,
        }
    }

    /// Closes the context: gives up the register file, which stays as the
    /// handlers left it, and returns the privileged registers to write back.
    pub fn close(self) -> (snapshot: PrivilegedSnapshot)
        ensures
            snapshot == self@.snapshot(),
            *final(self.register_context) == *old(self.register_context),
    {
        PrivilegedSnapshot { sstatus: self.sstatus, sepc: self.sepc, sip: self.sip, sie: self.sie }
    }
}

/// What no handler changes: the trap value and the classified cause.
#[derive(Debug, Clone, Copy, PartialEq, Eq, Structural)]
pub struct ExceptionImmutContext {
    pub stval: usize,
    pub scause: Exception,
}

impl ExceptionImmutContext {
    /// Classifies the cause register and keeps the trap value beside it.
    pub fn new(stval: usize, scause: usize) -> (context: Self)
        ensures
            context.stval == stval,
            context.scause == Exception::classify(Cause(scause)),
    {
        let scause = Exception::from(Cause(scause));
        ExceptionImmutContext { stval, scause }
    }
}

/// Why a trap cannot be resumed from. The condition is to be reported and the
/// machine shut down.
#[derive(Debug, Clone, Copy, PartialEq, Eq, Structural)]
pub enum Fatal {
    /// A synchronous cause that is reserved or left to the platform.
    UnhandledException { scause: Exception },
    /// An interrupt that is reserved or left to the platform.
    Interrupt { interrupt: Interrupt, stval: usize },
    /// A trap that this kernel does not recover from.
    Trap { trap: Trap, stval: usize },
    /// A fault. No fault is recovered from.
    Fault { fault: Fault, stval: usize },
    /// User code asked for a firmware call that does not exist.
    UnknownCall(DecodeError),
    /// The firmware answered with an error code that the protocol does not
    /// define.
    UnknownSbiError { code: isize },
    /// The firmware reported an error when the timer was set again.
    SetTimerFailed,
}

/// A firmware call that a handler waits for.
#[derive(Debug, Clone, Copy, PartialEq, Eq, Structural)]
pub enum Pending {
    /// The timer is being set again, to fire at `stime_value`.
    Timer { stime_value: u64 },
    /// A call that user code made is being passed on.
    Forward(CompatibleSbi),
}

impl Pending {
    /// The call to issue: setting the timer, or the call of user code as it
    /// was read.
    pub open spec fn spec_call(&self) -> CompatibleSbi {
        match self {
            Pending::Timer { stime_value } => CompatibleSbi::Extension(
                Extension::SetTimer { stime_value: *stime_value },
            ),
            Pending::Forward(call) => *call,
        }
    }

    /// The call to issue.
    #[verifier::when_used_as_spec(spec_call)]
    pub fn call(&self) -> (call: CompatibleSbi)
        ensures
            call == self.spec_call(),
    {
        match self {
            Pending::Timer { stime_value } => CompatibleSbi::Extension(set_timer(*stime_value)),
            Pending::Forward(call) => *call,
        }
    }
}

/// Where a trap stands after its handler has run.
#[derive(Debug, Clone, Copy, PartialEq, Eq, Structural)]
pub enum Step {
    /// The trap is served: close the context and return to the interrupted
    /// code.
    Resumed,
    /// The trap is fatal: close the context, report, and shut down.
    Halted(Fatal),
    /// The firmware has to be called before the trap can be served. Its answer
    /// goes to `complete_exception`.
    Call(Pending),
}

impl Step {
    /// The firmware call that the step asks for: none where the trap is
    /// served, the pending call where the trap waits for one, and the shutdown
    /// where the trap is fatal.
    pub open spec fn spec_firmware_call(&self) -> Option<CompatibleSbi> {
        match self {
            Step::Resumed => None,
            Step::Halted(_) => Some(CompatibleSbi::Extension(Extension::Shutdown)),
            Step::Call(pending) => Some(pending.spec_call()),
        }
    }

    /// The firmware call to issue next, if the step asks for one.
    #[verifier::when_used_as_spec(spec_firmware_call)]
    pub fn firmware_call(&self) -> (call: Option<CompatibleSbi>)
        ensures
            call == self.spec_firmware_call(),
    {
        match self {
            Step::Resumed => None,
            Step::Halted(_) => Some(CompatibleSbi::Extension(shutdown())),
            Step::Call(pending) => Some(pending.call()),
        }
    }
}

/// What dispatching a trap does to the state. An interrupt goes to the
/// interrupt handler, a trap to the trap handler, a fault to the fault
/// handler. A synchronous cause that is reserved or left to the platform is
/// fatal at once.
pub open spec fn spec_handle_exception(
    state: TrappedState,
    immut_context: ExceptionImmutContext,
    now: u64,
) -> (TrappedState, Step) {
    match immut_context.scause {
        Exception::Interrupt(interrupt) => spec_handle_interrupt(
            state,
            immut_context.stval,
            interrupt,
            now,
        ),
        Exception::Sync(SyncException::Fault(fault)) => (
            state,
            Step::Halted(Fatal::Fault { fault, stval: immut_context.stval }),
        ),
        Exception::Sync(SyncException::Trap(trap)) => spec_handle_trap(
            state,
            immut_context.stval,
            trap,
        ),
        _ => (state, Step::Halted(Fatal::UnhandledException { scause: immut_context.scause })),
    }
}

/// What the firmware's answer to a pending call does to the state.
pub open spec fn spec_complete_exception(state: TrappedState, pending: Pending, ret: SbiRet) -> (
    TrappedState,
    Step,
) {
    match pending {
        Pending::Timer { .. } => spec_complete_interrupt(state, ret),
        Pending::Forward(call) => spec_complete_trap(state, call, ret),
    }
}

/// Dispatches a trap to the handler of its cause. `now` is the time counter
/// as it stood when the trap was taken.
///
/// Where the result is `Step::Call`, the firmware is to be called as the
/// pending call says, and its answer handed to `complete_exception`. In every
/// other case the context can be closed.
///
/// The saved program counter must leave room for the step over a breakpoint,
/// and the time counter for the `DELTA` ticks to the next timer interrupt.
pub fn handle_exception(
    mut_context: &mut ExceptionMutContext,
    immut_context: &ExceptionImmutContext,
    now: u64,
) -> (step: Step)
    requires
        immut_context.scause == Exception::Sync(SyncException::Trap(Trap::Breakpoint)) ==> old(
            mut_context,
        ).sepc + BREAKPOINT_LENGTH <= usize::MAX,
        immut_context.scause == Exception::Interrupt(Interrupt::SupervisorTimer) ==> now + DELTA
            <= u64::MAX,
    ensures
        (final(mut_context)@, step) == spec_handle_exception(
            old(mut_context)@,
            *immut_context,
            now,
        ),
        *final(final(mut_context).register_context) == *final(old(mut_context).register_context),
{
    match &immut_context.scause {
        Exception::Interrupt(interrupt) => handle_interrupt(
            mut_context,
            immut_context.stval,
            interrupt,
            now,
        ),
        Exception::Sync(SyncException::Fault(fault)) => Step::Halted(
            handle_fault(mut_context, immut_context.stval, fault),
        ),
        Exception::Sync(SyncException::Trap(trap)) => handle_trap(
            mut_context,
            immut_context.stval,
            trap,
        ),
        _ => Step::Halted(Fatal::UnhandledException { scause: immut_context.scause }),
    }
}

/// Finishes a trap that waited for the firmware, with the firmware's answer
/// to the pending call. After it the context can be closed: the trap is
/// served or fatal, and waits for nothing more.
///
/// Where a call of user code was passed on, the saved program counter must
/// leave room for the step over the call instruction.
pub fn complete_exception(mut_context: &mut ExceptionMutContext, pending: &Pending, ret: SbiRet) -> (step:
    Step)
    requires
        pending is Forward ==> old(mut_context).sepc + ECALL_LENGTH <= usize::MAX,
    ensures
        (final(mut_context)@, step) == spec_complete_exception(old(mut_context)@, *pending, ret),
        !(step is Call),
        *final(final(mut_context).register_context) == *final(old(mut_context).register_context),
{
    match pending {
        Pending::Timer { .. } => complete_interrupt(mut_context, ret),
        Pending::Forward(call) => complete_trap(mut_context, call, ret),
    }
}

/// A cause is an interrupt exactly when its top bit is set, and the
/// classification keeps the exception code of an interrupt.
pub proof fn lemma_classify_interrupt(cause: Cause)
    ensures
        Exception::classify(cause) is Interrupt <==> cause.0 > isize::MAX,
        Exception::classify(cause) matches Exception::Interrupt(interrupt)
            ==> interrupt.spec_exception_code() == cause.0 - isize::MAX - 1,
{
}

/// Every trap and every fault is what its own exception code is classified
/// as.
pub proof fn lemma_classify_sync(trap: Trap, fault: Fault)
    ensures
        Exception::classify(Cause(trap.spec_exception_code())) == Exception::Sync(
            SyncException::Trap(trap),
        ),
        Exception::classify(Cause(fault.spec_exception_code())) == Exception::Sync(
            SyncException::Fault(fault),
        ),
{
}

/// The kind of an interrupt goes by the ranges of its code: 1, 5 and 9 are
/// the supervisor interrupts, the rest of 0 to 15 is reserved, and the codes
/// from 16 on are for the platform. A reserved or platform interrupt carries
/// its code.
pub proof fn lemma_interrupt_ranges(code: usize)
    ensures
        ({
            let interrupt = Interrupt::classify(code);
            &&& interrupt == Interrupt::SupervisorSoftware <==> code == 1
            &&& interrupt == Interrupt::SupervisorTimer <==> code == 5
            &&& interrupt == Interrupt::SupervisorExternal <==> code == 9
            &&& interrupt is Reserved <==> code <= 15 && code != 1 && code != 5 && code != 9
            &&& interrupt is DesignedForPlatformUse <==> code >= 16
            &&& interrupt.spec_exception_code() == code
        }),
{
}

/// The kind of a synchronous exception goes by the ranges of its code: 3, 8
/// and 9 are the traps; 0 to 2, 4 to 7, 12, 13 and 15 are the faults; 24 to 31
/// and 48 to 63 are for the platform; every other code is reserved. A trap
/// and a fault have the code that classified them, and a reserved or platform
/// exception carries its code.
pub proof fn lemma_sync_ranges(code: usize)
    ensures
        ({
            let exception = SyncException::classify(code);
            &&& exception is Trap <==> code == 3 || code == 8 || code == 9
            &&& exception is Fault <==> code <= 2 || 4 <= code <= 7 || code == 12 || code == 13
                || code == 15
            &&& exception is DesignedForPlatformUse <==> 24 <= code <= 31 || 48 <= code <= 63
            &&& exception is Reserved <==> code == 10 || code == 11 || code == 14 || 16 <= code
                <= 23 || 32 <= code <= 47 || code >= 64
            &&& exception matches SyncException::Trap(trap) ==> trap.spec_exception_code() == code
            &&& exception matches SyncException::Fault(fault) ==> fault.spec_exception_code()
                == code
            &&& exception matches SyncException::Reserved { exception_code } ==> exception_code
                == code
            &&& exception matches SyncException::DesignedForPlatformUse { exception_code }
                ==> exception_code == code
        }),
{
}

/// A cause with no handler halts and changes nothing: a synchronous cause
/// that is reserved or left to the platform is reported as it was classified,
/// and an interrupt that is reserved or left to the platform is reported with
/// the trap value.
pub proof fn lemma_unhandled_halts(state: TrappedState, stval: usize, scause: usize, now: u64)
    ensures
        ({
            let classified = Exception::classify(Cause(scause));
            let dispatched = spec_handle_exception(
                state,
                ExceptionImmutContext { stval, scause: classified },
                now,
            );
            &&& classified matches Exception::Sync(exception) ==> (exception is Reserved
                || exception is DesignedForPlatformUse ==> dispatched == (
                state,
                Step::Halted(Fatal::UnhandledException { scause: classified }),
            ))
            &&& classified matches Exception::Interrupt(interrupt) ==> (interrupt is Reserved
                || interrupt is DesignedForPlatformUse ==> dispatched == (
                state,
                Step::Halted(Fatal::Interrupt { interrupt, stval }),
            ))
        }),
{
}

/// A software or an external interrupt is resumed from with its own bit of
/// the enable register cleared, and nothing else changed.
pub proof fn lemma_interrupt_disables_source(
    state: TrappedState,
    stval: usize,
    interrupt: Interrupt,
    now: u64,
)
    requires
        interrupt == Interrupt::SupervisorSoftware || interrupt == Interrupt::SupervisorExternal,
    ensures
        ({
            let (after, step) = spec_handle_exception(
                state,
                ExceptionImmutContext { stval, scause: Exception::Interrupt(interrupt) },
                now,
            );
            let bit = 1usize << interrupt.spec_exception_code();
            &&& step == Step::Resumed
            &&& after == TrappedState { sie: after.sie, ..state }
            &&& after.sie & bit == 0
            &&& after.sie & !bit == state.sie & !bit
        }),
{
    lemma_enable_disable(state.sie, interrupt);
}

/// A fault is never resumed from: whatever the state, the trap value and the
/// time, dispatching the exception code of a fault halts, names the fault and
/// the trap value, leaves the state as it was, and asks the firmware for the
/// shutdown.
pub proof fn lemma_fault_halts(state: TrappedState, stval: usize, fault: Fault, now: u64)
    ensures
        ({
            let scause = Exception::classify(Cause(fault.spec_exception_code()));
            let (after, step) = spec_handle_exception(
                state,
                ExceptionImmutContext { stval, scause },
                now,
            );
            &&& after == state
            &&& step == Step::Halted(Fatal::Fault { fault, stval })
            &&& step.spec_firmware_call() == Some(CompatibleSbi::Extension(Extension::Shutdown))
        }),
{
}

/// A breakpoint is resumed from with the saved program counter advanced by
/// two, and nothing else changed.
pub proof fn lemma_breakpoint_advances_pc(state: TrappedState, stval: usize, now: u64)
    requires
        state.sepc + 2 <= usize::MAX,
    ensures
        ({
            let scause = Exception::classify(Cause(3));
            spec_handle_exception(state, ExceptionImmutContext { stval, scause }, now) == (
                TrappedState { sepc: (state.sepc + 2) as usize, ..state },
                Step::Resumed,
            )
        }),
{
}

/// A call from user mode is never served at once. It halts where the
/// registers name no call; otherwise it waits for the firmware with the state
/// unchanged, and once the firmware has answered within the protocol, the
/// saved program counter is advanced by four. An answer outside the protocol
/// halts and changes nothing.
pub proof fn lemma_user_call_advances_pc(
    state: TrappedState,
    stval: usize,
    now: u64,
    ret: SbiRet,
)
    requires
        state.sepc + 4 <= usize::MAX,
    ensures
        ({
            let scause = Exception::classify(Cause(8));
            let (waiting, step) = spec_handle_exception(
                state,
                ExceptionImmutContext { stval, scause },
                now,
            );
            &&& waiting == state
            &&& !(step is Resumed)
            &&& step matches Step::Call(pending) ==> {
                let (after, done) = spec_complete_exception(waiting, pending, ret);
                &&& pending is Forward
                &&& done is Resumed || done is Halted
                &&& done is Resumed ==> after.sepc == state.sepc + 4
                &&& done is Halted ==> after == state
            }
        }),
{
}

/// A timer interrupt asks for exactly one firmware call: setting the timer
/// `DELTA` ticks after the observed time. While the firmware has not
/// answered, the timer interrupt is disabled, and nothing else has changed.
/// Once the firmware has answered that the timer is set, the timer interrupt
/// is enabled.
pub proof fn lemma_timer_interrupt_sets_timer(
    state: TrappedState,
    stval: usize,
    scause: usize,
    now: u64,
    ret: SbiRet,
)
    requires
        scause == isize::MAX + 1 + 5,
        now + DELTA <= u64::MAX,
    ensures
        ({
            let (waiting, step) = spec_handle_exception(
                state,
                ExceptionImmutContext { stval, scause: Exception::classify(Cause(scause)) },
                now,
            );
            let pending = Pending::Timer { stime_value: (now + DELTA) as u64 };
            let (after, done) = spec_complete_exception(waiting, pending, ret);
            &&& step == Step::Call(pending)
            &&& pending.spec_call() == CompatibleSbi::Extension(
                Extension::SetTimer { stime_value: (now + DELTA) as u64 },
            )
            &&& waiting == TrappedState { sie: waiting.sie, ..state }
            &&& waiting.sie & (1usize << 5) == 0
            &&& ret.a0 == 0 ==> done is Resumed && after.sie & (1usize << 5) != 0
            &&& ret.a0 != 0 ==> done is Halted && after == waiting
        }),
{
    let sie = state.sie;
    assert((sie & !(1usize << 5)) & (1usize << 5) == 0) by (bit_vector);
    let cleared = sie & !(1usize << 5);
    assert((cleared | (1usize << 5)) & (1usize << 5) != 0) by (bit_vector);
}

} // verus!
