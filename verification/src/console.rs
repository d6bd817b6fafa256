//! The console: text goes out one byte at a time, through the legacy call
//! that prints a byte.

use vstd::prelude::*;
use vstd::string::StringSliceAdditionalSpecFns;

use crate::sbi_call::{legacy_sbi_result, spec_legacy_sbi_result, LegacyExtension};

verus! {

/// Declares `spin::relax::Spin`, the way in which a lock of `spin` waits. The
/// type is named, and nothing is known of its values.
#[verifier::external_type_specification]
#[verifier::external_body]
pub struct ExSpin(spin::relax::Spin);

/// Declares `spin::mutex::Mutex`, a lock around a value. The type is named,
/// and nothing is known of its values: neither what a lock holds nor whether
/// it is held.
#[verifier::external_type_specification]
#[verifier::external_body]
#[verifier::reject_recursive_types(T)]
#[verifier::reject_recursive_types(R)]
pub struct ExMutex<T: ?Sized, R>(spin::mutex::Mutex<T, R>);

/// Declares `spin::mutex::MutexGuard`, which holds a lock until it is
/// dropped. The type is named, and nothing is known of its values.
#[verifier::external_type_specification]
#[verifier::external_body]
#[verifier::reject_recursive_types(T)]
pub struct ExMutexGuard<'a, T: 'a + ?Sized>(spin::mutex::MutexGuard<'a, T>);

/// Wraps `spin::mutex::Mutex::new`, which makes a lock around a writer. The
/// contract claims nothing of the lock.
#[verifier::external_body]
fn new_lock(writer: Writer) -> spin::Mutex<Writer> {
    spin::Mutex::new(writer)
}

/// Wraps `spin::mutex::Mutex::try_lock`, which takes the lock where it is
/// free and gives nothing where it is held, without waiting. The contract
/// claims nothing of which of the two comes back.
#[verifier::external_body]
fn try_lock<'a>(lock: &'a spin::Mutex<Writer>) -> Option<spin::MutexGuard<'a, Writer>> {
    lock.try_lock()
}

/// Wraps the `deref_mut` of `spin::mutex::MutexGuard`, which lends out the
/// writer behind the lock. The contract claims nothing of the writer.
#[verifier::external_body]
fn locked_writer<'b, 'a>(guard: &'b mut spin::MutexGuard<'a, Writer>) -> &'b mut Writer {
    std::ops::DerefMut::deref_mut(guard)
}

/// The calls that print a text: one for each byte, in the order of the bytes.
pub open spec fn spec_sbi_print(bytes: Seq<u8>) -> Seq<LegacyExtension> {
    Seq::new(bytes.len(), |i: int| LegacyExtension::ConsolePutChar { ch: bytes[i] })
}

/// How far the printing of a text has come.
pub struct PrintState {
    /// The calls that print the text.
    pub calls: Seq<LegacyExtension>,
    /// How many of them the firmware has answered with success.
    pub sent: nat,
    /// What the firmware answered where it did not answer with success.
    pub error: Option<isize>,
}

impl PrintState {
    /// The state in which the printing of a text starts: one call for each
    /// byte, none answered.
    pub open spec fn start(bytes: Seq<u8>) -> PrintState {
        PrintState { calls: spec_sbi_print(bytes), sent: 0, error: None }
    }

    /// The state after the firmware has answered call after call with
    /// `answers`, in this order.
    pub open spec fn answers(self, answers: Seq<isize>) -> PrintState
        decreases answers.len(),
    {
        if answers.len() == 0 {
            self
        } else {
            self.answer(answers[0]).answers(answers.drop_first())
        }
    }

    /// The call to issue next. There is none once every byte was printed, and
    /// none after a call has failed.
    pub open spec fn next_call(self) -> Option<LegacyExtension> {
        if self.error is None && self.sent < self.calls.len() {
            Some(self.calls[self.sent as int])
        } else {
            None
        }
    }

    /// The state after the firmware has answered the call that was issued
    /// last with `a0`. Where no call was to be issued, the answer is ignored.
    pub open spec fn answer(self, a0: isize) -> PrintState {
        if self.next_call() is None {
            self
        } else {
            match spec_legacy_sbi_result(a0) {
                Ok(_) => PrintState { sent: self.sent + 1, ..self },
                Err(error) => PrintState { error: Some(error), ..self },
            }
        }
    }

    /// How the printing ended, once it has: with the answer of the first call
    /// that failed, or well after the last byte.
    pub open spec fn result(self) -> Option<Result<(), isize>> {
        match self.error {
            Some(error) => Some(Err(error)),
            None => if self.sent >= self.calls.len() {
                Some(Ok(()))
            } else {
                None
            },
        }
    }
}

/// A text that is being printed. Where the job came from a console, the
/// writer that it prints on stays locked until the job is dropped.
pub struct PrintJob<'a> {
    #[allow(dead_code)]
    writer: Option<spin::MutexGuard<'a, Writer>>,
    asked: Ghost<Option<spin::Mutex<Writer>>>,
    bytes: Vec<u8>,
    sent: usize,
    error: Option<isize>,
}

impl<'a> View for PrintJob<'a> {
    type V = PrintState;

    closed spec fn view(&self) -> PrintState {
        PrintState {
            calls: spec_sbi_print(self.bytes@),
            sent: self.sent as nat,
            error: self.error,
        }
    }
}

impl<'a> PrintJob<'a> {
    /// Whether the job holds the guard of a lock, and with it the writer
    /// behind that lock.
    pub closed spec fn holds_writer(&self) -> bool {
        self.writer is Some
    }

    /// The lock that was asked for the writer of this job, where the job came
    /// from asking a lock.
    pub closed spec fn asked(&self) -> Option<spin::Mutex<Writer>> {
        self.asked@
    }

    /// The call to issue next, if there is one.
    pub fn next_call(&self) -> (call: Option<LegacyExtension>)
        ensures
            call == self@.next_call(),
    {
        if self.error.is_none() && self.sent < self.bytes.len() {
            Some(LegacyExtension::ConsolePutChar { ch: self.bytes[self.sent] })
        } else {
            None
        }
    }

    /// Takes what the firmware left in its answer register after the call
    /// that `next_call` gave.
    pub fn answer(&mut self, a0: isize)
        ensures
            final(self)@ == old(self)@.answer(a0),
            final(self).holds_writer() == old(self).holds_writer(),
            final(self).asked() == old(self).asked(),
    {
        if self.error.is_none() && self.sent < self.bytes.len() {
            match legacy_sbi_result(a0) {
                Ok(_) => {
                    self.sent += 1;
                },
                Err(error) => {
                    self.error = Some(error);
                },
            }
        }
    }

    /// How the printing ended, or nothing while a call is still to be issued.
    pub fn result(&self) -> (result: Option<Result<(), isize>>)
        ensures
            result == self@.result(),
            result is None <==> self@.next_call() is Some,
    {
        match self.error {
            Some(error) => Some(Err(error)),
            None => if self.sent >= self.bytes.len() {
                Some(Ok(()))
            } else {
                None
            },
        }
    }
}

/// Starts to print `s`: one call for each byte of the text, in order, and no
/// call after the first that the firmware answers with an error. The job
/// holds no writer: no lock was asked for it.
pub fn sbi_print(s: &str) -> (job: PrintJob<'static>)
    ensures
        job@ == PrintState::start(s.spec_bytes()),
        !job.holds_writer(),
        job.asked() is None,
{
    let bytes = vstd::slice::slice_to_vec(s.as_bytes());
    PrintJob { writer: None, asked: Ghost(None), bytes, sent: 0, error: None }
}

/// What text is written to. A writer keeps nothing: a lock around it is what
/// gives one piece of code the console at a time.
pub struct Writer {}

impl Writer {
    /// A writer.
    pub fn new() -> Self {
        Writer {}
    }

    /// Starts to print `s` on this writer. The job does not hold the writer.
    pub fn write_str(&mut self, s: &str) -> (job: PrintJob<'static>)
        ensures
            job@ == PrintState::start(s.spec_bytes()),
            !job.holds_writer(),
            job.asked() is None,
    {
        sbi_print(s)
    }
}

/// The two writers of the console, each behind a lock of its own: one for
/// code that runs in user context and one for code that runs in supervisor
/// context. A trap that is taken while one is held can still print through the
/// other.
pub struct Console {
    user: spin::Mutex<Writer>,
    supervisor: spin::Mutex<Writer>,
}

impl Console {
    /// The lock around the writer of user context.
    pub closed spec fn user_lock(&self) -> spin::Mutex<Writer> {
        self.user
    }

    /// The lock around the writer of supervisor context.
    pub closed spec fn supervisor_lock(&self) -> spin::Mutex<Writer> {
        self.supervisor
    }

    /// A console with both writers free.
    pub fn new() -> Console {
        Console { user: new_lock(Writer::new()), supervisor: new_lock(Writer::new()) }
    }
}

/// Starts to print `s` on a writer whose lock was asked for. There is a job
/// exactly where the lock was granted, and the job then holds the guard, so
/// that the lock stays taken for as long as the job lives.
pub fn print_locked<'a>(guard: Option<spin::MutexGuard<'a, Writer>>, s: &str) -> (job: Option<
    PrintJob<'a>,
>)
    ensures
        job is Some <==> guard is Some,
        job matches Some(job) ==> job@ == PrintState::start(s.spec_bytes()),
        job matches Some(job) ==> job.holds_writer(),
        job matches Some(job) ==> job.asked() is None,
{
    match guard {
        Some(mut guard) => {
            let job = locked_writer(&mut guard).write_str(s);
            Some(PrintJob { writer: Some(guard), ..job })
        },
        None => None,
    }
}

/// Asks for `lock` and starts to print `s` on the writer behind it. The job,
/// if there is one, holds the guard of the lock and keeps which lock it was.
fn print_behind<'a>(lock: &'a spin::Mutex<Writer>, s: &str) -> (job: Option<PrintJob<'a>>)
    ensures
        job matches Some(job) ==> job@ == PrintState::start(s.spec_bytes()),
        job matches Some(job) ==> job.holds_writer(),
        job matches Some(job) ==> job.asked() == Some(*lock),
{
    match print_locked(try_lock(lock), s) {
        Some(job) => Some(PrintJob { asked: Ghost(Some(*lock)), ..job }),
        None => None,
    }
}

/// Asks for the writer of user context and starts to print `s` on it. There
/// is no job while another job holds that writer. A job that there is holds
/// the writer, and the lock that was asked for it is the console's lock of
/// user context.
pub fn user_fmt_print<'a>(console: &'a Console, s: &str) -> (job: Option<PrintJob<'a>>)
    ensures
        job matches Some(job) ==> job@ == PrintState::start(s.spec_bytes()),
        job matches Some(job) ==> job.holds_writer(),
        job matches Some(job) ==> job.asked() == Some(console.user_lock()),
{
    print_behind(&console.user, s)
}

/// Asks for the writer of supervisor context and starts to print `s` on it.
/// There is no job while another job holds that writer. A job that there is
/// holds the writer, and the lock that was asked for it is the console's lock
/// of supervisor context.
pub fn supervisor_fmt_print<'a>(console: &'a Console, s: &str) -> (job: Option<PrintJob<'a>>)
    ensures
        job matches Some(job) ==> job@ == PrintState::start(s.spec_bytes()),
        job matches Some(job) ==> job.holds_writer(),
        job matches Some(job) ==> job.asked() == Some(console.supervisor_lock()),
{
    print_behind(&console.supervisor, s)
}

/// Once no call is left to issue, no answer changes the state.
proof fn lemma_ended_stays(state: PrintState, answers: Seq<isize>)
    requires
        state.next_call() is None,
    ensures
        state.answers(answers) == state,
    decreases answers.len(),
{
    if answers.len() > 0 {
        lemma_ended_stays(state, answers.drop_first());
    }
}

/// From a state without an error, answers that begin with `zeros` times
/// success print that many bytes more; the answer after them, if a byte was
/// left for it, is the error that printing ends with.
proof fn lemma_answers_from(state: PrintState, answers: Seq<isize>, zeros: int)
    requires
        state.error is None,
        0 <= zeros <= answers.len(),
        state.sent + zeros <= state.calls.len(),
        forall|i: int| 0 <= i < zeros ==> answers[i] == 0,
        state.sent + zeros == state.calls.len() || zeros == answers.len() || answers[zeros] != 0,
    ensures
        state.answers(answers) == (PrintState {
            sent: (state.sent + zeros) as nat,
            error: if state.sent + zeros < state.calls.len() && zeros < answers.len() {
                Some(answers[zeros])
            } else {
                None
            },
            ..state
        }),
    decreases answers.len(),
{
    if answers.len() > 0 {
        let rest = answers.drop_first();
        let next = state.answer(answers[0]);
        if state.next_call() is None {
            lemma_ended_stays(state, answers);
        } else if zeros == 0 {
            lemma_ended_stays(next, rest);
        } else {
            assert forall|i: int| 0 <= i < zeros - 1 implies rest[i] == 0 by {
                assert(rest[i] == answers[i + 1]);
            }
            if zeros - 1 < rest.len() {
                assert(rest[zeros - 1] == answers[zeros]);
            }
            lemma_answers_from(next, rest, zeros - 1);
        }
    }
}

/// Printing goes through the text while the firmware answers with success,
/// and ends with the first answer that is not success. Of a text and the
/// answers given in turn, where the first `zeros` answers are success and the
/// next one, if there is one and a byte was left for it, is not: exactly
/// `zeros` bytes were printed, that next answer is the error, and the
/// printing has ended well exactly when every byte was printed.
pub proof fn lemma_print_stops_at_first_error(bytes: Seq<u8>, answers: Seq<isize>, zeros: int)
    requires
        0 <= zeros <= answers.len(),
        zeros <= bytes.len(),
        forall|i: int| 0 <= i < zeros ==> answers[i] == 0,
        zeros == bytes.len() || zeros == answers.len() || answers[zeros] != 0,
    ensures
        ({
            let end = PrintState::start(bytes).answers(answers);
            &&& end.calls == spec_sbi_print(bytes)
            &&& end.sent == zeros
            &&& zeros < bytes.len() && zeros < answers.len() ==> end.result() == Some(
                Err::<(), isize>(answers[zeros]),
            )
            &&& zeros == bytes.len() ==> end.result() == Some(Ok::<(), isize>(()))
            &&& zeros < bytes.len() && zeros == answers.len() ==> end.result() is None
                && end.next_call() == Some(LegacyExtension::ConsolePutChar { ch: bytes[zeros] })
        }),
{
    lemma_answers_from(PrintState::start(bytes), answers, zeros);
}

} // verus!
