//! The answer to one MIDI message, carried out call by call.

use crate::chip::ChipCall;
use vstd::prelude::*;

verus! {

/// What to do next to carry out an answer.
#[derive(Debug, PartialEq, Eq)]
pub enum Step<E> {
    /// Make this call, and report how it went.
    Call(ChipCall),
    /// The answer is over, with this outcome.
    Return(Result<(), E>),
}

/// The calls that answer a message, and how many of them have been handed out.
///
/// The calls are made one after the other. An error of a checked call ends the
/// answer; the errors of the other calls are passed over.
#[derive(Debug)]
pub struct Session {
    calls: Vec<ChipCall>,
    position: usize,
}

/// The report on the call before `position` ends the answer.
pub open spec fn refused(calls: Seq<ChipCall>, position: int, failed: bool) -> bool {
    failed && 0 < position <= calls.len() && calls[position - 1].is_checked()
}

/// The calls that [`Session::step`] hands out from `position` on where the call
/// at `i` fails if `fails[i]`, and whether an error ends the answer.
pub open spec fn run(calls: Seq<ChipCall>, fails: Seq<bool>, position: int) -> (Seq<ChipCall>, bool)
    decreases calls.len() - position,
{
    if refused(calls, position, position > 0 && fails[position - 1]) {
        (seq![], true)
    } else if position >= calls.len() {
        (seq![], false)
    } else {
        let (rest, error) = run(calls, fails, position + 1);
        (seq![calls[position]] + rest, error)
    }
}

/// What [`run`] is where the step taken is `step`, and `rest` is what the calls
/// after it come to.
pub open spec fn run_of_step<E>(step: Step<E>, rest: (Seq<ChipCall>, bool)) -> (
    Seq<ChipCall>,
    bool,
) {
    match step {
        Step::Call(call) => (seq![call] + rest.0, rest.1),
        Step::Return(outcome) => (seq![], outcome is Err),
    }
}

impl Session {
    #[verifier::type_invariant]
    spec fn inv(self) -> bool {
        self.position <= self.calls@.len()
    }

    /// All calls of the answer, in order.
    pub closed spec fn calls(self) -> Seq<ChipCall> {
        self.calls@
    }

    /// How many calls have been handed out.
    pub closed spec fn position(self) -> int {
        self.position as int
    }

    /// An answer of which nothing has been carried out yet.
    pub fn new(calls: Vec<ChipCall>) -> (session: Session)
        ensures
            session.calls() == calls@,
            session.position() == 0,
    {
        Session { calls, position: 0 }
    }

    /// Takes the report on the call handed out last and says what comes next.
    /// Before the first call there is nothing to report: pass `Ok(())`.
    pub fn step<E>(&mut self, report: Result<(), E>) -> (step: Step<E>)
        ensures
            0 <= old(self).position() <= old(self).calls().len(),
            final(self).calls() == old(self).calls(),
            refused(old(self).calls(), old(self).position(), report is Err) ==> {
                &&& step == Step::<E>::Return(report)
                &&& final(self).position() == old(self).calls().len()
            },
            !refused(old(self).calls(), old(self).position(), report is Err) ==> {
                if old(self).position() < old(self).calls().len() {
                    &&& step == Step::<E>::Call(old(self).calls()[old(self).position()])
                    &&& final(self).position() == old(self).position() + 1
                } else {
                    &&& step == Step::<E>::Return(Ok(()))
                    &&& final(self).position() == old(self).position()
                }
            },
            // One step of `run`, for all failures that agree with the report.
            forall|fails: Seq<bool>|
                (old(self).position() > 0 ==> fails[old(self).position() - 1] == (report is Err))
                    ==> #[trigger] run(old(self).calls(), fails, old(self).position())
                    == run_of_step(
                    step,
                    run(final(self).calls(), fails, final(self).position()),
                ),
    {
        proof {
            use_type_invariant(&*self);
        }
        if let Err(error) = report {
            if self.position > 0 && self.calls[self.position - 1].checked() {
                self.position = self.calls.len();
                return Step::Return(Err(error));
            }
        }
        if self.position < self.calls.len() {
            let call = self.calls[self.position];
            self.position = self.position + 1;
            Step::Call(call)
        } else {
            Step::Return(Ok(()))
        }
    }
}

/// Where `n` counts the calls up to and with the first checked one that fails,
/// exactly these `n` are made, in order, and the answer ends in an error.
pub proof fn law_first_failure_ends_the_answer(calls: Seq<ChipCall>, fails: Seq<bool>, n: int)
    requires
        fails.len() == calls.len(),
        0 < n <= calls.len(),
        forall|i: int| 0 <= i < n - 1 ==> !(#[trigger] calls[i].is_checked() && fails[i]),
        calls[n - 1].is_checked() && fails[n - 1],
    ensures
        run(calls, fails, 0) == (calls.take(n), true),
{
    lemma_run_to(calls, fails, 0, n, true);
    assert(calls.subrange(0, n) =~= calls.take(n));
}

/// Where no checked call fails, every call is made, in order, and the answer
/// ends well, whatever becomes of the others.
pub proof fn law_without_failure_all_calls_are_made(calls: Seq<ChipCall>, fails: Seq<bool>)
    requires
        fails.len() == calls.len(),
        forall|i: int| 0 <= i < calls.len() ==> !(#[trigger] calls[i].is_checked() && fails[i]),
    ensures
        run(calls, fails, 0) == (calls, false),
{
    lemma_run_to(calls, fails, 0, calls.len() as int, false);
    assert(calls.subrange(0, calls.len() as int) =~= calls);
}

proof fn lemma_run_to(calls: Seq<ChipCall>, fails: Seq<bool>, from: int, to: int, error: bool)
    requires
        fails.len() == calls.len(),
        0 <= from <= to <= calls.len(),
        error ==> to > 0 && calls[to - 1].is_checked() && fails[to - 1],
        !error ==> to == calls.len(),
        forall|i: int|
            0 <= i < (if error {
                to - 1
            } else {
                to
            }) ==> !(#[trigger] calls[i].is_checked() && fails[i]),
    ensures
        run(calls, fails, from) == (calls.subrange(from, to), error),
    decreases to - from,
{
    if from < to {
        lemma_run_to(calls, fails, from + 1, to, error);
        assert(from > 0 ==> !(calls[from - 1].is_checked() && fails[from - 1]));
        assert(seq![calls[from]] + calls.subrange(from + 1, to) =~= calls.subrange(from, to));
    } else {
        assert(calls.subrange(from, to) =~= seq![]);
        if !error && from > 0 {
            assert(!(calls[from - 1].is_checked() && fails[from - 1]));
        }
    }
}

} // verus!
