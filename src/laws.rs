use vstd::prelude::*;

use crate::lesson::Lesson;
use crate::session::{judgement, record, transition, Action, Command, Mode, Outcome, Verdict};
use crate::value::{
    deep_equal, lemma_deep_equal_symmetric, lemma_deep_equal_transitive, Value,
};

verus! {

/// Moving through the curriculum: `next` from a lesson that is not the last
/// goes to the one after it, `next` from the last ends the session, `prev`
/// goes to the lesson before, and `prev` from the first stays there.
pub proof fn lemma_ordering(len: nat, i: nat)
    requires
        i < len,
    ensures
        i + 1 < len ==> transition(len, i, Mode::Browsing, Command::Next).0 == i + 1
            && transition(len, i, Mode::Browsing, Command::Next).1 == Mode::Browsing,
        i + 1 == len ==> transition(len, i, Mode::Browsing, Command::Next).1 == Mode::Finished,
        i > 0 ==> transition(len, i, Mode::Browsing, Command::Prev).0 == i - 1
            && transition(len, i, Mode::Browsing, Command::Prev).1 == Mode::Browsing,
        i == 0 ==> transition(len, i, Mode::Browsing, Command::Prev).0 == 0
            && transition(len, i, Mode::Browsing, Command::Prev).1 == Mode::Browsing,
{
}

/// While the session waits for `next` after a correct answer, no input is
/// evaluated and the lesson does not change until `next`, which moves on to
/// the following lesson; `exit` and `quit` still end the session.
pub proof fn lemma_gate(len: nat, i: nat, cmd: Command)
    requires
        i + 1 < len,
    ensures
        transition(len, i, Mode::Gated, cmd).2 != Action::Evaluate,
        cmd != Command::Next ==> transition(len, i, Mode::Gated, cmd).0 == i,
        cmd != Command::Next && cmd != Command::Exit ==> transition(len, i, Mode::Gated, cmd).1
            == Mode::Gated,
        cmd == Command::Next ==> transition(len, i, Mode::Gated, cmd).0 == i + 1
            && transition(len, i, Mode::Gated, cmd).1 == Mode::Browsing,
        cmd == Command::Exit ==> transition(len, i, Mode::Gated, cmd).1 == Mode::Finished
            && transition(len, i, Mode::Gated, cmd).2 == Action::End,
{
}

/// Attempts on a lesson accumulate: after a first attempt left `w1`, the
/// second attempt starts from `w1`, and after it the lesson holds `w2`; the
/// target and every other lesson stay as they were.
pub proof fn lemma_attempts_accumulate(lessons: Seq<Lesson>, i: int, w1: Value, w2: Value)
    requires
        0 <= i < lessons.len(),
    ensures
        record(lessons, i, w1)[i].working == w1,
        record(record(lessons, i, w1), i, w2)[i].working == w2,
        record(record(lessons, i, w1), i, w2)[i].target == lessons[i].target,
        record(record(lessons, i, w1), i, w2).len() == lessons.len(),
        forall|j: int|
            0 <= j < lessons.len() && j != i ==> #[trigger] record(record(lessons, i, w1), i, w2)[j]
                == lessons[j],
{
}

/// Only the working value decides: two working values that deeply equal each
/// other, however produced, are both correct or both not.
pub proof fn lemma_judged_by_value(
    len: nat,
    i: nat,
    target: Value,
    w1: Value,
    r1: Value,
    w2: Value,
    r2: Value,
)
    requires
        deep_equal(w1, w2),
    ensures
        judgement(len, i, target, Outcome::Success { working: w1, result: r1 }).0 == judgement(
            len,
            i,
            target,
            Outcome::Success { working: w2, result: r2 },
        ).0,
        deep_equal(w1, target) <==> deep_equal(w2, target),
{
    if deep_equal(w1, target) {
        lemma_deep_equal_symmetric(w1, w2);
        lemma_deep_equal_transitive(w2, w1, target);
    }
    if deep_equal(w2, target) {
        lemma_deep_equal_transitive(w1, w2, target);
    }
}

/// A success whose working value deeply equals the target is judged correct:
/// the session gates when lessons follow and finishes after the last one.
pub proof fn lemma_correct_is_recognised(len: nat, i: nat, target: Value, working: Value, result: Value)
    requires
        i < len,
        deep_equal(working, target),
    ensures
        judgement(len, i, target, Outcome::Success { working, result }).0 == (if i + 1 < len {
            Mode::Gated
        } else {
            Mode::Finished
        }),
        match judgement(len, i, target, Outcome::Success { working, result }).1 {
            Verdict::Solved { .. } => i + 1 < len,
            Verdict::Mastered => i + 1 == len,
            _ => false,
        },
{
}

} // verus!
