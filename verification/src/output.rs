//! The status line of a check: the worst severity found, then the summaries.

use vstd::prelude::*;
use crate::checker::{CheckResult, CheckResultView, State};

verus! {

/// Whether a result has a summary to show.
pub open spec fn has_summary(r: CheckResultView) -> bool {
    r.summary.len() > 0
}

/// The texts that a status line shows: one for each result with a summary,
/// in the order of the results.
pub open spec fn shown(results: Seq<CheckResultView>) -> Seq<Seq<char>> {
    results.filter(|r: CheckResultView| has_summary(r)).map_values(|r: CheckResultView| r.text())
}

/// The parts in order, with the separator between neighbours.
pub open spec fn joined(parts: Seq<Seq<char>>, sep: Seq<char>) -> Seq<char>
    decreases parts.len(),
{
    if parts.len() == 0 {
        Seq::empty()
    } else if parts.len() == 1 {
        parts[0]
    } else {
        joined(parts.drop_last(), sep) + sep + parts.last()
    }
}

/// What follows the severity in a status line: nothing where no text is
/// shown, else a dash and the texts separated by commas.
pub open spec fn details(parts: Seq<Seq<char>>) -> Seq<char> {
    if parts.len() == 0 {
        Seq::empty()
    } else {
        " - "@ + joined(parts, ", "@)
    }
}

/// The status line for a severity and a sequence of results.
pub open spec fn status_line(worst: State, results: Seq<CheckResultView>) -> Seq<char> {
    "HTTP "@ + worst.label() + details(shown(results))
}

/// Whether `worst` is the highest severity among the results, `Okay` where
/// there are none.
pub open spec fn is_worst_of(worst: State, results: Seq<CheckResultView>) -> bool {
    &&& forall|i: int| 0 <= i < results.len() ==> (#[trigger] results[i]).state.rank() <= worst.rank()
    &&& results.len() == 0 ==> worst == State::Okay
    &&& results.len() > 0 ==> exists|i: int| 0 <= i < results.len() && (#[trigger] results[i]).state == worst
}

/// What an output holds, as mathematical values.
pub struct OutputView {
    pub worst_state: State,
    pub check_results: Seq<CheckResultView>,
}

/// The results of a check together with the worst severity among them.
pub struct Output {
    pub worst_state: State,
    check_results: Vec<CheckResult>,
}

impl View for Output {
    type V = OutputView;

    closed spec fn view(&self) -> OutputView {
        OutputView {
            worst_state: self.worst_state,
            check_results: self.check_results@.map_values(|r: CheckResult| r@),
        }
    }
}

impl Output {
    /// The worst severity that the output holds.
    pub fn worst_state(&self) -> (worst: State)
        ensures
            worst == self@.worst_state,
    {
        self.worst_state
    }

    /// Collects the results and finds the worst severity among them.
    pub fn from_check_results(check_results: Vec<CheckResult>) -> (out: Output)
        ensures
            out@.check_results == check_results@.map_values(|r: CheckResult| r@),
            is_worst_of(out@.worst_state, out@.check_results),
    {
        let ghost results = check_results@.map_values(|r: CheckResult| r@);
        let mut worst_state = State::Okay;
        let mut i: usize = 0;
        while i < check_results.len()
            invariant
                i <= check_results.len(),
                results == check_results@.map_values(|r: CheckResult| r@),
                forall|j: int| 0 <= j < i ==> (#[trigger] results[j]).state.rank() <= worst_state.rank(),
                i == 0 ==> worst_state == State::Okay,
                i > 0 ==> exists|j: int| 0 <= j < i && (#[trigger] results[j]).state == worst_state,
            decreases check_results.len() - i,
        {
            let state = check_results[i].state;
            assert(results[i as int].state == state);
            if !worst_state.at_least(state) {
                worst_state = state;
            }
            i += 1;
        }
        Output { worst_state, check_results }
    }

    /// The status line: `HTTP`, the worst severity, and the summaries that
    /// are not empty, each with the marker of its severity.
    pub fn to_string(&self) -> (line: String)
        ensures
            line@ == status_line(self@.worst_state, self@.check_results),
    {
        let ghost results = self@.check_results;
        let mut line = String::from_str("HTTP ");
        line.append(self.worst_state.as_str());
        let ghost head = line@;
        let mut first = true;
        let mut i: usize = 0;
        while i < self.check_results.len()
            invariant
                i <= self.check_results.len(),
                results == self.check_results@.map_values(|r: CheckResult| r@),
                head == "HTTP "@ + self.worst_state.label(),
                first == (shown(results.take(i as int)).len() == 0),
                line@ == head + details(shown(results.take(i as int))),
            decreases self.check_results.len() - i,
        {
            let result = &self.check_results[i];
            proof {
                lemma_shown_step(results, i as int);
            }
            if !result.summary.as_str().is_empty() {
                let text = result.to_string();
                let ghost before = shown(results.take(i as int));
                assert(shown(results.take(i + 1)) == before.push(text@));
                if first {
                    line.append(" - ");
                    first = false;
                    assert(joined(before.push(text@), ", "@) == text@);
                } else {
                    line.append(", ");
                    assert(before.push(text@).drop_last() == before);
                    assert(line@ + text@ == head + details(before.push(text@)));
                }
                line.append(text.as_str());
            }
            i += 1;
        }
        assert(results.take(i as int) == results);
        line
    }
}

/// Taking one more result adds its text to those shown if it has a summary,
/// and leaves them as they are if it has none.
proof fn lemma_shown_step(results: Seq<CheckResultView>, i: int)
    requires
        0 <= i < results.len(),
    ensures
        has_summary(results[i]) ==> shown(results.take(i + 1)) == shown(results.take(i)).push(
            results[i].text(),
        ),
        !has_summary(results[i]) ==> shown(results.take(i + 1)) == shown(results.take(i)),
{
    let keep = |r: CheckResultView| has_summary(r);
    assert(results.take(i + 1).drop_last() == results.take(i));
    assert(results.take(i + 1).last() == results[i]);
    reveal_with_fuel(Seq::filter, 2);
}

} // verus!
