//! The streaming line filter.
//!
//! The filter never reads or writes by itself. It is a machine that is told
//! what happened (`FilterEvent`) and answers with what to do next
//! (`FilterAction`); whoever owns the streams performs the action and reports
//! back. One line is in flight at any time, lines are never reordered and
//! never read twice, and the first failed read ends the run.

use vstd::prelude::*;
use vstd::pervasive::unreached;
use crate::error::SgrepError;
use crate::pattern::{engine_matches, CompiledPattern};

verus! {

/// Where a run stands. `Done` and `Failed` are final.
#[derive(Clone, Copy, Debug, PartialEq, Eq, Structural)]
pub enum FilterState {
    Idle,
    Reading,
    Emitting,
    Done,
    Failed,
}

/// What the owner of the streams reports to the filter.
#[derive(Clone, Debug, PartialEq, Eq)]
pub enum FilterEvent {
    /// The run begins.
    Start,
    /// A line was read; the text is the line without its terminator.
    Line(String),
    /// A line could not be read, for this cause.
    ReadFailure(String),
    /// The input has ended.
    EndOfStream,
    /// The line that was handed out has been written.
    Emitted,
}

/// What the filter asks of the owner of the streams.
#[derive(Clone, Debug, PartialEq, Eq)]
pub enum FilterAction {
    /// Read the next line and report `Line`, `ReadFailure` or `EndOfStream`.
    ReadNext,
    /// Write this line as it is, then report `Emitted`.
    Emit(String),
    /// The input is exhausted: end the run with success.
    Finish,
    /// End the run with this error; write nothing more.
    Abort(SgrepError),
}

/// The state of a run and the number of lines read so far. The count stops
/// growing at the largest value it can hold.
#[derive(Clone, Copy, Debug, PartialEq, Eq, Structural)]
pub struct FilterProgress {
    pub state: FilterState,
    pub lines_read: u64,
}

/// The count after one more line.
pub open spec fn count_after_line(lines_read: u64) -> u64 {
    if lines_read < u64::MAX {
        (lines_read + 1) as u64
    } else {
        lines_read
    }
}

/// The position, counted from one, of the line that comes after `lines_read`
/// lines; `None` when the count has stopped growing.
pub open spec fn next_position(lines_read: u64) -> Option<u64> {
    if lines_read < u64::MAX {
        Some((lines_read + 1) as u64)
    } else {
        None
    }
}

/// The transition table. `matched` tells whether the pattern matches the line
/// of a `Line` event and is not looked at for any other event. An event that
/// the state does not admit yields `None`.
pub open spec fn step_spec(at: FilterProgress, event: FilterEvent, matched: bool) -> Option<
    (FilterProgress, FilterAction),
> {
    match (at.state, event) {
        (FilterState::Idle, FilterEvent::Start) => Some(
            (
                FilterProgress { state: FilterState::Reading, lines_read: at.lines_read },
                FilterAction::ReadNext,
            ),
        ),
        (FilterState::Reading, FilterEvent::Line(text)) => if matched {
            Some(
                (
                    FilterProgress {
                        state: FilterState::Emitting,
                        lines_read: count_after_line(at.lines_read),
                    },
                    FilterAction::Emit(text),
                ),
            )
        } else {
            Some(
                (
                    FilterProgress {
                        state: FilterState::Reading,
                        lines_read: count_after_line(at.lines_read),
                    },
                    FilterAction::ReadNext,
                ),
            )
        },
        (FilterState::Reading, FilterEvent::ReadFailure(cause)) => Some(
            (
                FilterProgress { state: FilterState::Failed, lines_read: at.lines_read },
                FilterAction::Abort(
                    SgrepError::LineReadError { position: next_position(at.lines_read), cause },
                ),
            ),
        ),
        (FilterState::Reading, FilterEvent::EndOfStream) => Some(
            (
                FilterProgress { state: FilterState::Done, lines_read: at.lines_read },
                FilterAction::Finish,
            ),
        ),
        (FilterState::Emitting, FilterEvent::Emitted) => Some(
            (
                FilterProgress { state: FilterState::Reading, lines_read: at.lines_read },
                FilterAction::ReadNext,
            ),
        ),
        _ => None,
    }
}

/// One step of the machine, with the pattern's verdict on the line given by
/// the caller.
pub fn advance(at: FilterProgress, event: FilterEvent, matched: bool) -> (r: Option<
    (FilterProgress, FilterAction),
>)
    ensures
        r == step_spec(at, event, matched),
{
    match at.state {
        FilterState::Idle => match event {
            FilterEvent::Start => Some(
                (
                    FilterProgress { state: FilterState::Reading, lines_read: at.lines_read },
                    FilterAction::ReadNext,
                ),
            ),
            _ => None,
        },
        FilterState::Reading => match event {
            FilterEvent::Line(text) => {
                let lines_read: u64 = if at.lines_read < u64::MAX {
                    at.lines_read + 1
                } else {
                    at.lines_read
                };
                if matched {
                    Some(
                        (
                            FilterProgress { state: FilterState::Emitting, lines_read },
                            FilterAction::Emit(text),
                        ),
                    )
                } else {
                    Some(
                        (
                            FilterProgress { state: FilterState::Reading, lines_read },
                            FilterAction::ReadNext,
                        ),
                    )
                }
            },
            FilterEvent::ReadFailure(cause) => {
                let position: Option<u64> = if at.lines_read < u64::MAX {
                    Some(at.lines_read + 1)
                } else {
                    None
                };
                Some(
                    (
                        FilterProgress { state: FilterState::Failed, lines_read: at.lines_read },
                        FilterAction::Abort(SgrepError::LineReadError { position, cause }),
                    ),
                )
            },
            FilterEvent::EndOfStream => Some(
                (
                    FilterProgress { state: FilterState::Done, lines_read: at.lines_read },
                    FilterAction::Finish,
                ),
            ),
            _ => None,
        },
        FilterState::Emitting => match event {
            FilterEvent::Emitted => Some(
                (
                    FilterProgress { state: FilterState::Reading, lines_read: at.lines_read },
                    FilterAction::ReadNext,
                ),
            ),
            _ => None,
        },
        _ => None,
    }
}

/// `Done` and `Failed` are final: no event is admitted in them.
pub proof fn lemma_final_states_admit_nothing(at: FilterProgress, event: FilterEvent, matched: bool)
    requires
        at.state == FilterState::Done || at.state == FilterState::Failed,
    ensures
        step_spec(at, event, matched) is None,
{
}

/// Whether an event brings a line that the pattern matches.
pub open spec fn event_matched(pattern: Seq<char>, event: FilterEvent) -> bool {
    event matches FilterEvent::Line(text) && engine_matches(pattern, text@)
}

/// A filter at work: a compiled pattern, which it owns and only reads, and
/// the progress of the run.
#[derive(Debug)]
pub struct LineFilter {
    pattern: CompiledPattern,
    progress: FilterProgress,
}

impl LineFilter {
    /// The text of the pattern that this filter applies.
    pub closed spec fn pattern_text(&self) -> Seq<char> {
        self.pattern@
    }

    /// Where the run stands.
    pub closed spec fn at(&self) -> FilterProgress {
        self.progress
    }

    /// A filter that has not started yet.
    pub fn new(pattern: CompiledPattern) -> (filter: LineFilter)
        ensures
            filter.pattern_text() == pattern@,
            filter.at() == (FilterProgress { state: FilterState::Idle, lines_read: 0 }),
    {
        LineFilter { pattern, progress: FilterProgress { state: FilterState::Idle, lines_read: 0 } }
    }

    /// Where the run stands.
    pub fn progress(&self) -> (p: FilterProgress)
        ensures
            p == self.at(),
    {
        self.progress
    }

    /// The pattern that this filter applies.
    pub fn pattern(&self) -> (p: &CompiledPattern)
        ensures
            p@ == self.pattern_text(),
    {
        &self.pattern
    }

    /// Takes one event and answers with the next action, as the transition
    /// table says; a line is tested against the whole of its text. An event
    /// that the state does not admit changes nothing and yields `None`.
    pub fn step(&mut self, event: FilterEvent) -> (action: Option<FilterAction>)
        ensures
            final(self).pattern_text() == old(self).pattern_text(),
            match step_spec(
                old(self).at(),
                event,
                event_matched(old(self).pattern_text(), event),
            ) {
                Some((next, asked)) => final(self).at() == next && action == Some(asked),
                None => final(self).at() == old(self).at() && action is None,
            },
    {
        let matched = match &event {
            FilterEvent::Line(text) => self.progress.state == FilterState::Reading
                && self.pattern.is_match(text.as_str()),
            _ => false,
        };
        match advance(self.progress, event, matched) {
            Some((next, asked)) => {
                self.progress = next;
                Some(asked)
            },
            None => None,
        }
    }
}

/// The lines among `lines` that the pattern matches, in the order in which
/// they stand there.
pub open spec fn matching_lines(pattern: Seq<char>, lines: Seq<Seq<char>>) -> Seq<Seq<char>> {
    lines.filter(|line: Seq<char>| engine_matches(pattern, line))
}

/// After one more line, the matching lines are those from before, followed by
/// the new line if the pattern matches it.
pub proof fn lemma_matching_lines_push(pattern: Seq<char>, lines: Seq<Seq<char>>, line: Seq<char>)
    ensures
        matching_lines(pattern, lines.push(line)) == if engine_matches(pattern, line) {
            matching_lines(pattern, lines).push(line)
        } else {
            matching_lines(pattern, lines)
        },
{
    reveal(Seq::filter);
    assert(lines.push(line).drop_last() =~= lines);
}

/// The texts of some strings.
pub open spec fn texts(lines: Seq<String>) -> Seq<Seq<char>> {
    lines.map_values(|line: String| line@)
}

/// The first `count` reads have all succeeded, and these are their lines.
pub open spec fn lines_before(reads: Seq<Result<String, String>>, count: int) -> Seq<Seq<char>> {
    Seq::new(count as nat, |j: int| reads[j]->Ok_0@)
}

/// A run over `reads` stops after `count` lines: every read before that
/// succeeded, and the next one, if there is one, failed.
pub open spec fn stops_after(reads: Seq<Result<String, String>>, count: int) -> bool {
    &&& 0 <= count <= reads.len()
    &&& forall|j: int| 0 <= j < count ==> (#[trigger] reads[j]) is Ok
    &&& count < reads.len() ==> reads[count] is Err
}

/// The record of a run over a finite input.
#[derive(Debug, PartialEq, Eq)]
pub struct FilterRun {
    /// The lines that were handed out, in the order in which they were.
    pub emitted: Vec<String>,
    /// The number of lines that were read.
    pub lines_read: usize,
    /// The state in which the filter ended.
    pub state: FilterState,
    /// Success, or the error that ended the run.
    pub outcome: Result<(), SgrepError>,
}

/// What a run of the pattern over `reads`, followed by the end of the input,
/// leaves behind.
pub open spec fn run_meets(
    pattern: Seq<char>,
    reads: Seq<Result<String, String>>,
    run: FilterRun,
) -> bool {
    &&& stops_after(reads, run.lines_read as int)
    &&& texts(run.emitted@) == matching_lines(pattern, lines_before(reads, run.lines_read as int))
    &&& if run.lines_read == reads.len() {
        run.state == FilterState::Done && run.outcome is Ok
    } else {
        &&& run.state == FilterState::Failed
        &&& run.outcome matches Err(SgrepError::LineReadError { position, cause })
        &&& position == Some((run.lines_read + 1) as u64)
        &&& cause@ == reads[run.lines_read as int]->Err_0@
    }
}

/// Runs a filter over a finite input: each element is a line that was read,
/// or the cause for which a read failed; the end of the vector is the end of
/// the input. The machine is driven exactly as the owner of a live stream
/// drives it, one event at a time.
pub fn filter_lines(pattern: CompiledPattern, reads: &Vec<Result<String, String>>) -> (run:
    FilterRun)
    ensures
        run_meets(pattern@, reads@, run),
{
    let ghost text = pattern@;
    let mut filter = LineFilter::new(pattern);
    let mut emitted: Vec<String> = Vec::new();
    let _ = filter.step(FilterEvent::Start);
    let mut i: usize = 0;
    assert(texts(emitted@) =~= matching_lines(text, lines_before(reads@, 0))) by {
        reveal(Seq::filter);
    }
    while i < reads.len()
        invariant
            i <= reads.len(),
            text == pattern@,
            filter.pattern_text() == text,
            filter.at() == (FilterProgress { state: FilterState::Reading, lines_read: i as u64 }),
            forall|j: int| 0 <= j < i ==> (#[trigger] reads@[j]) is Ok,
            texts(emitted@) == matching_lines(text, lines_before(reads@, i as int)),
        decreases reads.len() - i,
    {
        match &reads[i] {
            Ok(line) => {
                proof {
                    lemma_matching_lines_push(text, lines_before(reads@, i as int), line@);
                    assert(lines_before(reads@, i + 1) =~= lines_before(reads@, i as int).push(
                        line@,
                    ));
                }
                let ghost before = emitted@;
                match filter.step(FilterEvent::Line(line.clone())) {
                    Some(FilterAction::Emit(found)) => {
                        emitted.push(found);
                        let _ = filter.step(FilterEvent::Emitted);
                        assert(texts(emitted@) =~= texts(before).push(line@));
                    },
                    _ => {},
                }
            },
            Err(cause) => {
                match filter.step(FilterEvent::ReadFailure(cause.clone())) {
                    Some(FilterAction::Abort(error)) => {
                        return FilterRun {
                            emitted,
                            lines_read: i,
                            state: filter.progress().state,
                            outcome: Err(error),
                        };
                    },
                    _ => {
                        return unreached();
                    },
                }
            },
        }
        i += 1;
    }
    let _ = filter.step(FilterEvent::EndOfStream);
    FilterRun { emitted, lines_read: i, state: filter.progress().state, outcome: Ok(()) }
}

/// Order is kept: over an input whose reads all succeed, a run hands out
/// exactly the lines that the pattern matches, each once, in the order of
/// the input.
pub proof fn lemma_run_keeps_order(
    pattern: Seq<char>,
    reads: Seq<Result<String, String>>,
    run: FilterRun,
)
    requires
        run_meets(pattern, reads, run),
        forall|j: int| 0 <= j < reads.len() ==> (#[trigger] reads[j]) is Ok,
    ensures
        texts(run.emitted@) == matching_lines(pattern, lines_before(reads, reads.len() as int)),
{
}

/// A run over an input whose reads all succeed reads every line and ends in
/// `Done` with success, however many lines matched.
pub proof fn lemma_run_ends_normally(
    pattern: Seq<char>,
    reads: Seq<Result<String, String>>,
    run: FilterRun,
)
    requires
        run_meets(pattern, reads, run),
        forall|j: int| 0 <= j < reads.len() ==> (#[trigger] reads[j]) is Ok,
    ensures
        run.lines_read == reads.len(),
        run.state == FilterState::Done,
        run.outcome is Ok,
{
}

} // verus!
