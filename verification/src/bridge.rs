//! The candidate bridge: which of the library's candidates are forwarded
//! to the external completer process, how the process's output becomes a
//! new candidate list, and what each outcome of the process means.

use vstd::prelude::*;
use vstd::slice::slice_to_vec;

verus! {

/// The subsequence of `lines` whose entries are non-empty, in order.
pub open spec fn keep_nonempty(lines: Seq<Seq<u8>>) -> Seq<Seq<u8>>
    decreases lines.len(),
{
    if lines.len() == 0 {
        Seq::empty()
    } else {
        let rest = keep_nonempty(lines.drop_last());
        if lines.last().len() != 0 {
            rest.push(lines.last())
        } else {
            rest
        }
    }
}

/// The candidate lines the bridge writes to the completer process.
///
/// With exactly one candidate, that candidate; with more than one, every
/// candidate but the first, whose array slot holds the library's
/// common-prefix placeholder rather than a real candidate. Empty
/// candidates are never written: they have no line of their own in the
/// newline-separated protocol.
pub open spec fn forwarded(cands: Seq<Seq<u8>>) -> Seq<Seq<u8>> {
    if cands.len() <= 1 {
        keep_nonempty(cands)
    } else {
        keep_nonempty(cands.drop_first())
    }
}

/// Select the candidate lines to stream to the completer process, in the
/// order they are to be written.
pub fn lines_to_send(matches: &Vec<Vec<u8>>) -> (sent: Vec<Vec<u8>>)
    ensures
        sent.deep_view() == forwarded(matches.deep_view()),
{
    let ghost m: Seq<Seq<u8>> = matches.deep_view();
    if matches.len() == 0 {
        let sent: Vec<Vec<u8>> = Vec::new();
        proof {
            assert(sent.deep_view() =~~= forwarded(m));
        }
        return sent;
    }
    let ghost tail: Seq<Seq<u8>> = if m.len() <= 1 { m } else { m.drop_first() };
    let start: usize = if matches.len() == 1 { 0 } else { 1 };
    let mut sent: Vec<Vec<u8>> = Vec::new();
    let mut i: usize = start;
    while i < matches.len()
        invariant
            m == matches.deep_view(),
            m.len() == matches@.len(),
            m.len() >= 1,
            tail == (if m.len() <= 1 { m } else { m.drop_first() }),
            start == (if m.len() == 1 { 0int } else { 1int }),
            start <= i <= matches@.len(),
            sent.deep_view() == keep_nonempty(tail.take(i - start)),
        decreases matches@.len() - i,
    {
        let ghost j: int = i - start;
        let ghost prev: Seq<Seq<u8>> = sent.deep_view();
        let line: &Vec<u8> = &matches[i];
        if line.len() != 0 {
            sent.push(slice_to_vec(line.as_slice()));
        }
        proof {
            assert(tail[j] == m[i as int]);
            assert(tail.take(j + 1).drop_last() =~= tail.take(j));
            assert(tail.take(j + 1).last() == tail[j]);
            if line@.len() != 0 {
                assert(sent.deep_view() =~~= prev.push(line@));
            }
            assert(sent.deep_view() =~~= keep_nonempty(tail.take(j + 1)));
        }
        i = i + 1;
    }
    proof {
        assert(tail.take(i - start) =~= tail);
    }
    sent
}

/// The candidate list assembled from the completer's output lines: the
/// lines themselves, with an empty placeholder prepended when more than
/// one line was produced, filling the library's common-prefix slot.
pub open spec fn assembled<T>(lines: Seq<Seq<T>>) -> Seq<Seq<T>> {
    if lines.len() > 1 {
        seq![Seq::<T>::empty()] + lines
    } else {
        lines
    }
}

/// Turn the completer's output lines into the candidate list handed back
/// to the library. A single line (or none) is taken as-is; more than one
/// line gets an empty placeholder prepended for the common-prefix slot.
pub fn assemble_output(lines: Vec<String>) -> (out: Vec<String>)
    ensures
        out.deep_view() == assembled(lines.deep_view()),
        lines@.len() > 1 ==> out@.len() == lines@.len() + 1 && out@[0]@ == Seq::<char>::empty(),
        lines@.len() <= 1 ==> out@ == lines@,
{
    let ghost orig: Seq<Seq<char>> = lines.deep_view();
    let mut out = lines;
    if out.len() > 1 {
        out.insert(0, String::new());
    }
    proof {
        assert(out.deep_view() =~~= assembled(orig));
    }
    out
}

/// What happened to one run of the external completer process.
#[derive(Debug)]
pub enum HelperEvent {
    /// The process could not be spawned at all (completer missing or not
    /// executable).
    SpawnFailed,
    /// The process was spawned, but waiting for it to finish failed.
    WaitFailed,
    /// The process exited with a nonzero status.
    ExitedNonzero,
    /// The process exited with status zero; the payload is its standard
    /// output, one line per entry, trailing newlines stripped.
    ExitedOk(Vec<String>),
}

/// The bridge's verdict on one completion request.
#[derive(Debug, PartialEq)]
pub enum BridgeResult {
    /// Leave the library's own candidate array untouched.
    UseOriginal,
    /// Hand the library this candidate list instead.
    Replace(Vec<String>),
}

/// The bridge's verdict, together with whether the display has to be
/// refreshed before control returns to the library.
#[derive(Debug)]
pub struct BridgeDecision {
    pub refresh: bool,
    pub result: BridgeResult,
}

/// Interpret the outcome of one completer run.
///
/// A completer that could not be spawned or waited on leaves the library's
/// own candidates in force and nothing is redrawn. Once the completer has
/// run, the display is refreshed: a nonzero exit empties the candidate
/// list (an explicit "no matches" that suppresses default completion), and
/// a zero exit replaces it with the completer's output lines, assembled
/// under the common-prefix convention.
pub fn decide(event: HelperEvent) -> (d: BridgeDecision)
    ensures
        event is SpawnFailed ==> !d.refresh && d.result is UseOriginal,
        event is WaitFailed ==> !d.refresh && d.result is UseOriginal,
        event is ExitedNonzero ==> d.refresh && (d.result matches BridgeResult::Replace(v)
            && v@.len() == 0),
        event matches HelperEvent::ExitedOk(lines) ==> d.refresh
            && (d.result matches BridgeResult::Replace(v)
            && v.deep_view() == assembled(lines.deep_view())
            && (lines@.len() > 1 ==> v@.len() == lines@.len() + 1 && v@[0]@ == Seq::<char>::empty())
            && (lines@.len() <= 1 ==> v@ == lines@)),
{
    match event {
        HelperEvent::SpawnFailed => BridgeDecision {
            refresh: false,
            result: BridgeResult::UseOriginal,
        },
        HelperEvent::WaitFailed => BridgeDecision {
            refresh: false,
            result: BridgeResult::UseOriginal,
        },
        HelperEvent::ExitedNonzero => BridgeDecision {
            refresh: true,
            result: BridgeResult::Replace(Vec::new()),
        },
        HelperEvent::ExitedOk(lines) => BridgeDecision {
            refresh: true,
            result: BridgeResult::Replace(assemble_output(lines)),
        },
    }
}

/// A list of candidates that are all non-empty passes through
/// `keep_nonempty` unchanged.
proof fn lemma_keep_nonempty_all(lines: Seq<Seq<u8>>)
    requires
        forall|i: int| 0 <= i < lines.len() ==> (#[trigger] lines[i]).len() != 0,
    ensures
        keep_nonempty(lines) == lines,
    decreases lines.len(),
{
    if lines.len() > 0 {
        assert(forall|i: int| 0 <= i < lines.len() - 1 ==> lines.drop_last()[i] == lines[i]);
        lemma_keep_nonempty_all(lines.drop_last());
        assert(keep_nonempty(lines) =~= lines);
    } else {
        assert(keep_nonempty(lines) =~= lines);
    }
}

/// Law: with exactly one non-empty candidate, that candidate itself is
/// forwarded to the completer; with two or more, the first (the
/// common-prefix slot) is never forwarded, and the remaining candidates
/// are forwarded in order and in full.
pub proof fn lemma_forwarded_skips_prefix_slot(cands: Seq<Seq<u8>>)
    requires
        forall|i: int| 0 <= i < cands.len() ==> (#[trigger] cands[i]).len() != 0,
    ensures
        cands.len() == 1 ==> forwarded(cands) == cands,
        cands.len() >= 2 ==> forwarded(cands) == cands.drop_first(),
{
    if cands.len() == 1 {
        lemma_keep_nonempty_all(cands);
    }
    if cands.len() >= 2 {
        assert(forall|i: int| 0 <= i < cands.len() - 1 ==> cands.drop_first()[i] == cands[i + 1]);
        lemma_keep_nonempty_all(cands.drop_first());
    }
}

/// Law: a completer that echoes its input back verbatim reproduces the
/// original candidate set under the bridge's own conventions. For at most
/// one (non-empty) candidate the result is exactly the original list; for
/// two candidates the lone real candidate comes back alone; for three or
/// more the real candidates come back in order behind a fresh empty
/// placeholder in the common-prefix slot. The skip-on-send and
/// prepend-on-receive rules are therefore consistent with each other: no
/// real candidate is ever lost or duplicated by crossing the process
/// boundary both ways.
pub proof fn lemma_echo_round_trip(cands: Seq<Seq<u8>>)
    requires
        forall|i: int| 0 <= i < cands.len() ==> (#[trigger] cands[i]).len() != 0,
    ensures
        cands.len() <= 1 ==> assembled(forwarded(cands)) == cands,
        cands.len() == 2 ==> assembled(forwarded(cands)) == cands.drop_first(),
        cands.len() >= 3 ==> assembled(forwarded(cands)) == seq![Seq::<u8>::empty()]
            + cands.drop_first(),
{
    lemma_forwarded_skips_prefix_slot(cands);
    if cands.len() == 0 {
        assert(keep_nonempty(cands) =~= cands);
    }
}

/// Where a completion request's candidates come from when the bridge asks
/// the library for its defaults.
#[derive(Debug, Clone, Copy, PartialEq, Eq, Structural)]
pub enum MatchGenerator {
    /// The completion provider that was installed before the hijack began.
    SavedCallback,
    /// The library's configured custom entry-name completion function.
    CustomEntryFunction,
    /// The library's built-in filename completion function.
    FilenameCompletion,
}

/// The source the library's candidates are taken from: the saved callback's
/// own answer when it produced one, otherwise the library's match generator
/// run with the custom entry function if one is configured, and with
/// filename completion if not.
pub open spec fn spec_completion_source(saved_yielded: bool, entry_function_set: bool) -> MatchGenerator {
    if saved_yielded {
        MatchGenerator::SavedCallback
    } else if entry_function_set {
        MatchGenerator::CustomEntryFunction
    } else {
        MatchGenerator::FilenameCompletion
    }
}

/// Decide where the default candidates for a request come from.
///
/// `saved_yielded` says whether a previously installed completion callback
/// existed and returned a candidate array of its own; `entry_function_set`
/// says whether the library has a custom entry-name completion function
/// configured.
pub fn completion_source(saved_yielded: bool, entry_function_set: bool) -> (g: MatchGenerator)
    ensures
        g == spec_completion_source(saved_yielded, entry_function_set),
{
    if saved_yielded {
        MatchGenerator::SavedCallback
    } else if entry_function_set {
        MatchGenerator::CustomEntryFunction
    } else {
        MatchGenerator::FilenameCompletion
    }
}

} // verus!
