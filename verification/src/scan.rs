//! The scan engine: drives one block-mode scan and the callback protocol
//! shared with streaming scans.
//!
//! The match model: a pattern matches wherever its literal occurs in the
//! input; an end-anchored pattern only where that occurrence ends at the
//! end of the complete input.  Matches are delivered in increasing
//! end-offset order; at one end offset, in the database's pattern order.
//! No start-offset order is promised for overlapping matches of different
//! patterns, and none is imposed.
//!
//! The callback receives each match and answers with a continuation
//! signal; `Terminate` stops delivery at once and the call reports
//! [`Error::ScanTerminated`], a successful early exit distinguished from
//! genuine failures only by its variant.

use vstd::prelude::*;

use crate::database::{
    patterns_view, patterns_wf, required_scratch, Database, DbMode, Pattern, PatternView,
    RUNTIME_PLATFORM, RUNTIME_VERSION,
};
use crate::errors::Error;
use crate::scratch::Scratch;

verus! {

/// One match: the pattern that matched and the half-open byte range
/// `from..to` of the input (absolute offsets from the start of the stream,
/// for streaming scans) where its literal stands.
#[derive(Clone, Copy, Debug, PartialEq, Eq, Structural)]
pub struct MatchEvent {
    /// Identifier of the pattern that matched.
    pub id: u32,
    /// Start offset of the matched range.
    pub from: usize,
    /// End offset of the matched range (one past the last byte).
    pub to: usize,
}

/// The continuation signal a callback answers with.
#[derive(Clone, Copy, Debug, PartialEq, Eq, Structural)]
pub enum Matching {
    /// Keep scanning.
    Continue,
    /// Cease invoking the callback; the call returns
    /// [`Error::ScanTerminated`].
    Terminate,
}

/// The observed-event record a callback keeps, as a mathematical
/// sequence.  The accessor carrying it is ghost and never runs; the alias
/// lets an unverified implementor write its signature without naming the
/// proof library's types.
pub type ObservedEvents = Seq<MatchEvent>;

/// A caller-supplied receiver of match events, invoked synchronously, on
/// the scanning call's own stack, once per match.
///
/// `observed` is the implementor's abstract record of the events received
/// so far, and each `on_match` call appends the event it was handed.  The
/// scanning calls promise in turn that the events their log reports as
/// delivered are exactly the ones appended to the callback, so a scan
/// cannot claim deliveries it never made.
pub trait MatchEventCallback {
    /// The events this callback has received so far, oldest first.
    spec fn observed(&self) -> ObservedEvents;

    /// Receives one match; the answer may request early termination.
    fn on_match(&mut self, event: &MatchEvent) -> (r: Matching)
        ensures
            final(self).observed() == old(self).observed().push(*event),
    ;
}

/// The event reported when `pattern`'s literal ends at offset `end`.
pub open spec fn match_event(pattern: PatternView, end: int) -> MatchEvent {
    MatchEvent {
        id: pattern.id,
        from: (end - pattern.literal.len()) as usize,
        to: end as usize,
    }
}

/// Whether `pattern`'s literal occupies `input[end - len .. end]`.
pub open spec fn literal_ends_at(pattern: PatternView, input: Seq<u8>, end: int) -> bool {
    &&& pattern.literal.len() <= end <= input.len()
    &&& input.subrange(end - pattern.literal.len(), end) == pattern.literal
}

/// The unanchored matches ending at offset `end`, over the first `k`
/// patterns, in pattern order.
pub open spec fn inner_row_upto(
    pats: Seq<PatternView>,
    input: Seq<u8>,
    end: int,
    k: int,
) -> Seq<MatchEvent>
    decreases k,
{
    if k <= 0 {
        Seq::empty()
    } else {
        inner_row_upto(pats, input, end, k - 1) + if !pats[k - 1].anchored_end
            && literal_ends_at(pats[k - 1], input, end) {
            seq![match_event(pats[k - 1], end)]
        } else {
            Seq::empty()
        }
    }
}

/// The unanchored matches ending at offset `end`, in pattern order.
pub open spec fn inner_row(pats: Seq<PatternView>, input: Seq<u8>, end: int) -> Seq<MatchEvent> {
    inner_row_upto(pats, input, end, pats.len() as int)
}

/// The unanchored matches with end offsets in `(lo, hi]`, in increasing
/// end-offset order and pattern order within one end offset.
pub open spec fn inner_between(
    pats: Seq<PatternView>,
    input: Seq<u8>,
    lo: int,
    hi: int,
) -> Seq<MatchEvent>
    decreases hi - lo,
{
    if hi <= lo {
        Seq::empty()
    } else {
        inner_between(pats, input, lo, hi - 1) + inner_row(pats, input, hi)
    }
}

/// The end-anchored matches of the complete input, over the first `k`
/// patterns: those whose literal ends exactly at `input.len()`.
pub open spec fn eos_row_upto(pats: Seq<PatternView>, input: Seq<u8>, k: int) -> Seq<MatchEvent>
    decreases k,
{
    if k <= 0 {
        Seq::empty()
    } else {
        eos_row_upto(pats, input, k - 1) + if pats[k - 1].anchored_end && literal_ends_at(
            pats[k - 1],
            input,
            input.len() as int,
        ) {
            seq![match_event(pats[k - 1], input.len() as int)]
        } else {
            Seq::empty()
        }
    }
}

/// The end-anchored matches of the complete input, in pattern order.
pub open spec fn eos_matches(pats: Seq<PatternView>, input: Seq<u8>) -> Seq<MatchEvent> {
    eos_row_upto(pats, input, pats.len() as int)
}

/// Every match a block scan of `input` delivers, in delivery order: all
/// unanchored matches by increasing end offset, then the end-anchored
/// matches recognized at the end of the input.
pub open spec fn block_matches(pats: Seq<PatternView>, input: Seq<u8>) -> Seq<MatchEvent> {
    inner_between(pats, input, 0, input.len() as int) + eos_matches(pats, input)
}

/// The observable record of one scanning call: which events the callback
/// received, and what it answered to each.
pub ghost struct ScanLog {
    /// The events handed to the callback, in delivery order.
    pub delivered: Seq<MatchEvent>,
    /// The callback's answer to each delivered event.
    pub responses: Seq<Matching>,
}

/// The callback protocol: of the candidate sequence `events`, a scanning
/// call delivers a prefix, cut exactly at the first `Terminate` answer.
/// The call returns `Ok` when every event was delivered and none was
/// answered with `Terminate`, and `ScanTerminated` when a `Terminate`
/// answer cut the delivery, with no further invocation after the cut.
pub open spec fn delivery_ok(
    events: Seq<MatchEvent>,
    log: ScanLog,
    r: Result<(), Error>,
) -> bool {
    &&& log.responses.len() == log.delivered.len()
    &&& log.delivered.is_prefix_of(events)
    &&& forall|i: int|
        0 <= i < log.responses.len() - 1 ==> #[trigger] log.responses[i] == Matching::Continue
    &&& match r {
        Ok(_) => log.delivered == events && (forall|i: int|
            0 <= i < log.responses.len() ==> #[trigger] log.responses[i] == Matching::Continue),
        Err(e) => {
            &&& e == Error::ScanTerminated
            &&& log.delivered.len() > 0
            &&& log.responses.last() == Matching::Terminate
        },
    }
}

/// An empty scanning record: nothing delivered, nothing answered.
pub open spec fn empty_log() -> ScanLog {
    ScanLog { delivered: Seq::empty(), responses: Seq::empty() }
}

/// Hands `events` to the callback in order, honoring the termination
/// protocol of [`delivery_ok`].
pub(crate) fn deliver_events<C: MatchEventCallback>(events: &Vec<MatchEvent>, callback: &mut C) -> (res: (
    Result<(), Error>,
    Ghost<ScanLog>,
))
    ensures
        delivery_ok(events@, res.1@, res.0),
        final(callback).observed() == old(callback).observed() + res.1@.delivered,
{
    let ghost mut delivered: Seq<MatchEvent> = Seq::empty();
    let ghost mut responses: Seq<Matching> = Seq::empty();
    proof {
        assert(callback.observed() + delivered =~= callback.observed());
    }
    let mut i: usize = 0;
    while i < events.len()
        invariant
            i <= events.len(),
            delivered == events@.take(i as int),
            responses.len() == i as int,
            forall|j: int| 0 <= j < i ==> #[trigger] responses[j] == Matching::Continue,
            callback.observed() == old(callback).observed() + delivered,
        decreases events.len() - i,
    {
        let event = events[i];
        let answer = callback.on_match(&event);
        proof {
            delivered = delivered.push(event);
            responses = responses.push(answer);
            assert(events@.take(i + 1) =~= events@.take(i as int).push(events@[i as int]));
            assert(callback.observed() =~= old(callback).observed() + delivered);
        }
        i += 1;
        match answer {
            Matching::Continue => {},
            Matching::Terminate => {
                proof {
                    assert(delivered.is_prefix_of(events@)) by {
                        assert(delivered =~= events@.subrange(0, i as int));
                    }
                }
                return (Err(Error::ScanTerminated), Ghost(ScanLog { delivered, responses }));
            },
        }
    }
    proof {
        assert(delivered =~= events@);
    }
    (Ok(()), Ghost(ScanLog { delivered, responses }))
}

/// Whether `pattern`'s literal occupies the `end`-terminated window, the
/// exec side of [`literal_ends_at`].
fn literal_ends_at_exec(pattern: &Pattern, input: &Vec<u8>, end: usize) -> (b: bool)
    requires
        end <= input@.len(),
    ensures
        b == literal_ends_at(pattern@, input@, end as int),
{
    let n = pattern.literal.len();
    if n > end {
        return false;
    }
    let start = end - n;
    let mut j: usize = 0;
    while j < n
        invariant
            n == pattern.literal@.len(),
            n <= end <= input@.len(),
            start == end - n,
            j <= n,
            forall|t: int| 0 <= t < j ==> input@[start + t] == pattern.literal@[t],
        decreases n - j,
    {
        if input[start + j] != pattern.literal[j] {
            proof {
                let window = input@.subrange(start as int, end as int);
                assert(window[j as int] == input@[start + j]);
                assert(window != pattern.literal@);
            }
            return false;
        }
        j += 1;
    }
    proof {
        assert(input@.subrange(start as int, end as int) =~= pattern.literal@);
    }
    true
}

/// Collects every unanchored match with end offset in `(lo, input.len()]`,
/// in delivery order.
pub(crate) fn find_inner_matches(patterns: &Vec<Pattern>, input: &Vec<u8>, lo: usize) -> (r: Vec<
    MatchEvent,
>)
    requires
        lo <= input@.len(),
    ensures
        r@ == inner_between(patterns_view(patterns@), input@, lo as int, input@.len() as int),
{
    let ghost pats = patterns_view(patterns@);
    let mut out: Vec<MatchEvent> = Vec::new();
    let mut end: usize = lo;
    while end < input.len()
        invariant
            lo <= end <= input@.len(),
            pats == patterns_view(patterns@),
            out@ == inner_between(pats, input@, lo as int, end as int),
        decreases input@.len() - end,
    {
        end = end + 1;
        let ghost row_base = out@;
        let mut k: usize = 0;
        while k < patterns.len()
            invariant
                lo < end <= input@.len(),
                pats == patterns_view(patterns@),
                k <= patterns@.len(),
                row_base == inner_between(pats, input@, lo as int, end - 1),
                out@ == row_base + inner_row_upto(pats, input@, end as int, k as int),
            decreases patterns@.len() - k,
        {
            proof {
                assert(pats[k as int] == patterns@[k as int]@);
            }
            let pattern = &patterns[k];
            if !pattern.anchored_end && literal_ends_at_exec(pattern, input, end) {
                let n = pattern.literal.len();
                out.push(MatchEvent { id: pattern.id, from: end - n, to: end });
                proof {
                    assert(out@ =~= row_base + inner_row_upto(pats, input@, end as int, k + 1));
                }
            } else {
                proof {
                    assert(out@ =~= row_base + inner_row_upto(pats, input@, end as int, k + 1));
                }
            }
            k += 1;
        }
        proof {
            assert(out@ == inner_between(pats, input@, lo as int, end as int));
        }
    }
    out
}

/// Collects the end-anchored matches recognized at the end of the complete
/// input, in pattern order.
pub(crate) fn find_eos_matches(patterns: &Vec<Pattern>, input: &Vec<u8>) -> (r: Vec<MatchEvent>)
    ensures
        r@ == eos_matches(patterns_view(patterns@), input@),
{
    let ghost pats = patterns_view(patterns@);
    let end = input.len();
    let mut out: Vec<MatchEvent> = Vec::new();
    let mut k: usize = 0;
    while k < patterns.len()
        invariant
            end == input@.len(),
            pats == patterns_view(patterns@),
            k <= patterns@.len(),
            out@ == eos_row_upto(pats, input@, k as int),
        decreases patterns@.len() - k,
    {
        proof {
            assert(pats[k as int] == patterns@[k as int]@);
        }
        let pattern = &patterns[k];
        if pattern.anchored_end && literal_ends_at_exec(pattern, input, end) {
            let n = pattern.literal.len();
            out.push(MatchEvent { id: pattern.id, from: end - n, to: end });
            proof {
                assert(out@ =~= eos_row_upto(pats, input@, k + 1));
            }
        } else {
            proof {
                assert(out@ =~= eos_row_upto(pats, input@, k + 1));
            }
        }
        k += 1;
    }
    out
}

/// The compatibility gate every call checks before touching a database:
/// version, then platform, then mode, each rejected with its own error.
pub open spec fn db_gate(db: Database, expected_mode: DbMode) -> Option<Error> {
    if db.spec_version() != RUNTIME_VERSION {
        Some(Error::DbVersionError)
    } else if db.spec_platform() != RUNTIME_PLATFORM {
        Some(Error::DbPlatformError)
    } else if db.spec_mode() != expected_mode {
        Some(Error::DbModeError)
    } else {
        None
    }
}

/// What stops a block scan before any match work: an incompatible
/// database, or a scratch workspace smaller than the database requires
/// (rejected with [`Error::Invalid`]).
pub open spec fn block_scan_gate(db: Database, scratch: Scratch) -> Option<Error> {
    match db_gate(db, DbMode::Block) {
        Some(e) => Some(e),
        None => if scratch.spec_size() < required_scratch(db.spec_patterns()) {
            Some(Error::Invalid)
        } else {
            None
        },
    }
}

/// The exec side of [`db_gate`].
pub(crate) fn check_db(db: &Database, expected_mode: DbMode) -> (r: Option<Error>)
    ensures
        r == db_gate(*db, expected_mode),
{
    if db.version() != RUNTIME_VERSION {
        Some(Error::DbVersionError)
    } else if db.platform() != RUNTIME_PLATFORM {
        Some(Error::DbPlatformError)
    } else if db.mode() != expected_mode {
        Some(Error::DbModeError)
    } else {
        None
    }
}

/// No match is recognized in empty input: a literal is nonempty, so it has
/// nowhere to stand.
pub proof fn lemma_no_matches_in_empty(pats: Seq<PatternView>, k: int)
    requires
        patterns_wf(pats),
        0 <= k <= pats.len(),
    ensures
        eos_row_upto(pats, Seq::<u8>::empty(), k) == Seq::<MatchEvent>::empty(),
    decreases k,
{
    if k > 0 {
        lemma_no_matches_in_empty(pats, k - 1);
        assert(pats[k - 1].literal.len() > 0);
        assert(eos_row_upto(pats, Seq::<u8>::empty(), k) =~= Seq::<MatchEvent>::empty());
    }
}

/// Block-mode scan: drives one scan of the whole `data` buffer against
/// `db`, handing each match to `callback` under the protocol of
/// [`delivery_ok`].
///
/// An incompatible or undersized pairing is rejected with its exact
/// error before the callback is ever invoked.  Otherwise the candidate
/// matches are
/// [`block_matches`]`(db.spec_patterns(), data@)`; in particular an empty
/// buffer is a legal scan that succeeds with zero callback invocations.
/// The log's delivered events are the ones the callback actually
/// received, appended to its observed record in order.  The scratch
/// workspace is borrowed exclusively for the whole call, so a concurrent
/// reuse cannot arise, and is handed back unchanged.
pub fn scan<C: MatchEventCallback>(
    db: &Database,
    data: &Vec<u8>,
    scratch: &mut Scratch,
    callback: &mut C,
) -> (res: (Result<(), Error>, Ghost<ScanLog>))
    requires
        db.wf(),
    ensures
        *final(scratch) == *old(scratch),
        match block_scan_gate(*db, *old(scratch)) {
            Some(e) => res.0 == Err::<(), Error>(e) && res.1@ == empty_log(),
            None => delivery_ok(block_matches(db.spec_patterns(), data@), res.1@, res.0),
        },
        block_scan_gate(*db, *old(scratch)) is None && data@.len() == 0 ==> res.0 is Ok
            && res.1@.delivered.len() == 0,
        final(callback).observed() == old(callback).observed() + res.1@.delivered,
{
    if let Some(e) = check_db(db, DbMode::Block) {
        proof {
            assert(callback.observed() + empty_log().delivered =~= callback.observed());
        }
        return (Err(e), Ghost(empty_log()));
    }
    if scratch.size() < db.scratch_size() {
        proof {
            assert(callback.observed() + empty_log().delivered =~= callback.observed());
        }
        return (Err(Error::Invalid), Ghost(empty_log()));
    }
    let mut events = find_inner_matches(db.patterns(), data, 0);
    let eos = find_eos_matches(db.patterns(), data);
    let ghost inner = events@;
    let mut i: usize = 0;
    while i < eos.len()
        invariant
            i <= eos@.len(),
            events@ == inner + eos@.take(i as int),
        decreases eos@.len() - i,
    {
        events.push(eos[i]);
        proof {
            assert(events@ =~= inner + eos@.take(i + 1));
        }
        i += 1;
    }
    proof {
        assert(events@ =~= block_matches(db.spec_patterns(), data@));
        if data@.len() == 0 {
            assert(data@ =~= Seq::<u8>::empty());
            lemma_no_matches_in_empty(db.spec_patterns(), db.spec_patterns().len() as int);
            assert(eos_matches(db.spec_patterns(), data@) == Seq::<MatchEvent>::empty());
            assert(events@ =~= Seq::<MatchEvent>::empty());
        }
    }
    let res = deliver_events(&events, callback);
    proof {
        if data@.len() == 0 {
            assert(res.1@.delivered.len() == 0);
            assert(res.0 is Ok) by {
                if res.0 is Err {
                    assert(res.1@.delivered.len() > 0);
                }
            }
        }
    }
    res
}

} // verus!
