//! Streams: stateful handles carrying partial-match state across chunked
//! input.
//!
//! A stream is bound to one streaming-mode database for its whole life and
//! accepts chunks while it exists; closing it (a move) flushes the matches
//! recognized only at end of input and releases the handle, so feeding
//! after close is ruled out by construction.  Dropping a stream without
//! closing it still releases it, but flushes nothing: flushing needs a
//! scratch space and a callback that a drop cannot assume.  Chunks must be
//! fed in true input order; the automaton state is order-sensitive and an
//! out-of-order feed yields wrong matches with no detectable error.

use vstd::prelude::*;

use crate::database::{
    patterns_view, patterns_wf, required_scratch, Database, DbMode, Pattern, PatternView,
};
use crate::errors::Error;
use crate::scan::{
    block_matches, check_db, db_gate, deliver_events, delivery_ok, empty_log, eos_matches,
    find_eos_matches, find_inner_matches, inner_between, inner_row_upto, literal_ends_at,
    MatchEventCallback, ScanLog,
};
use crate::scratch::Scratch;

verus! {

/// Byte-for-byte copy of a buffer.
fn clone_bytes(v: &Vec<u8>) -> (r: Vec<u8>)
    ensures
        r@ == v@,
{
    let mut out: Vec<u8> = Vec::new();
    let mut i: usize = 0;
    while i < v.len()
        invariant
            i <= v@.len(),
            out@ == v@.take(i as int),
        decreases v@.len() - i,
    {
        out.push(v[i]);
        proof {
            assert(out@ =~= v@.take(i + 1));
        }
        i += 1;
    }
    proof {
        assert(v@.take(v@.len() as int) =~= v@);
    }
    out
}

/// Copy of a pattern set with the same mathematical value.
fn clone_patterns(patterns: &Vec<Pattern>) -> (r: Vec<Pattern>)
    ensures
        patterns_view(r@) == patterns_view(patterns@),
{
    let mut out: Vec<Pattern> = Vec::new();
    let mut i: usize = 0;
    while i < patterns.len()
        invariant
            i <= patterns@.len(),
            out@.len() == i as int,
            forall|j: int| 0 <= j < i ==> #[trigger] out@[j]@ == patterns@[j]@,
        decreases patterns@.len() - i,
    {
        let p = &patterns[i];
        out.push(Pattern { id: p.id, literal: clone_bytes(&p.literal), anchored_end: p.anchored_end });
        i += 1;
    }
    proof {
        assert(patterns_view(out@) =~= patterns_view(patterns@));
    }
    out
}

/// An in-progress streaming scan: the automaton state accumulated over the
/// chunks fed so far.
///
/// Exclusive per concurrent call: every feed borrows the handle mutably,
/// so two concurrent feeds of one stream cannot exist.
pub struct Stream {
    pub(crate) patterns: Vec<Pattern>,
    pub(crate) history: Vec<u8>,
    pub(crate) required: usize,
}

impl Stream {
    /// The patterns of the database the stream is bound to.
    pub closed spec fn spec_patterns(&self) -> Seq<PatternView> {
        patterns_view(self.patterns@)
    }

    /// The input fed so far, from the start of the stream.
    pub closed spec fn spec_history(&self) -> Seq<u8> {
        self.history@
    }

    /// A healthy handle: bound to a valid pattern set, with its scratch
    /// requirement recorded faithfully.
    pub closed spec fn wf(&self) -> bool {
        &&& patterns_wf(self.spec_patterns())
        &&& self.required == required_scratch(self.spec_patterns())
    }

    /// Opens a fresh stream over `db`.
    ///
    /// The compatibility gate is the same as a block scan's, demanding
    /// streaming mode; an incompatible database is rejected with its exact
    /// error and no handle is created.
    pub fn open(db: &Database) -> (r: Result<Stream, Error>)
        requires
            db.wf(),
        ensures
            match db_gate(*db, DbMode::Streaming) {
                Some(e) => r matches Err(got) && got == e,
                None => r matches Ok(s) && s.wf() && s.spec_patterns() == db.spec_patterns()
                    && s.spec_history() == Seq::<u8>::empty(),
            },
    {
        if let Some(e) = check_db(db, DbMode::Streaming) {
            return Err(e);
        }
        Ok(
            Stream {
                patterns: clone_patterns(db.patterns()),
                history: Vec::new(),
                required: db.scratch_size(),
            },
        )
    }

    /// Scans one more chunk against the accumulated state.
    ///
    /// The candidate matches of this call are exactly the unanchored
    /// matches of the extended history whose end offset lies inside the
    /// new chunk, delivered under the protocol of [`delivery_ok`]; offsets
    /// are absolute, so a match may start inside an earlier chunk.  An
    /// undersized scratch is rejected with [`Error::Invalid`] before any
    /// callback work, leaving the stream unchanged.
    pub fn feed<C: MatchEventCallback>(
        &mut self,
        chunk: &Vec<u8>,
        scratch: &mut Scratch,
        callback: &mut C,
    ) -> (res: (Result<(), Error>, Ghost<ScanLog>))
        requires
            old(self).wf(),
        ensures
            *final(scratch) == *old(scratch),
            final(self).wf(),
            final(self).spec_patterns() == old(self).spec_patterns(),
            final(callback).observed() == old(callback).observed() + res.1@.delivered,
            old(scratch).spec_size() < required_scratch(old(self).spec_patterns()) ==> {
                &&& res.0 == Err::<(), Error>(Error::Invalid)
                &&& res.1@ == empty_log()
                &&& final(self).spec_history() == old(self).spec_history()
            },
            old(scratch).spec_size() >= required_scratch(old(self).spec_patterns()) ==> {
                &&& final(self).spec_history() == old(self).spec_history() + chunk@
                &&& delivery_ok(
                    inner_between(
                        old(self).spec_patterns(),
                        old(self).spec_history() + chunk@,
                        old(self).spec_history().len() as int,
                        old(self).spec_history().len() + chunk@.len() as int,
                    ),
                    res.1@,
                    res.0,
                )
            },
    {
        if scratch.size() < self.required {
            proof {
                assert(callback.observed() + empty_log().delivered =~= callback.observed());
            }
            return (Err(Error::Invalid), Ghost(empty_log()));
        }
        let ghost old_hist = self.history@;
        let old_len = self.history.len();
        let mut i: usize = 0;
        while i < chunk.len()
            invariant
                i <= chunk@.len(),
                self.history@ == old_hist + chunk@.take(i as int),
                self.patterns@ == old(self).patterns@,
                self.required == old(self).required,
            decreases chunk@.len() - i,
        {
            self.history.push(chunk[i]);
            proof {
                assert(self.history@ =~= old_hist + chunk@.take(i + 1));
            }
            i += 1;
        }
        proof {
            assert(chunk@.take(chunk@.len() as int) =~= chunk@);
        }
        let events = find_inner_matches(&self.patterns, &self.history, old_len);
        deliver_events(&events, callback)
    }

    /// Closes the stream: flushes the matches recognized only at end of
    /// input (the end-anchored ones), delivering them under the protocol
    /// of [`delivery_ok`], and releases the handle.  The handle is
    /// consumed, so no later call can feed a closed stream.
    ///
    /// An adequate scratch is a precondition here, not a reported error as
    /// in [`Stream::feed`]: the handle is gone when this call returns, so
    /// there is no stream left to hand back beside a rejection.
    /// [`Scratch::grow_for`] makes the condition easy to establish.
    pub fn close<C: MatchEventCallback>(self, scratch: &mut Scratch, callback: &mut C) -> (res: (
        Result<(), Error>,
        Ghost<ScanLog>,
    ))
        requires
            self.wf(),
            old(scratch).spec_size() >= required_scratch(self.spec_patterns()),
        ensures
            *final(scratch) == *old(scratch),
            delivery_ok(eos_matches(self.spec_patterns(), self.spec_history()), res.1@, res.0),
            final(callback).observed() == old(callback).observed() + res.1@.delivered,
    {
        let events = find_eos_matches(&self.patterns, &self.history);
        deliver_events(&events, callback)
    }

    /// Resets the stream to a fresh state on the same database: flushes
    /// the end-anchored matches of the old state exactly as a close would,
    /// then reinitializes the handle, optionally seeding it with a copy of
    /// another stream's in-progress state.  The seed must be bound to the
    /// same database.  An adequate scratch is a precondition, as for
    /// [`Stream::close`], whose flush this call repeats.
    pub fn reset<C: MatchEventCallback>(
        &mut self,
        scratch: &mut Scratch,
        callback: &mut C,
        seed: Option<&Stream>,
    ) -> (res: (Result<(), Error>, Ghost<ScanLog>))
        requires
            old(self).wf(),
            old(scratch).spec_size() >= required_scratch(old(self).spec_patterns()),
            seed matches Some(s) ==> s.wf() && s.spec_patterns() == old(self).spec_patterns(),
        ensures
            *final(scratch) == *old(scratch),
            final(self).wf(),
            final(self).spec_patterns() == old(self).spec_patterns(),
            final(self).spec_history() == match seed {
                Some(s) => s.spec_history(),
                None => Seq::<u8>::empty(),
            },
            delivery_ok(
                eos_matches(old(self).spec_patterns(), old(self).spec_history()),
                res.1@,
                res.0,
            ),
            final(callback).observed() == old(callback).observed() + res.1@.delivered,
    {
        let events = find_eos_matches(&self.patterns, &self.history);
        let res = deliver_events(&events, callback);
        self.history = match seed {
            Some(s) => clone_bytes(&s.history),
            None => Vec::new(),
        };
        res
    }

    /// An independent open stream carrying a snapshot of this stream's
    /// current state; the source is unaffected.
    ///
    /// The snapshot and the source have equal histories and patterns, so
    /// every later feed of the snapshot delivers exactly what the same
    /// feed of the source would: feeding clones different suffixes gives
    /// each clone the matches of the shared prefix concatenated with its
    /// own suffix.
    pub fn clone_state(&self) -> (r: Stream)
        requires
            self.wf(),
        ensures
            r.wf(),
            r.spec_patterns() == self.spec_patterns(),
            r.spec_history() == self.spec_history(),
    {
        Stream {
            patterns: clone_patterns(&self.patterns),
            history: clone_bytes(&self.history),
            required: self.required,
        }
    }
}

/// A row of unanchored matches reads only the input up to its end offset:
/// extending the input to the right does not change it.
proof fn lemma_inner_row_prefix(
    pats: Seq<PatternView>,
    a: Seq<u8>,
    b: Seq<u8>,
    end: int,
    k: int,
)
    requires
        0 <= end <= a.len(),
        0 <= k <= pats.len(),
    ensures
        inner_row_upto(pats, a, end, k) == inner_row_upto(pats, a + b, end, k),
    decreases k,
{
    if k > 0 {
        lemma_inner_row_prefix(pats, a, b, end, k - 1);
        let p = pats[k - 1];
        if p.literal.len() <= end {
            assert(a.subrange(end - p.literal.len(), end) =~= (a + b).subrange(
                end - p.literal.len(),
                end,
            ));
        }
        assert(literal_ends_at(p, a, end) == literal_ends_at(p, a + b, end));
    }
}

/// Unanchored matches over a range of end offsets inside a prefix are the
/// same whether computed on the prefix or on the extended input.
proof fn lemma_inner_between_prefix(
    pats: Seq<PatternView>,
    a: Seq<u8>,
    b: Seq<u8>,
    lo: int,
    hi: int,
)
    requires
        0 <= lo <= hi <= a.len(),
    ensures
        inner_between(pats, a, lo, hi) == inner_between(pats, a + b, lo, hi),
    decreases hi - lo,
{
    if hi > lo {
        lemma_inner_between_prefix(pats, a, b, lo, hi - 1);
        lemma_inner_row_prefix(pats, a, b, hi, pats.len() as int);
    }
}

/// Unanchored matches over `(lo, hi]` split at any midpoint.
proof fn lemma_inner_between_split(
    pats: Seq<PatternView>,
    input: Seq<u8>,
    lo: int,
    mid: int,
    hi: int,
)
    requires
        lo <= mid <= hi,
    ensures
        inner_between(pats, input, lo, hi) == inner_between(pats, input, lo, mid)
            + inner_between(pats, input, mid, hi),
    decreases hi - mid,
{
    if hi == mid {
        assert(inner_between(pats, input, lo, hi) =~= inner_between(pats, input, lo, mid)
            + inner_between(pats, input, mid, hi));
    } else {
        lemma_inner_between_split(pats, input, lo, mid, hi - 1);
        assert(inner_between(pats, input, lo, hi) =~= inner_between(pats, input, lo, mid)
            + inner_between(pats, input, mid, hi));
    }
}

/// Streaming agrees with block scanning: a fresh stream fed the chunks `a`
/// then `b` and closed delivers, over the three calls together, exactly
/// the candidate sequence of one block scan of the concatenation — the
/// first feed delivers the matches ending inside `a`, the second those
/// ending inside `b` (each seen against the full accumulated history), and
/// the close flushes the end-anchored matches of the whole input.
pub proof fn lemma_stream_matches_block(pats: Seq<PatternView>, a: Seq<u8>, b: Seq<u8>)
    ensures
        inner_between(pats, a, 0, a.len() as int) + inner_between(
            pats,
            a + b,
            a.len() as int,
            (a + b).len() as int,
        ) + eos_matches(pats, a + b) == block_matches(pats, a + b),
{
    lemma_inner_between_prefix(pats, a, b, 0, a.len() as int);
    lemma_inner_between_split(pats, a + b, 0, a.len() as int, (a + b).len() as int);
}

/// Snapshot continuation: a stream holding state `prefix` — the source of
/// a [`Stream::clone_state`], or any clone of it — fed `suffix`, delivers
/// together with the feeds that built the prefix exactly the unanchored
/// matches of the whole concatenation, the same as one stream fed it all.
/// Which clone is fed which suffix makes no difference: the delivery is a
/// function of the shared prefix and that clone's own suffix alone.
pub proof fn lemma_clone_state_continuation(pats: Seq<PatternView>, prefix: Seq<u8>, suffix: Seq<u8>)
    ensures
        inner_between(pats, prefix, 0, prefix.len() as int) + inner_between(
            pats,
            prefix + suffix,
            prefix.len() as int,
            (prefix + suffix).len() as int,
        ) == inner_between(pats, prefix + suffix, 0, (prefix + suffix).len() as int),
{
    lemma_inner_between_prefix(pats, prefix, suffix, 0, prefix.len() as int);
    lemma_inner_between_split(
        pats,
        prefix + suffix,
        0,
        prefix.len() as int,
        (prefix + suffix).len() as int,
    );
}

} // verus!
