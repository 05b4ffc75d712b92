//! The compiled pattern database: an immutable, mode-, platform- and
//! version-tagged artifact that scans run against.
//!
//! Compilation itself is an external collaborator; this runtime consumes its
//! output.  A compiled pattern is a literal byte sequence with a caller
//! chosen identifier, optionally anchored to the end of the input, in which
//! case it is recognized only once the input is known to be complete (at a
//! block scan's end, or when a stream is closed or reset).

use vstd::prelude::*;

use crate::errors::Error;

verus! {

/// Version tag this runtime accepts; a database tagged otherwise is
/// rejected with [`Error::DbVersionError`] before any scan work.
pub const RUNTIME_VERSION: u32 = 5;

/// Platform tag this runtime accepts; a database tagged otherwise is
/// rejected with [`Error::DbPlatformError`] before any scan work.
pub const RUNTIME_PLATFORM: u32 = 0;

/// The mode of operation a database was compiled for.
#[derive(Clone, Copy, Debug, PartialEq, Eq, Structural)]
pub enum DbMode {
    /// Whole-buffer scans only.
    Block,
    /// Chunk-by-chunk scans through a stream only.
    Streaming,
}

/// The mathematical value of one compiled pattern.
pub ghost struct PatternView {
    /// Caller-chosen identifier reported with every match of this pattern.
    pub id: u32,
    /// The literal byte sequence the pattern recognizes.
    pub literal: Seq<u8>,
    /// Whether a match is recognized only at the very end of the input.
    pub anchored_end: bool,
}

/// One compiled pattern of a database.
pub struct Pattern {
    /// Caller-chosen identifier reported with every match of this pattern.
    pub id: u32,
    /// The literal byte sequence the pattern recognizes.
    pub literal: Vec<u8>,
    /// Whether a match is recognized only at the very end of the input.
    pub anchored_end: bool,
}

impl View for Pattern {
    type V = PatternView;

    open spec fn view(&self) -> PatternView {
        PatternView { id: self.id, literal: self.literal@, anchored_end: self.anchored_end }
    }
}

/// The pattern sequence of a database, as mathematical values.
pub open spec fn patterns_view(pats: Seq<Pattern>) -> Seq<PatternView> {
    Seq::new(pats.len(), |i: int| pats[i]@)
}

/// A valid compiled pattern set: every literal is nonempty.  An empty
/// literal describes no recognizable input and is rejected at construction.
pub open spec fn patterns_wf(pats: Seq<PatternView>) -> bool {
    forall|i: int| 0 <= i < pats.len() ==> #[trigger] pats[i].literal.len() > 0
}

/// The scratch space a pattern set requires: the length of its longest
/// literal, the window the matcher must be able to look back over.
pub open spec fn required_scratch(pats: Seq<PatternView>) -> nat
    decreases pats.len(),
{
    if pats.len() == 0 {
        0
    } else {
        let rest = required_scratch(pats.drop_last());
        let last = pats.last().literal.len();
        if last > rest {
            last
        } else {
            rest
        }
    }
}

/// An immutable compiled pattern-matching artifact.
///
/// Shareable read-only across any number of concurrent scans; the runtime
/// only ever borrows it.
pub struct Database {
    pub(crate) patterns: Vec<Pattern>,
    pub(crate) mode: DbMode,
    pub(crate) version: u32,
    pub(crate) platform: u32,
}

impl Database {
    /// The compiled patterns.
    pub closed spec fn spec_patterns(&self) -> Seq<PatternView> {
        patterns_view(self.patterns@)
    }

    /// The mode of operation the database was compiled for.
    pub closed spec fn spec_mode(&self) -> DbMode {
        self.mode
    }

    /// The engine version tag the database carries.
    pub closed spec fn spec_version(&self) -> u32 {
        self.version
    }

    /// The platform tag the database carries.
    pub closed spec fn spec_platform(&self) -> u32 {
        self.platform
    }

    /// A well-formed (already validated) artifact.
    pub open spec fn wf(&self) -> bool {
        patterns_wf(self.spec_patterns())
    }

    /// Receives a compiled artifact tagged for this runtime.
    ///
    /// Validation rejects any empty literal with [`Error::Invalid`]; a fully
    /// valid database or an error is returned, never a partial handle.
    pub fn new(patterns: Vec<Pattern>, mode: DbMode) -> (r: Result<Database, Error>)
        ensures
            patterns_wf(patterns_view(patterns@)) <==> r is Ok,
            r matches Ok(db) ==> {
                &&& db.wf()
                &&& db.spec_patterns() == patterns_view(patterns@)
                &&& db.spec_mode() == mode
                &&& db.spec_version() == RUNTIME_VERSION
                &&& db.spec_platform() == RUNTIME_PLATFORM
            },
            r matches Err(e) ==> e == Error::Invalid,
    {
        Database::with_tags(patterns, mode, RUNTIME_VERSION, RUNTIME_PLATFORM)
    }

    /// Receives a compiled artifact with explicit version and platform tags,
    /// as a deserialization collaborator would hand it over; tags other than
    /// this runtime's are rejected later, at the scan or open call.
    pub fn with_tags(patterns: Vec<Pattern>, mode: DbMode, version: u32, platform: u32) -> (r:
        Result<Database, Error>)
        ensures
            patterns_wf(patterns_view(patterns@)) <==> r is Ok,
            r matches Ok(db) ==> {
                &&& db.wf()
                &&& db.spec_patterns() == patterns_view(patterns@)
                &&& db.spec_mode() == mode
                &&& db.spec_version() == version
                &&& db.spec_platform() == platform
            },
            r matches Err(e) ==> e == Error::Invalid,
    {
        let mut i: usize = 0;
        while i < patterns.len()
            invariant
                i <= patterns.len(),
                forall|j: int|
                    0 <= j < i ==> #[trigger] patterns_view(patterns@)[j].literal.len() > 0,
            decreases patterns.len() - i,
        {
            if patterns[i].literal.len() == 0 {
                proof {
                    assert(patterns_view(patterns@)[i as int].literal.len() == 0);
                }
                return Err(Error::Invalid);
            }
            i += 1;
        }
        Ok(Database { patterns, mode, version, platform })
    }

    /// The scratch size this database requires of any workspace used with it.
    pub fn scratch_size(&self) -> (r: usize)
        ensures
            r == required_scratch(self.spec_patterns()),
    {
        compute_required_scratch(&self.patterns)
    }

    /// The mode of operation the database was compiled for.
    pub fn mode(&self) -> (r: DbMode)
        ensures
            r == self.spec_mode(),
    {
        self.mode
    }

    /// The engine version tag the database carries.
    pub fn version(&self) -> (r: u32)
        ensures
            r == self.spec_version(),
    {
        self.version
    }

    /// The platform tag the database carries.
    pub fn platform(&self) -> (r: u32)
        ensures
            r == self.spec_platform(),
    {
        self.platform
    }

    /// The compiled patterns, borrowed.
    pub fn patterns(&self) -> (r: &Vec<Pattern>)
        ensures
            patterns_view(r@) == self.spec_patterns(),
    {
        &self.patterns
    }
}

/// The longest literal length of a pattern set, the exec side of
/// [`required_scratch`].
pub(crate) fn compute_required_scratch(patterns: &Vec<Pattern>) -> (r: usize)
    ensures
        r == required_scratch(patterns_view(patterns@)),
{
    let mut best: usize = 0;
    let mut i: usize = 0;
    while i < patterns.len()
        invariant
            i <= patterns.len(),
            best == required_scratch(patterns_view(patterns@).take(i as int)),
        decreases patterns.len() - i,
    {
        proof {
            let pv = patterns_view(patterns@);
            assert(pv.take(i + 1).drop_last() =~= pv.take(i as int));
            assert(pv.take(i + 1).last() == pv[i as int]);
        }
        let len = patterns[i].literal.len();
        if len > best {
            best = len;
        }
        i += 1;
    }
    proof {
        assert(patterns_view(patterns@).take(patterns@.len() as int) =~= patterns_view(
            patterns@,
        ));
    }
    best
}

} // verus!
