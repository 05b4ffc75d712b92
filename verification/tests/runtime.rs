use hyperscan::database::{Database, DbMode, Pattern, RUNTIME_PLATFORM, RUNTIME_VERSION};
use hyperscan::errors::Error;
use hyperscan::scan::{scan, MatchEvent, MatchEventCallback, Matching};
use hyperscan::scratch::Scratch;
use hyperscan::stream::Stream;

struct Collect {
    events: Vec<MatchEvent>,
}

impl Collect {
    fn new() -> Collect {
        Collect { events: Vec::new() }
    }
}

impl MatchEventCallback for Collect {
    // Ghost accessor: never invoked at runtime.
    fn observed(&self) -> hyperscan::scan::ObservedEvents {
        unreachable!()
    }

    fn on_match(&mut self, event: &MatchEvent) -> Matching {
        self.events.push(*event);
        Matching::Continue
    }
}

struct StopAtFirst {
    invocations: usize,
}

impl MatchEventCallback for StopAtFirst {
    // Ghost accessor: never invoked at runtime.
    fn observed(&self) -> hyperscan::scan::ObservedEvents {
        unreachable!()
    }

    fn on_match(&mut self, _event: &MatchEvent) -> Matching {
        self.invocations += 1;
        Matching::Terminate
    }
}

fn lit(id: u32, text: &str) -> Pattern {
    Pattern { id, literal: text.as_bytes().to_vec(), anchored_end: false }
}

fn anchored(id: u32, text: &str) -> Pattern {
    Pattern { id, literal: text.as_bytes().to_vec(), anchored_end: true }
}

fn db(mode: DbMode, patterns: Vec<Pattern>) -> Database {
    Database::new(patterns, mode).unwrap()
}

fn ev(id: u32, from: usize, to: usize) -> MatchEvent {
    MatchEvent { id, from, to }
}

#[test]
fn database_reports_its_tags() {
    let db = db(DbMode::Block, vec![lit(1, "ab"), lit(2, "abcd")]);
    assert_eq!(db.mode(), DbMode::Block);
    assert_eq!(db.version(), RUNTIME_VERSION);
    assert_eq!(db.platform(), RUNTIME_PLATFORM);
    assert_eq!(db.scratch_size(), 4);
    assert_eq!(db.patterns().len(), 2);
}

#[test]
fn block_scan_finds_literal() {
    let db = db(DbMode::Block, vec![lit(1, "abc")]);
    let mut scratch = Scratch::allocate(&db).unwrap();
    let mut cb = Collect::new();
    let (r, _) = scan(&db, &b"xxabcy".to_vec(), &mut scratch, &mut cb);
    assert!(matches!(r, Ok(())));
    assert_eq!(cb.events, vec![ev(1, 2, 5)]);
}

#[test]
fn block_scan_reports_in_end_offset_order() {
    let db = db(DbMode::Block, vec![lit(1, "ab"), lit(2, "b")]);
    let mut scratch = Scratch::allocate(&db).unwrap();
    let mut cb = Collect::new();
    let (r, _) = scan(&db, &b"abab".to_vec(), &mut scratch, &mut cb);
    assert!(matches!(r, Ok(())));
    assert_eq!(cb.events, vec![ev(1, 0, 2), ev(2, 1, 2), ev(1, 2, 4), ev(2, 3, 4)]);
}

#[test]
fn empty_buffer_scans_successfully_with_zero_callbacks() {
    let db = db(DbMode::Block, vec![lit(1, "abc"), anchored(2, "c")]);
    let mut scratch = Scratch::allocate(&db).unwrap();
    let mut cb = Collect::new();
    let (r, _) = scan(&db, &Vec::new(), &mut scratch, &mut cb);
    assert!(matches!(r, Ok(())));
    assert_eq!(cb.events, Vec::new());
}

#[test]
fn no_matches_still_succeeds() {
    let db = db(DbMode::Block, vec![lit(1, "abc")]);
    let mut scratch = Scratch::allocate(&db).unwrap();
    let mut cb = Collect::new();
    let (r, _) = scan(&db, &b"zzzzz".to_vec(), &mut scratch, &mut cb);
    assert!(matches!(r, Ok(())));
    assert_eq!(cb.events, Vec::new());
}

#[test]
fn terminating_callback_stops_the_scan() {
    let db = db(DbMode::Block, vec![lit(1, "a")]);
    let mut scratch = Scratch::allocate(&db).unwrap();
    let mut cb = StopAtFirst { invocations: 0 };
    let (r, _) = scan(&db, &b"aaaa".to_vec(), &mut scratch, &mut cb);
    assert!(matches!(r, Err(Error::ScanTerminated)));
    assert_eq!(cb.invocations, 1);
}

#[test]
fn block_scan_rejects_streaming_database() {
    let db = db(DbMode::Streaming, vec![lit(1, "abc")]);
    let mut scratch = Scratch::allocate(&db).unwrap();
    let mut cb = Collect::new();
    let (r, _) = scan(&db, &b"abc".to_vec(), &mut scratch, &mut cb);
    assert!(matches!(r, Err(Error::DbModeError)));
    assert_eq!(cb.events, Vec::new());
}

#[test]
fn mismatched_tags_are_rejected_before_scanning() {
    let wrong_version =
        Database::with_tags(vec![lit(1, "abc")], DbMode::Block, RUNTIME_VERSION + 1, RUNTIME_PLATFORM)
            .unwrap();
    let mut scratch = Scratch::allocate(&wrong_version).unwrap();
    let mut cb = Collect::new();
    let (r, _) = scan(&wrong_version, &b"abc".to_vec(), &mut scratch, &mut cb);
    assert!(matches!(r, Err(Error::DbVersionError)));

    let wrong_platform =
        Database::with_tags(vec![lit(1, "abc")], DbMode::Block, RUNTIME_VERSION, RUNTIME_PLATFORM + 1)
            .unwrap();
    let mut scratch = Scratch::allocate(&wrong_platform).unwrap();
    let mut cb = Collect::new();
    let (r, _) = scan(&wrong_platform, &b"abc".to_vec(), &mut scratch, &mut cb);
    assert!(matches!(r, Err(Error::DbPlatformError)));
    assert_eq!(cb.events, Vec::new());
}

#[test]
fn empty_literal_is_rejected_at_construction() {
    assert!(matches!(
        Database::new(vec![lit(1, "")], DbMode::Block),
        Err(Error::Invalid)
    ));
}

#[test]
fn undersized_scratch_fails_before_any_callback() {
    let small = db(DbMode::Block, vec![lit(1, "a")]);
    let large = db(DbMode::Block, vec![lit(1, "abcdef")]);
    let mut scratch = Scratch::allocate(&small).unwrap();
    let mut cb = Collect::new();
    let (r, _) = scan(&large, &b"xabcdef".to_vec(), &mut scratch, &mut cb);
    assert!(matches!(r, Err(Error::Invalid)));
    assert_eq!(cb.events, Vec::new());
}

#[test]
fn grown_scratch_scans_the_larger_database() {
    let small = db(DbMode::Block, vec![lit(1, "a")]);
    let large = db(DbMode::Block, vec![lit(2, "abcdef")]);
    let mut scratch = Scratch::allocate(&small).unwrap();
    assert!(matches!(scratch.grow_for(&large), Ok(())));
    assert_eq!(scratch.size(), 6);
    let mut cb = Collect::new();
    let (r, _) = scan(&large, &b"xabcdef".to_vec(), &mut scratch, &mut cb);
    assert!(matches!(r, Ok(())));
    assert_eq!(cb.events, vec![ev(2, 1, 7)]);
}

#[test]
fn grow_for_is_a_no_op_when_already_large_enough() {
    let small = db(DbMode::Block, vec![lit(1, "a")]);
    let large = db(DbMode::Block, vec![lit(2, "abcdef")]);
    let mut scratch = Scratch::allocate(&large).unwrap();
    assert!(matches!(scratch.grow_for(&small), Ok(())));
    assert_eq!(scratch.size(), 6);
}

#[test]
fn cloned_scratch_has_the_same_capacity() {
    let db = db(DbMode::Block, vec![lit(1, "abcd")]);
    let scratch = Scratch::allocate(&db).unwrap();
    let copy = scratch.clone();
    assert_eq!(copy.size(), scratch.size());
    assert_eq!(copy.size(), 4);
}

#[test]
fn stream_open_rejects_block_database() {
    let db = db(DbMode::Block, vec![lit(1, "abc")]);
    assert!(matches!(Stream::open(&db), Err(Error::DbModeError)));
}

#[test]
fn stream_matches_across_chunks_like_a_block_scan() {
    let patterns = vec![lit(1, "abc")];
    let sdb = db(DbMode::Streaming, patterns);
    let mut scratch = Scratch::allocate(&sdb).unwrap();
    let mut stream = Stream::open(&sdb).unwrap();
    let mut cb = Collect::new();
    let (r, _) = stream.feed(&b"ab".to_vec(), &mut scratch, &mut cb);
    assert!(matches!(r, Ok(())));
    let (r, _) = stream.feed(&b"c".to_vec(), &mut scratch, &mut cb);
    assert!(matches!(r, Ok(())));
    let (r, _) = stream.close(&mut scratch, &mut cb);
    assert!(matches!(r, Ok(())));

    let bdb = db(DbMode::Block, vec![lit(1, "abc")]);
    let mut bscratch = Scratch::allocate(&bdb).unwrap();
    let mut bcb = Collect::new();
    let (r, _) = scan(&bdb, &b"abc".to_vec(), &mut bscratch, &mut bcb);
    assert!(matches!(r, Ok(())));

    assert_eq!(cb.events, bcb.events);
    assert_eq!(cb.events, vec![ev(1, 0, 3)]);
}

#[test]
fn chunk_order_matters() {
    let sdb = db(DbMode::Streaming, vec![lit(1, "abc")]);
    let mut scratch = Scratch::allocate(&sdb).unwrap();
    let mut stream = Stream::open(&sdb).unwrap();
    let mut cb = Collect::new();
    let (r, _) = stream.feed(&b"c".to_vec(), &mut scratch, &mut cb);
    assert!(matches!(r, Ok(())));
    let (r, _) = stream.feed(&b"ab".to_vec(), &mut scratch, &mut cb);
    assert!(matches!(r, Ok(())));
    let (r, _) = stream.close(&mut scratch, &mut cb);
    assert!(matches!(r, Ok(())));
    assert_eq!(cb.events, Vec::new());
}

#[test]
fn feed_rejects_undersized_scratch() {
    let small = db(DbMode::Streaming, vec![lit(1, "a")]);
    let sdb = db(DbMode::Streaming, vec![lit(1, "abc")]);
    let mut scratch = Scratch::allocate(&small).unwrap();
    let mut stream = Stream::open(&sdb).unwrap();
    let mut cb = Collect::new();
    let (r, _) = stream.feed(&b"abc".to_vec(), &mut scratch, &mut cb);
    assert!(matches!(r, Err(Error::Invalid)));
    assert_eq!(cb.events, Vec::new());
}

#[test]
fn cloned_streams_continue_independently() {
    let sdb = db(DbMode::Streaming, vec![lit(1, "abc"), lit(2, "abd")]);
    let mut scratch = Scratch::allocate(&sdb).unwrap();
    let mut stream = Stream::open(&sdb).unwrap();
    let mut cb = Collect::new();
    let (r, _) = stream.feed(&b"ab".to_vec(), &mut scratch, &mut cb);
    assert!(matches!(r, Ok(())));
    assert_eq!(cb.events, Vec::new());

    let mut copy = stream.clone_state();
    let mut cb_orig = Collect::new();
    let (r, _) = stream.feed(&b"c".to_vec(), &mut scratch, &mut cb_orig);
    assert!(matches!(r, Ok(())));
    let mut cb_copy = Collect::new();
    let (r, _) = copy.feed(&b"d".to_vec(), &mut scratch, &mut cb_copy);
    assert!(matches!(r, Ok(())));

    // Each clone behaves as one stream fed the whole concatenation would.
    let mut whole = Stream::open(&sdb).unwrap();
    let mut cb_whole = Collect::new();
    let (r, _) = whole.feed(&b"abc".to_vec(), &mut scratch, &mut cb_whole);
    assert!(matches!(r, Ok(())));
    assert_eq!(cb_orig.events, cb_whole.events);
    assert_eq!(cb_orig.events, vec![ev(1, 0, 3)]);
    assert_eq!(cb_copy.events, vec![ev(2, 0, 3)]);
}

#[test]
fn close_flushes_end_anchored_matches() {
    let sdb = db(DbMode::Streaming, vec![anchored(7, "end")]);
    let mut scratch = Scratch::allocate(&sdb).unwrap();
    let mut stream = Stream::open(&sdb).unwrap();
    let mut cb = Collect::new();
    let (r, _) = stream.feed(&b"the ".to_vec(), &mut scratch, &mut cb);
    assert!(matches!(r, Ok(())));
    let (r, _) = stream.feed(&b"end".to_vec(), &mut scratch, &mut cb);
    assert!(matches!(r, Ok(())));
    assert_eq!(cb.events, Vec::new());
    let (r, _) = stream.close(&mut scratch, &mut cb);
    assert!(matches!(r, Ok(())));
    assert_eq!(cb.events, vec![ev(7, 4, 7)]);
}

#[test]
fn block_scan_honors_end_anchoring() {
    let bdb = db(DbMode::Block, vec![anchored(7, "end")]);
    let mut scratch = Scratch::allocate(&bdb).unwrap();
    let mut cb = Collect::new();
    let (r, _) = scan(&bdb, &b"the end".to_vec(), &mut scratch, &mut cb);
    assert!(matches!(r, Ok(())));
    assert_eq!(cb.events, vec![ev(7, 4, 7)]);

    let mut cb = Collect::new();
    let (r, _) = scan(&bdb, &b"end it".to_vec(), &mut scratch, &mut cb);
    assert!(matches!(r, Ok(())));
    assert_eq!(cb.events, Vec::new());
}

#[test]
fn reset_flushes_and_reuses_the_handle() {
    let sdb = db(DbMode::Streaming, vec![anchored(3, "ab")]);
    let mut scratch = Scratch::allocate(&sdb).unwrap();
    let mut stream = Stream::open(&sdb).unwrap();
    let mut cb = Collect::new();
    let (r, _) = stream.feed(&b"ab".to_vec(), &mut scratch, &mut cb);
    assert!(matches!(r, Ok(())));
    let (r, _) = stream.reset(&mut scratch, &mut cb, None);
    assert!(matches!(r, Ok(())));
    assert_eq!(cb.events, vec![ev(3, 0, 2)]);

    let mut cb2 = Collect::new();
    let (r, _) = stream.feed(&b"ab".to_vec(), &mut scratch, &mut cb2);
    assert!(matches!(r, Ok(())));
    let (r, _) = stream.close(&mut scratch, &mut cb2);
    assert!(matches!(r, Ok(())));
    assert_eq!(cb2.events, vec![ev(3, 0, 2)]);
}

#[test]
fn reset_with_seed_copies_the_seed_state() {
    let sdb = db(DbMode::Streaming, vec![lit(1, "abc")]);
    let mut scratch = Scratch::allocate(&sdb).unwrap();
    let mut seeded = Stream::open(&sdb).unwrap();
    let mut source = Stream::open(&sdb).unwrap();
    let mut cb = Collect::new();
    let (r, _) = source.feed(&b"ab".to_vec(), &mut scratch, &mut cb);
    assert!(matches!(r, Ok(())));
    let (r, _) = seeded.reset(&mut scratch, &mut cb, Some(&source));
    assert!(matches!(r, Ok(())));
    let (r, _) = seeded.feed(&b"c".to_vec(), &mut scratch, &mut cb);
    assert!(matches!(r, Ok(())));
    assert_eq!(cb.events, vec![ev(1, 0, 3)]);
}
