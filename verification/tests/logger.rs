use libsql_replication::error::LogError;
use libsql_replication::primary::checkpoint::{
    checkpoint_next, checkpoint_start, CheckpointError, CheckpointStep,
};
use libsql_replication::primary::frame_stream::{FrameStream, StreamItem};
use libsql_replication::primary::log_file::{LogFile, WalPage};
use libsql_replication::primary::log_model::LogReadError;
use libsql_replication::primary::logger::{Generation, OpenOutcome, ReplicationLogger};
use libsql_replication::primary::logger_hook::{
    ReplicationLoggerHook, ReplicationLoggerHookCtx, WriteFailure, SQLITE_IOERR, SQLITE_OK,
};
use libsql_replication::storage::FileImage;
use libsql_replication::NO_FRAME;

fn ready(outcome: OpenOutcome) -> ReplicationLogger {
    match outcome {
        OpenOutcome::Ready(logger) => logger,
        OpenOutcome::Recover(_) => panic!("recovery was not expected"),
    }
}

fn to_recover(outcome: OpenOutcome) -> LogFile {
    match outcome {
        OpenOutcome::Ready(_) => panic!("recovery was expected"),
        OpenOutcome::Recover(log_file) => log_file,
    }
}

fn database(num_pages: usize) -> Vec<u8> {
    let mut data = Vec::new();
    for i in 0..num_pages {
        data.extend(std::iter::repeat(i as u8 + 1).take(4096));
    }
    data
}

#[test]
fn max_log_frame_count_is_megabytes_over_frame_size() {
    assert_eq!(ReplicationLogger::max_log_frame_count(0), 0);
    assert_eq!(ReplicationLogger::max_log_frame_count(1), 242);
    assert_eq!(ReplicationLogger::max_log_frame_count(200), 48543);
    // The largest size whose frames can still be counted, and beyond.
    assert_eq!(
        ReplicationLogger::max_log_frame_count(18_446_744_073_709),
        4_477_365_066_434_223
    );
    assert_eq!(
        ReplicationLogger::max_log_frame_count(76_000_585_583_683_352),
        18_446_744_073_709_551_456
    );
    assert_eq!(
        ReplicationLogger::max_log_frame_count(76_000_585_583_683_353),
        u64::MAX
    );
    assert_eq!(ReplicationLogger::max_log_frame_count(u64::MAX), u64::MAX);
}

#[test]
fn recovery_is_decided_by_the_state_of_the_log() {
    let log_file = LogFile::create(FileImage::new(), 10, 1);
    let header = *log_file.header();
    assert!(!ReplicationLogger::needs_recovery(&header, false, false, false));
    assert!(!ReplicationLogger::needs_recovery(&header, false, true, false));
    assert!(!ReplicationLogger::needs_recovery(&header, false, false, true));
    assert!(ReplicationLogger::needs_recovery(&header, true, false, false));
    assert!(ReplicationLogger::needs_recovery(&header, false, true, true));

    let mut old_format = header;
    old_format.version = 1;
    assert!(ReplicationLogger::needs_recovery(&old_format, false, false, false));

    let mut other_writer = header;
    other_writer.sqld_version = [0, 9, 9, 9];
    assert!(ReplicationLogger::needs_recovery(&other_writer, false, false, false));
}

#[test]
fn recovery_scenario() {
    // A database file of three pages and no log file.
    let data = database(3);
    let outcome = ReplicationLogger::open(FileImage::new(), 1, false, true, true).unwrap();
    let log_file = to_recover(outcome);
    let logger = ReplicationLogger::recover(log_file, &data).unwrap();

    let log_file = &logger.log_file;
    assert_eq!(log_file.header().frame_count, 3);
    assert_eq!(log_file.header().start_frame_no, 0);
    for i in 0..3u64 {
        let frame = log_file.frame(i).unwrap();
        assert_eq!(frame.header().frame_no, i);
        assert_eq!(frame.header().page_no, i as u32 + 1);
        assert_eq!(frame.header().size_after, if i == 2 { 3 } else { 0 });
        assert!(frame.page().iter().all(|b| *b == i as u8 + 1));
    }
    assert!(matches!(log_file.frame(3), Err(LogReadError::Ahead)));
    assert_eq!(logger.generation.start_index, 3);
    assert_eq!(logger.new_frame_notifier, 2);
    let header = *log_file.header();
    assert!(ReplicationLogger::compute_checksum(&header, log_file).is_ok());
}

#[test]
fn recovery_of_an_empty_database_gives_an_empty_log() {
    let mut stale = LogFile::new(FileImage::new(), 5).unwrap();
    stale
        .push_page(&WalPage {
            page_no: 1,
            size_after: 1,
            data: vec![1; 4096],
        })
        .unwrap();
    stale.commit().unwrap();
    let logger = ReplicationLogger::recover(stale, &[]).unwrap();
    assert_eq!(logger.log_file.header().frame_count, 0);
    assert_eq!(logger.log_file.file().len(), 64);
}

#[test]
fn dirty_log_is_recovered() {
    let mut log_file = LogFile::new(FileImage::new(), 5).unwrap();
    log_file
        .push_page(&WalPage {
            page_no: 1,
            size_after: 1,
            data: vec![9; 4096],
        })
        .unwrap();
    log_file.commit().unwrap();
    let bytes = log_file.file().as_bytes().to_vec();

    let kept = ready(
        ReplicationLogger::open(FileImage::from_bytes(bytes.clone()), 1, false, false, true)
            .unwrap(),
    );
    assert_eq!(kept.log_file.header().frame_count, 1);
    assert_eq!(kept.generation.start_index, 1);
    assert_eq!(kept.database_id(), log_file.header().db_id);

    let dirty =
        ReplicationLogger::open(FileImage::from_bytes(bytes), 1, true, false, true).unwrap();
    let recovered = ReplicationLogger::recover(to_recover(dirty), &database(2)).unwrap();
    assert_eq!(recovered.log_file.header().frame_count, 2);
    assert_eq!(recovered.log_file.frame(1).unwrap().header().size_after, 2);
}

#[test]
fn open_refuses_a_corrupt_log() {
    assert_eq!(
        ReplicationLogger::open(FileImage::from_bytes(vec![0; 64]), 1, false, false, false).err(),
        Some(LogError::InvalidHeader)
    );
    assert_eq!(
        ReplicationLogger::open(FileImage::from_bytes(vec![0; 5]), 1, false, false, false).err(),
        Some(LogError::UnexpectedEof)
    );
}

#[test]
fn generations_get_distinct_identifiers() {
    let a = Generation::new(5);
    let b = Generation::new(5);
    assert_eq!(a.start_index, 5);
    assert_ne!(a.id, b.id);
    // A random UUID: version 4, variant 10.
    assert_eq!((a.id >> 76) & 0xf, 4);
    assert_eq!((a.id >> 62) & 0x3, 2);
}

#[test]
fn commit_gives_the_highest_frame_number() {
    let mut logger =
        ready(ReplicationLogger::open(FileImage::new(), 1, false, true, false).unwrap());
    let pages: Vec<WalPage> = (0..4)
        .map(|i| WalPage {
            page_no: i,
            size_after: 0,
            data: vec![i as u8; 4096],
        })
        .collect();
    logger.write_pages(&pages).unwrap();
    assert!(matches!(logger.get_frame(0), Err(LogReadError::Ahead)));
    assert_eq!(logger.commit(), Ok(3));
    assert_eq!(logger.get_frame(3).unwrap().header().page_no, 3);
    assert_eq!(logger.get_frame(3).unwrap().header().frame_no, 3);
    assert!(matches!(logger.get_frame(4), Err(LogReadError::Ahead)));
    assert_eq!(logger.log_file.header().frame_count, 4);
    // Nothing more to commit: the highest frame number stays.
    assert_eq!(logger.commit(), Ok(3));
}

#[test]
fn empty_log_announces_no_frame() {
    let mut logger =
        ready(ReplicationLogger::open(FileImage::new(), 1, false, true, false).unwrap());
    assert_eq!(logger.new_frame_notifier, NO_FRAME);
    assert_eq!(logger.generation.start_index, 0);
    assert_eq!(logger.commit(), Ok(NO_FRAME));
    assert_eq!(logger.log_file.header().highest_frame_no(), NO_FRAME);

    let one = WalPage {
        page_no: 1,
        size_after: 1,
        data: vec![1; 4096],
    };
    logger.write_pages(&[one]).unwrap();
    assert_eq!(logger.commit(), Ok(0));
    assert_eq!(logger.log_file.header().highest_frame_no(), 0);
    assert_eq!(logger.log_file.header().last_frame_no(), 1);
}

#[test]
fn log_without_frames_announces_the_frame_before_its_first() {
    let fresh = LogFile::create(FileImage::new(), 100, 1);
    let mut bytes = fresh.file().as_bytes().to_vec();
    bytes[32..40].copy_from_slice(&50u64.to_le_bytes());
    let mut logger =
        ready(ReplicationLogger::open(FileImage::from_bytes(bytes), 1, false, false, false).unwrap());
    assert_eq!(logger.new_frame_notifier, 49);
    assert_eq!(logger.generation.start_index, 50);
    assert_eq!(logger.commit(), Ok(49));
}

#[test]
fn identifiers_are_random_uuids() {
    let a = LogFile::new(FileImage::new(), 1).unwrap();
    let b = LogFile::new(FileImage::new(), 1).unwrap();
    let c = b.reset().unwrap();
    for id in [a.header().db_id, c.header().db_id] {
        assert_eq!((id >> 76) & 0xf, 4);
        assert_eq!((id >> 62) & 0x3, 2);
    }
    assert_ne!(a.header().db_id, c.header().db_id);
    let logger = ReplicationLogger::from_log_file(a);
    assert_eq!((logger.generation.id >> 76) & 0xf, 4);
    assert_eq!((logger.generation.id >> 62) & 0x3, 2);
}

#[test]
fn commit_is_decided_by_the_engine() {
    assert!(ReplicationLoggerHook::is_committed(1, 0));
    assert!(ReplicationLoggerHook::is_committed(-1, 0));
    assert!(!ReplicationLoggerHook::is_committed(0, 0));
    assert!(!ReplicationLoggerHook::is_committed(1, 5));
    assert!(!ReplicationLoggerHook::is_committed(0, 5));
}

#[test]
fn stream_waits_until_its_frame_is_announced() {
    let logger = ready(ReplicationLogger::open(FileImage::new(), 1, false, true, false).unwrap());
    let stream = FrameStream::new(&logger, 3);
    assert_eq!(stream.max_available_frame_no, NO_FRAME);
    assert!(stream.waits(NO_FRAME));
    assert!(stream.waits(0));
    assert!(stream.waits(2));
    assert!(!stream.waits(3));
    assert!(!stream.waits(10));
    let first = FrameStream::new(&logger, 0);
    assert!(first.waits(NO_FRAME));
    assert!(!first.waits(0));
}

fn engine_pages(n: u32) -> Vec<(u32, Vec<u8>)> {
    (1..=n).map(|i| (i, vec![i as u8; 4096])).collect()
}

#[test]
fn hook_logs_then_commits() {
    let mut logger =
        ready(ReplicationLogger::open(FileImage::new(), 1, false, true, false).unwrap());
    let mut ctx = ReplicationLoggerHookCtx::new();
    assert_eq!(ReplicationLoggerHook::name(), "replication_logger_hook");

    let rc = ReplicationLoggerHook::on_frames(&mut ctx, &mut logger, 4096, &engine_pages(3), 3);
    assert_eq!(rc, SQLITE_OK);
    // Written, not committed.
    assert_eq!(logger.log_file.header().frame_count, 0);
    assert_eq!(logger.log_file.file().len(), 64 + 3 * 4120);
    assert_eq!(logger.new_frame_notifier, NO_FRAME);

    let retired = ReplicationLoggerHook::on_frames_applied(&ctx, &mut logger, 1, SQLITE_OK);
    assert!(retired.is_none());
    assert_eq!(logger.log_file.header().frame_count, 3);
    assert_eq!(logger.new_frame_notifier, 2);
    // Only the last page ends the transaction.
    assert_eq!(logger.get_frame(0).unwrap().header().size_after, 0);
    assert_eq!(logger.get_frame(1).unwrap().header().size_after, 0);
    assert_eq!(logger.get_frame(2).unwrap().header().size_after, 3);
    assert_eq!(logger.get_frame(2).unwrap().header().page_no, 3);
}

#[test]
fn hook_does_not_commit_what_the_engine_did_not() {
    let mut logger =
        ready(ReplicationLogger::open(FileImage::new(), 1, false, true, false).unwrap());
    let mut ctx = ReplicationLoggerHookCtx::new();
    ReplicationLoggerHook::on_frames(&mut ctx, &mut logger, 4096, &engine_pages(2), 2);

    // The engine failed.
    assert!(ReplicationLoggerHook::on_frames_applied(&ctx, &mut logger, 1, 5).is_none());
    assert_eq!(logger.log_file.header().frame_count, 0);
    // The write did not end a transaction.
    assert!(ReplicationLoggerHook::on_frames_applied(&ctx, &mut logger, 0, 0).is_none());
    assert_eq!(logger.log_file.header().frame_count, 0);

    ReplicationLoggerHook::on_undo(&mut ctx, &mut logger);
    assert_eq!(logger.log_file.next_byte_offset(), 64);
    ReplicationLoggerHook::on_frames(&mut ctx, &mut logger, 4096, &engine_pages(1), 1);
    ReplicationLoggerHook::on_frames_applied(&ctx, &mut logger, 1, 0);
    assert_eq!(logger.log_file.header().frame_count, 1);
    assert_eq!(logger.get_frame(0).unwrap().header().page_no, 1);
}

#[test]
fn hook_fails_the_write_that_the_log_cannot_take() {
    let fresh = LogFile::create(FileImage::new(), 100, 1);
    let mut bytes = fresh.file().as_bytes().to_vec();
    bytes[32..40].copy_from_slice(&(u64::MAX - 1).to_le_bytes());
    let mut logger =
        ready(ReplicationLogger::open(FileImage::from_bytes(bytes), 1, false, false, false).unwrap());
    let mut ctx = ReplicationLoggerHookCtx::new();
    let rc = ReplicationLoggerHook::on_frames(&mut ctx, &mut logger, 4096, &engine_pages(2), 2);
    assert_eq!(rc, SQLITE_IOERR);
    ReplicationLoggerHook::on_undo(&mut ctx, &mut logger);
    assert_eq!(logger.log_file.next_byte_offset(), 64);
    let rc = ReplicationLoggerHook::on_frames(&mut ctx, &mut logger, 4096, &engine_pages(1), 1);
    assert_eq!(rc, SQLITE_OK);
}

#[test]
fn hook_compacts_a_log_that_outgrew_its_limit() {
    // No room at all: every commit retires the log.
    let mut logger =
        ready(ReplicationLogger::open(FileImage::new(), 0, false, true, false).unwrap());
    let mut ctx = ReplicationLoggerHookCtx::new();
    ReplicationLoggerHook::on_frames(&mut ctx, &mut logger, 4096, &engine_pages(2), 2);
    let retired = ReplicationLoggerHook::on_frames_applied(&ctx, &mut logger, 1, 0).unwrap();
    assert_eq!(retired.header().frame_count, 2);
    assert_eq!(logger.log_file.header().start_frame_no, 2);
    assert_eq!(logger.log_file.header().frame_count, 0);
    assert_eq!(logger.new_frame_notifier, 1);
}

#[test]
fn hook_passes_other_codes_through() {
    assert_eq!(ReplicationLoggerHook::on_savepoint_undo(0), 0);
    assert_eq!(ReplicationLoggerHook::on_savepoint_undo(7), 7);
    assert_eq!(ReplicationLoggerHook::on_checkpoint(0), 0);
    assert_eq!(ReplicationLoggerHook::on_checkpoint(-3), -3);
}

#[test]
fn stream_gives_frames_in_order_and_waits_at_the_end() {
    let mut logger =
        ready(ReplicationLogger::open(FileImage::new(), 1, false, true, false).unwrap());
    let mut ctx = ReplicationLoggerHookCtx::new();
    ReplicationLoggerHook::on_frames(&mut ctx, &mut logger, 4096, &engine_pages(2), 2);
    ReplicationLoggerHook::on_frames_applied(&ctx, &mut logger, 1, 0);

    let mut stream = FrameStream::new(&logger, 0);
    for expected in 0..2u64 {
        match stream.poll_next(&logger) {
            StreamItem::Frame(frame) => assert_eq!(frame.header().frame_no, expected),
            other => panic!("expected a frame, got {:?}", other),
        }
    }
    assert!(matches!(
        stream.poll_next(&logger),
        StreamItem::Pending { seen: 1 }
    ));
    assert_eq!(stream.current_frame_no, 2);

    ReplicationLoggerHook::on_frames(&mut ctx, &mut logger, 4096, &engine_pages(1), 3);
    ReplicationLoggerHook::on_frames_applied(&ctx, &mut logger, 1, 0);
    match stream.poll_next(&logger) {
        StreamItem::Frame(frame) => assert_eq!(frame.header().frame_no, 2),
        other => panic!("expected a frame, got {:?}", other),
    }
    assert!(matches!(
        stream.poll_next(&logger),
        StreamItem::Pending { seen: 2 }
    ));
}

#[test]
fn stream_closes_on_a_frame_older_than_the_log() {
    let fresh = LogFile::create(FileImage::new(), 100, 1);
    let mut bytes = fresh.file().as_bytes().to_vec();
    bytes[32..40].copy_from_slice(&50u64.to_le_bytes());
    let logger =
        ready(ReplicationLogger::open(FileImage::from_bytes(bytes), 1, false, false, false).unwrap());
    let mut stream = FrameStream::new(&logger, 10);
    assert_eq!(stream.max_available_frame_no, 49);
    assert!(matches!(
        stream.poll_next(&logger),
        StreamItem::Failed(LogReadError::SnapshotRequired)
    ));
    assert!(stream.closed);
    assert!(matches!(stream.poll_next(&logger), StreamItem::Closed));
}

#[test]
fn write_failures_are_fatal_once_the_engine_committed() {
    assert_eq!(
        ReplicationLoggerHook::on_write_failure(false),
        WriteFailure::FailWrite { rc: 10 }
    );
    assert_eq!(
        ReplicationLoggerHook::on_write_failure(true),
        WriteFailure::Fatal
    );
}

#[test]
fn checkpoint_goes_through_its_four_calls() {
    assert_eq!(checkpoint_start(true), Ok(CheckpointStep::Open));
    assert_eq!(checkpoint_start(false), Err(CheckpointError::InvalidPath));
    assert_eq!(
        checkpoint_next(CheckpointStep::Open, 0),
        Ok(Some(CheckpointStep::Checkpoint))
    );
    assert_eq!(
        checkpoint_next(CheckpointStep::Checkpoint, 0),
        Ok(Some(CheckpointStep::Vacuum))
    );
    assert_eq!(
        checkpoint_next(CheckpointStep::Vacuum, 0),
        Ok(Some(CheckpointStep::Close))
    );
    assert_eq!(checkpoint_next(CheckpointStep::Close, 0), Ok(None));
    assert_eq!(CheckpointStep::Open.statement(), None);
    assert_eq!(
        CheckpointStep::Checkpoint.statement(),
        Some("PRAGMA wal_checkpoint(TRUNCATE)")
    );
    assert_eq!(CheckpointStep::Vacuum.statement(), Some("VACUUM"));
    assert_eq!(CheckpointStep::Close.statement(), None);
}

#[test]
fn checkpoint_fails_with_the_call_that_failed() {
    assert_eq!(
        checkpoint_next(CheckpointStep::Open, 14),
        Err(CheckpointError::Open { rc: 14 })
    );
    assert_eq!(
        checkpoint_next(CheckpointStep::Checkpoint, 5),
        Err(CheckpointError::Checkpoint)
    );
    assert_eq!(
        checkpoint_next(CheckpointStep::Vacuum, 1),
        Err(CheckpointError::Vacuum { rc: 1 })
    );
    assert_eq!(
        checkpoint_next(CheckpointStep::Close, -1),
        Err(CheckpointError::Close { rc: -1 })
    );
    assert_eq!(CheckpointError::InvalidPath.message(), "invalid data path");
    assert_eq!(
        CheckpointError::Checkpoint.message(),
        "failed to checkpoint database while recovering replication log"
    );
}
