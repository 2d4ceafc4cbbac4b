use libsql_replication::frame::{Frame, FrameHeader};
use libsql_replication::primary::log_file::{LogFile, WalPage};
use libsql_replication::replica::error::{Fault, ReplicationError};
use libsql_replication::replica::hook::{
    Frames, InjectRequest, InjectorHookCtx, LIBSQL_CONTINUE_REPLICATION, LIBSQL_EXIT_REPLICATION,
};
use libsql_replication::replica::injector::FrameInjector;
use libsql_replication::replica::meta::{
    apply_snapshot_header, post_commit, pre_commit, WalIndexMeta, NO_FRAME,
};
use libsql_replication::replication_log::Code;
use libsql_replication::snapshot::{SnapshotFile, SnapshotFileHeader};
use libsql_replication::storage::FileImage;
use libsql_replication::{Hello, Replicator};

fn snapshot_header(start_frame_no: u64, frame_count: u64) -> SnapshotFileHeader {
    SnapshotFileHeader {
        start_frame_no,
        frame_count,
        db_id: 77,
    }
}

fn frame(frame_no: u64, size_after: u32) -> Frame {
    Frame::from_parts(
        &FrameHeader {
            frame_no,
            checksum: 0,
            page_no: 1,
            size_after,
        },
        &[0u8; 4096],
    )
}

#[test]
fn snapshot_idempotence() {
    let mut replicator = Replicator::new();
    let header = snapshot_header(12, 5).to_bytes();
    assert_eq!(
        replicator.update_metadata_from_snapshot_header(&header),
        Ok(5)
    );
    let meta = replicator.meta.unwrap();
    assert_eq!(meta.post_commit_frame_no, 12);
    assert_eq!(meta.pre_commit_frame_no, 12);
    assert_eq!(meta.database_id, 77);
    assert_eq!(meta.generation_id, 1);

    assert_eq!(
        replicator.update_metadata_from_snapshot_header(&header),
        Ok(0)
    );
    assert_eq!(replicator.meta, Some(meta));
}

#[test]
fn snapshot_must_start_at_the_expected_frame() {
    let mut meta = Some(WalIndexMeta {
        pre_commit_frame_no: 9,
        post_commit_frame_no: 9,
        generation_id: 3,
        database_id: 77,
    });
    let before = meta;
    // Older than what was applied: nothing to do.
    assert_eq!(apply_snapshot_header(&mut meta, &snapshot_header(4, 3)), Ok(0));
    assert_eq!(meta, before);
    // Beyond the frame expected next: frames would be skipped.
    assert_eq!(
        apply_snapshot_header(&mut meta, &snapshot_header(11, 3)),
        Err(ReplicationError::Other(Fault::SnapshotAhead {
            start_frame_no: 11,
            expected: 10
        }))
    );
    assert_eq!(meta, before);
    // The frame expected next.
    assert_eq!(apply_snapshot_header(&mut meta, &snapshot_header(10, 3)), Ok(3));
    assert_eq!(meta.unwrap().post_commit_frame_no, 10);
    assert_eq!(meta.unwrap().generation_id, 1);
}

#[test]
fn replica_that_applied_nothing_expects_frame_zero() {
    let hello = Hello {
        generation_id: 5,
        generation_start_index: 0,
        database_id: 77,
    };
    let fresh = WalIndexMeta::new_from_hello(&hello);
    assert_eq!(fresh.post_commit_frame_no, NO_FRAME);
    assert_eq!(fresh.current_frame_no(), None);
    assert_eq!(fresh.next_frame_no(), 0);
    let mut meta = Some(fresh);
    assert_eq!(apply_snapshot_header(&mut meta, &snapshot_header(0, 2)), Ok(2));
    assert_eq!(meta.unwrap().current_frame_no(), Some(0));
    assert_eq!(meta.unwrap().next_frame_no(), 1);
}

#[test]
fn truncated_snapshot_header_is_refused() {
    let mut replicator = Replicator::new();
    assert_eq!(
        replicator.update_metadata_from_snapshot_header(&[0u8; 31]),
        Err(ReplicationError::Other(Fault::SnapshotHeaderTruncated))
    );
    assert_eq!(replicator.meta, None);
}

#[test]
fn handshake_with_another_database_is_incompatible() {
    let meta = WalIndexMeta {
        pre_commit_frame_no: 4,
        post_commit_frame_no: 4,
        generation_id: 3,
        database_id: 77,
    };
    let same = Hello {
        generation_id: 3,
        generation_start_index: 0,
        database_id: 77,
    };
    assert_eq!(meta.merge_from_hello(&same), Ok(meta));
    let other_db = Hello {
        database_id: 78,
        ..same
    };
    assert_eq!(
        meta.merge_from_hello(&other_db),
        Err(ReplicationError::DbIncompatible)
    );
    let other_generation = Hello {
        generation_id: 4,
        ..same
    };
    assert_eq!(
        meta.merge_from_hello(&other_generation),
        Err(ReplicationError::DbIncompatible)
    );
    let untouched = WalIndexMeta::new_from_hello(&same);
    assert_eq!(
        untouched.merge_from_hello(&other_generation).unwrap().generation_id,
        4
    );
}

#[test]
fn commits_need_metadata() {
    let mut none = None;
    assert_eq!(
        pre_commit(&mut none, 3),
        Err(ReplicationError::Other(Fault::MetaNotInitialized))
    );
    assert_eq!(
        post_commit(&mut none, 3),
        Err(ReplicationError::Other(Fault::MetaNotInitialized))
    );
    let mut meta = Some(WalIndexMeta {
        pre_commit_frame_no: NO_FRAME,
        post_commit_frame_no: NO_FRAME,
        generation_id: 1,
        database_id: 1,
    });
    assert_eq!(pre_commit(&mut meta, 3), Ok(()));
    assert_eq!(meta.unwrap().pre_commit_frame_no, 3);
    assert_eq!(meta.unwrap().post_commit_frame_no, NO_FRAME);
    assert_eq!(post_commit(&mut meta, 3), Ok(3));
    assert_eq!(meta.unwrap().post_commit_frame_no, 3);
}

#[test]
fn batch_ends_where_its_last_frame_says() {
    let open = Frames::Vec(vec![frame(4, 0), frame(5, 0)]);
    assert_eq!(
        open.to_request(),
        InjectRequest {
            last_frame_no: 5,
            size_after: 0
        }
    );
    assert!(!open.to_request().is_commit());
    let closing = Frames::Vec(vec![frame(6, 0), frame(7, 12)]);
    assert_eq!(
        closing.to_request(),
        InjectRequest {
            last_frame_no: 7,
            size_after: 12
        }
    );
    assert!(closing.to_request().is_commit());
    assert_eq!(
        Frames::Vec(vec![]).to_request(),
        InjectRequest {
            last_frame_no: 0,
            size_after: 0
        }
    );
}

#[test]
fn snapshot_batch_ends_at_its_last_frame() {
    let mut log_file = LogFile::new(FileImage::new(), 10).unwrap();
    for i in 0..3u32 {
        log_file
            .push_page(&WalPage {
                page_no: i + 1,
                size_after: if i == 2 { 3 } else { 0 },
                data: vec![i as u8; 4096],
            })
            .unwrap();
    }
    log_file.commit().unwrap();
    let snapshot = SnapshotFile::from_log(&log_file);
    let frames = Frames::Snapshot(snapshot);
    assert_eq!(
        frames.to_request(),
        InjectRequest {
            last_frame_no: 2,
            size_after: 3
        }
    );
}

#[test]
fn injection_moves_the_metadata_at_transaction_ends() {
    let mut ctx = InjectorHookCtx::new();
    let mut meta = Some(WalIndexMeta {
        pre_commit_frame_no: NO_FRAME,
        post_commit_frame_no: NO_FRAME,
        generation_id: 1,
        database_id: 1,
    });
    assert!(!ctx.is_txn);

    // A batch in the middle of a transaction.
    let middle = InjectRequest {
        last_frame_no: 5,
        size_after: 0,
    };
    assert_eq!(ctx.inject_pages_begin(&mut meta, &middle), Ok(()));
    assert!(ctx.is_txn);
    assert_eq!(meta.unwrap().pre_commit_frame_no, NO_FRAME);
    assert_eq!(ctx.inject_pages_end(&mut meta, &middle, 0), Ok(None));
    assert!(ctx.is_txn);
    assert_eq!(ctx.after_batch(true), None);

    // The batch that ends it.
    let last = InjectRequest {
        last_frame_no: 7,
        size_after: 9,
    };
    assert_eq!(ctx.inject_pages_begin(&mut meta, &last), Ok(()));
    assert_eq!(meta.unwrap().pre_commit_frame_no, 7);
    assert_eq!(meta.unwrap().post_commit_frame_no, NO_FRAME);
    assert_eq!(ctx.inject_pages_end(&mut meta, &last, 0), Ok(Some(7)));
    assert_eq!(meta.unwrap().post_commit_frame_no, 7);
    assert!(!ctx.is_txn);
    assert_eq!(ctx.after_batch(true), Some(LIBSQL_CONTINUE_REPLICATION));
}

#[test]
fn failed_injection_stops_replication() {
    let mut ctx = InjectorHookCtx::new();
    let mut meta = Some(WalIndexMeta {
        pre_commit_frame_no: 1,
        post_commit_frame_no: 1,
        generation_id: 1,
        database_id: 1,
    });
    let request = InjectRequest {
        last_frame_no: 2,
        size_after: 2,
    };
    ctx.inject_pages_begin(&mut meta, &request).unwrap();
    assert_eq!(
        ctx.inject_pages_end(&mut meta, &request, 10),
        Err(ReplicationError::Other(Fault::ApplyFailed))
    );
    assert_eq!(meta.unwrap().post_commit_frame_no, 1);
    assert_eq!(ctx.after_batch(false), Some(LIBSQL_EXIT_REPLICATION));
    assert_eq!(ctx.after_close(), LIBSQL_EXIT_REPLICATION);

    let mut none = None;
    assert_eq!(
        ctx.inject_pages_begin(&mut none, &request),
        Err(ReplicationError::Other(Fault::MetaNotInitialized))
    );
}

#[test]
fn step_says_whether_replication_goes_on() {
    let mut injector = FrameInjector::new();
    assert!(FrameInjector::is_step_code(LIBSQL_CONTINUE_REPLICATION));
    assert!(FrameInjector::is_step_code(LIBSQL_EXIT_REPLICATION));
    assert!(!FrameInjector::is_step_code(0));
    assert!(!FrameInjector::is_step_code(1));
    assert!(injector.step(LIBSQL_CONTINUE_REPLICATION));
    assert!(!injector.step(LIBSQL_EXIT_REPLICATION));
}

#[test]
fn sync_counts_the_frames_to_apply() {
    let mut replicator = Replicator::new();
    assert_eq!(
        replicator.sync(&Frames::Vec(vec![frame(0, 0), frame(1, 2)])),
        Ok(2)
    );
    assert_eq!(replicator.sync(&Frames::Vec(vec![])), Ok(0));
    assert_eq!(replicator.meta, None);

    let mut log_file = LogFile::new(FileImage::new(), 10).unwrap();
    log_file
        .push_page(&WalPage {
            page_no: 1,
            size_after: 1,
            data: vec![1; 4096],
        })
        .unwrap();
    log_file.commit().unwrap();
    let bytes = SnapshotFile::from_log(&log_file).as_bytes().to_vec();
    let first = Frames::Snapshot(SnapshotFile::open(bytes.clone()).unwrap());
    assert_eq!(replicator.sync(&first), Ok(1));
    assert_eq!(replicator.meta.unwrap().post_commit_frame_no, 0);
    let again = Frames::Snapshot(SnapshotFile::open(bytes).unwrap());
    assert_eq!(replicator.sync(&again), Ok(0));
    assert_eq!(replicator.meta.unwrap().post_commit_frame_no, 0);
}

#[test]
fn offset_advances_by_what_was_fetched() {
    let mut replicator = Replicator::new();
    assert_eq!(replicator.advance(3), 0);
    assert_eq!(replicator.next_offset, 3);
    assert_eq!(replicator.advance(0), 3);
    assert_eq!(replicator.next_offset, 3);
    replicator.next_offset = u64::MAX;
    assert_eq!(replicator.advance(2), u64::MAX);
    assert_eq!(replicator.next_offset, 1);
    assert!(Replicator::retries_with_hello(Code::FailedPrecondition));
    assert!(!Replicator::retries_with_hello(Code::Internal));
    assert!(!Replicator::retries_with_hello(Code::OutOfRange));
}

#[test]
fn replication_error_messages() {
    assert_eq!(
        ReplicationError::Lagging.message(),
        "Replica is ahead of primary"
    );
    assert_eq!(
        ReplicationError::DbIncompatible.message(),
        "Trying to replicate incompatible databases"
    );
    assert_eq!(
        ReplicationError::Other(Fault::ApplyFailed).message(),
        "failed to apply pages"
    );
}

#[test]
fn replicator_announces_the_frame_that_a_batch_reached() {
    let mut replicator = Replicator::new();
    assert_eq!(replicator.current_frame_no_notifier, NO_FRAME);
    replicator.meta = Some(WalIndexMeta {
        pre_commit_frame_no: NO_FRAME,
        post_commit_frame_no: NO_FRAME,
        generation_id: 1,
        database_id: 1,
    });

    // A batch in the middle of a transaction announces nothing.
    let middle = InjectRequest {
        last_frame_no: 3,
        size_after: 0,
    };
    assert_eq!(replicator.begin_batch(&middle), Ok(()));
    assert!(replicator.injector.hook_ctx.is_txn);
    assert_eq!(replicator.end_batch(&middle, 0), Ok(None));
    assert_eq!(replicator.current_frame_no_notifier, NO_FRAME);

    // The batch that ends it announces its last frame.
    let last = InjectRequest {
        last_frame_no: 5,
        size_after: 7,
    };
    assert_eq!(replicator.begin_batch(&last), Ok(()));
    assert_eq!(replicator.meta.unwrap().pre_commit_frame_no, 5);
    assert_eq!(replicator.end_batch(&last, 0), Ok(Some(5)));
    assert_eq!(replicator.current_frame_no_notifier, 5);
    assert_eq!(replicator.meta.unwrap().post_commit_frame_no, 5);
    assert!(!replicator.injector.hook_ctx.is_txn);

    // A batch that the engine could not apply announces nothing.
    let failed = InjectRequest {
        last_frame_no: 6,
        size_after: 8,
    };
    assert_eq!(replicator.begin_batch(&failed), Ok(()));
    assert_eq!(
        replicator.end_batch(&failed, 1),
        Err(ReplicationError::Other(Fault::ApplyFailed))
    );
    assert_eq!(replicator.current_frame_no_notifier, 5);
    assert_eq!(replicator.meta.unwrap().post_commit_frame_no, 5);
}

#[test]
fn batch_needs_metadata_to_end_a_transaction() {
    let mut replicator = Replicator::new();
    let last = InjectRequest {
        last_frame_no: 5,
        size_after: 7,
    };
    assert_eq!(
        replicator.begin_batch(&last),
        Err(ReplicationError::Other(Fault::MetaNotInitialized))
    );
    assert_eq!(replicator.meta, None);
    assert_eq!(replicator.current_frame_no_notifier, NO_FRAME);
}

#[test]
fn step_follows_where_frames_are_to_apply() {
    assert!(!Replicator::step_follows(0));
    assert!(Replicator::step_follows(1));
    assert!(Replicator::step_follows(usize::MAX));
}
