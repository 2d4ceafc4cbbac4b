use libsql_replication::error::LogError;
use libsql_replication::primary::log_file::{LogFile, WalPage};
use libsql_replication::primary::log_model::LogReadError;
use libsql_replication::primary::logger::{OpenOutcome, ReplicationLogger};
use libsql_replication::storage::FileImage;

fn open_empty() -> ReplicationLogger {
    match ReplicationLogger::open(FileImage::new(), 0, false, true, false).unwrap() {
        OpenOutcome::Ready(logger) => logger,
        OpenOutcome::Recover(_) => panic!("an empty log beside no database needs no recovery"),
    }
}

#[test]
fn write_and_read_from_frame_log() {
    let mut logger = open_empty();

    let frames = (0..10)
        .map(|i| WalPage {
            page_no: i,
            size_after: 0,
            data: vec![i as u8; 4096],
        })
        .collect::<Vec<_>>();
    logger.write_pages(&frames).unwrap();
    logger.commit().unwrap();

    let log_file = &logger.log_file;
    for i in 0..10 {
        let frame = log_file.frame(i).unwrap();
        assert_eq!(frame.header().page_no, i as u32);
        assert!(frame.page().iter().all(|x| i as u8 == *x));
    }

    assert_eq!(
        log_file.header().start_frame_no + log_file.header().frame_count,
        10
    );
}

#[test]
fn index_out_of_bounds() {
    let logger = open_empty();
    let log_file = &logger.log_file;
    assert!(matches!(log_file.frame(1), Err(LogReadError::Ahead)));
}

#[test]
fn log_file_test_rollback() {
    let f = FileImage::new();
    let mut log_file = LogFile::new(f, 100).unwrap();
    (0..5)
        .map(|i| WalPage {
            page_no: i,
            size_after: 5,
            data: vec![1; 4096],
        })
        .for_each(|p| {
            log_file.push_page(&p).unwrap();
        });

    assert_eq!(log_file.frames_iter().unwrap().iter().count(), 0);

    log_file.commit().unwrap();

    (0..5)
        .map(|i| WalPage {
            page_no: i,
            size_after: 5,
            data: vec![1; 4096],
        })
        .for_each(|p| {
            log_file.push_page(&p).unwrap();
        });

    log_file.rollback();
    assert_eq!(log_file.frames_iter().unwrap().iter().count(), 5);

    log_file
        .push_page(&WalPage {
            page_no: 42,
            size_after: 5,
            data: vec![1; 4096],
        })
        .unwrap();

    assert_eq!(log_file.frames_iter().unwrap().iter().count(), 5);
    log_file.commit().unwrap();
    assert_eq!(log_file.frames_iter().unwrap().iter().count(), 6);
}

fn page(page_no: u32, size_after: u32, fill: u8) -> WalPage {
    WalPage {
        page_no,
        size_after,
        data: vec![fill; 4096],
    }
}

#[test]
fn frames_chain_their_checksums() {
    let mut log_file = LogFile::new(FileImage::new(), 100).unwrap();
    log_file.push_page(&page(1, 0, 1)).unwrap();
    log_file.push_page(&page(2, 2, 2)).unwrap();
    log_file.commit().unwrap();

    let first = log_file.frame(0).unwrap().header();
    let second = log_file.frame(1).unwrap().header();
    assert_eq!(first.frame_no, 0);
    assert_eq!(first.checksum, 0x947a_0aff_0bba_0a0b);
    assert_eq!(first.size_after, 0);
    assert_eq!(second.frame_no, 1);
    assert_eq!(second.checksum, 0x7d14_e97f_ce75_c43d);
    assert_eq!(second.page_no, 2);
    assert_eq!(second.size_after, 2);

    let header = *log_file.header();
    assert_eq!(
        ReplicationLogger::compute_checksum(&header, &log_file),
        Ok(0x7d14_e97f_ce75_c43d)
    );
}

#[test]
fn log_file_layout_is_header_then_frames() {
    let mut log_file = LogFile::create(FileImage::new(), 100, 7);
    assert_eq!(log_file.file().len(), 64);
    assert_eq!(log_file.next_byte_offset(), 64);
    assert_eq!(LogFile::absolute_byte_offset(3), 64 + 3 * 4120);
    log_file.push_page(&page(9, 0, 3)).unwrap();
    assert_eq!(log_file.file().len(), 64 + 4120);
    assert_eq!(log_file.next_byte_offset(), 64 + 4120);
    assert_eq!(log_file.next_frame_no(), 1);
    // Not committed: the header in the file still counts no frame.
    assert_eq!(&log_file.file().as_bytes()[40..48], &[0u8; 8]);
    assert_eq!(log_file.last_commited_frame_no(), None);
    log_file.commit().unwrap();
    assert_eq!(&log_file.file().as_bytes()[40..48], &[1, 0, 0, 0, 0, 0, 0, 0]);
    assert_eq!(log_file.last_commited_frame_no(), Some(0));
    assert_eq!(log_file.header().db_id, 7);
    assert_eq!(log_file.byte_offset(0), Some(64));
    assert_eq!(log_file.byte_offset(1), Some(64 + 4120));
    assert_eq!(log_file.byte_offset(2), None);
    let bytes = log_file.file().as_bytes();
    assert_eq!(&bytes[64 + 16..64 + 20], &[9, 0, 0, 0]);
    assert!(bytes[64 + 24..].iter().all(|b| *b == 3));
}

#[test]
fn reopened_log_goes_on_from_the_last_frame() {
    let mut log_file = LogFile::new(FileImage::new(), 100).unwrap();
    log_file.push_page(&page(1, 1, 1)).unwrap();
    log_file.commit().unwrap();
    let db_id = log_file.header().db_id;
    let bytes = log_file.file().as_bytes().to_vec();

    let mut reopened = LogFile::new(FileImage::from_bytes(bytes), 100).unwrap();
    assert_eq!(reopened.header().db_id, db_id);
    assert_eq!(reopened.header().frame_count, 1);
    reopened.push_page(&page(2, 2, 2)).unwrap();
    reopened.commit().unwrap();
    let second = reopened.frame(1).unwrap().header();
    assert_eq!(second.checksum, 0x7d14_e97f_ce75_c43d);
    let frames = reopened.frames_iter().unwrap();
    let reversed = reopened.rev_frames_iter().unwrap();
    assert_eq!(frames.len(), 2);
    assert_eq!(frames[0].header().frame_no, 0);
    assert_eq!(reversed[0].header().frame_no, 1);
    assert_eq!(reversed[1].header().frame_no, 0);
}

#[test]
fn corrupt_files_are_refused() {
    let log_file = LogFile::create(FileImage::new(), 100, 1);
    let good = log_file.file().as_bytes().to_vec();

    let mut bad_magic = good.clone();
    bad_magic[0] ^= 0xff;
    assert_eq!(
        LogFile::new(FileImage::from_bytes(bad_magic), 100).err(),
        Some(LogError::InvalidHeader)
    );

    let mut bad_page_size = good.clone();
    bad_page_size[53] = 32;
    assert_eq!(
        LogFile::new(FileImage::from_bytes(bad_page_size), 100).err(),
        Some(LogError::InvalidHeader)
    );

    assert_eq!(
        LogFile::new(FileImage::from_bytes(good[..10].to_vec()), 100).err(),
        Some(LogError::UnexpectedEof)
    );

    // A header that counts a frame which the file does not hold.
    let mut counts_one = good.clone();
    counts_one[40] = 1;
    assert_eq!(
        LogFile::new(FileImage::from_bytes(counts_one), 100).err(),
        Some(LogError::UnexpectedEof)
    );

    // Frame numbers would run past the largest one.
    let mut overflow = good.clone();
    for b in &mut overflow[32..40] {
        *b = 0xff;
    }
    overflow[40] = 1;
    assert_eq!(
        LogFile::new(FileImage::from_bytes(overflow), 100).err(),
        Some(LogError::InvalidHeader)
    );
    assert!(LogFile::read_header(&FileImage::from_bytes(good)).is_ok());
}

fn log_starting_at(start_frame_no: u64) -> LogFile {
    let fresh = LogFile::create(FileImage::new(), 100, 1);
    let mut bytes = fresh.file().as_bytes().to_vec();
    bytes[32..40].copy_from_slice(&start_frame_no.to_le_bytes());
    LogFile::new(FileImage::from_bytes(bytes), 100).unwrap()
}

#[test]
fn out_of_range_classification() {
    let log_file = log_starting_at(50);
    assert!(matches!(
        log_file.frame(0),
        Err(LogReadError::SnapshotRequired)
    ));
    assert!(matches!(
        log_file.frame(49),
        Err(LogReadError::SnapshotRequired)
    ));
    assert!(matches!(log_file.frame(50), Err(LogReadError::Ahead)));

    let mut ten = LogFile::new(FileImage::new(), 100).unwrap();
    for i in 0..10 {
        ten.push_page(&page(i, 0, i as u8)).unwrap();
    }
    ten.commit().unwrap();
    assert_eq!(ten.header().frame_count, 10);
    assert!(matches!(ten.frame(1000), Err(LogReadError::Ahead)));
    assert!(matches!(ten.frame(10), Err(LogReadError::Ahead)));
    assert!(ten.frame(9).is_ok());
}

#[test]
fn frame_numbers_run_out() {
    let mut log_file = log_starting_at(u64::MAX);
    assert_eq!(
        log_file.push_page(&page(1, 0, 0)),
        Err(LogError::FrameNoExhausted)
    );
    assert_eq!(log_file.file().len(), 64);
    let mut last = log_starting_at(u64::MAX - 1);
    assert_eq!(last.push_page(&page(1, 0, 0)), Ok(()));
    assert_eq!(
        last.push_page(&page(1, 0, 0)),
        Err(LogError::FrameNoExhausted)
    );
}

#[test]
fn rollback_isolation() {
    let mut log_file = LogFile::new(FileImage::new(), 100).unwrap();
    log_file.push_page(&page(1, 1, 1)).unwrap();
    log_file.commit().unwrap();
    for i in 0..3 {
        log_file.push_page(&page(10 + i, 0, 0xee)).unwrap();
    }
    assert!(matches!(log_file.frame(1), Err(LogReadError::Ahead)));
    log_file.rollback();
    assert_eq!(log_file.header().frame_count, 1);
    assert!(matches!(log_file.frame(1), Err(LogReadError::Ahead)));
    assert!(matches!(log_file.frame(3), Err(LogReadError::Ahead)));
    assert_eq!(log_file.next_byte_offset(), 64 + 4120);

    log_file.push_page(&page(2, 2, 2)).unwrap();
    log_file.commit().unwrap();
    let frame = log_file.frame(1).unwrap();
    assert_eq!(frame.header().page_no, 2);
    assert_eq!(frame.header().frame_no, 1);
    // Chained to the committed frame, not to what was rolled back.
    assert_eq!(frame.header().checksum, 0x7d14_e97f_ce75_c43d);
    assert!(frame.page().iter().all(|b| *b == 2));
}

#[test]
fn broken_chain_is_found() {
    let mut log_file = LogFile::new(FileImage::new(), 100).unwrap();
    log_file.push_page(&page(1, 0, 1)).unwrap();
    log_file.push_page(&page(2, 2, 2)).unwrap();
    log_file.commit().unwrap();
    let mut bytes = log_file.file().as_bytes().to_vec();
    bytes[64 + 24] ^= 1;
    let corrupt = LogFile::new(FileImage::from_bytes(bytes), 100).unwrap();
    let header = *corrupt.header();
    assert_eq!(
        ReplicationLogger::compute_checksum(&header, &corrupt),
        Err(LogError::InvalidChecksum)
    );
}

#[test]
fn compaction_starts_where_the_log_ends() {
    let mut log_file = LogFile::new(FileImage::new(), 2).unwrap();
    for i in 0..3 {
        log_file.push_page(&page(i + 1, 0, i as u8 + 1)).unwrap();
        log_file.commit().unwrap();
        if i < 2 {
            assert!(log_file.maybe_compact().is_none());
        }
    }
    let db_id = log_file.header().db_id;
    let last_checksum = log_file.frame(2).unwrap().header().checksum;
    let retired = log_file.maybe_compact().unwrap();
    assert_eq!(retired.header().frame_count, 3);
    assert_eq!(log_file.header().start_frame_no, 3);
    assert_eq!(log_file.header().frame_count, 0);
    assert_eq!(log_file.header().start_checksum, last_checksum);
    assert_eq!(log_file.header().db_id, db_id);
    assert_eq!(log_file.file().len(), 64);
    assert!(matches!(
        log_file.frame(2),
        Err(LogReadError::SnapshotRequired)
    ));

    log_file.push_page(&page(7, 1, 7)).unwrap();
    log_file.commit().unwrap();
    let frame = log_file.frame(3).unwrap();
    assert_eq!(frame.header().frame_no, 3);
    assert_eq!(
        frame.header().checksum,
        libsql_replication::checksum::page_checksum(last_checksum, &[7u8; 4096])
    );
    let header = *log_file.header();
    assert!(ReplicationLogger::compute_checksum(&header, &log_file).is_ok());
}

#[test]
fn reset_empties_the_log() {
    let mut log_file = LogFile::new(FileImage::new(), 100).unwrap();
    log_file.push_page(&page(1, 1, 1)).unwrap();
    log_file.commit().unwrap();
    let log_file = log_file.reset().unwrap();
    assert_eq!(log_file.header().frame_count, 0);
    assert_eq!(log_file.header().start_frame_no, 0);
    assert_eq!(log_file.file().len(), 64);
}

#[test]
fn file_never_counts_a_frame_that_is_not_whole() {
    let mut log_file = LogFile::new(FileImage::new(), 100).unwrap();
    let mut committed = 0;
    for round in 0..3u32 {
        for i in 0..2u32 {
            log_file.push_page(&page(round * 2 + i, 0, round as u8)).unwrap();
            // What a reader of the file finds in the middle of a
            // transaction: the committed frames, whole and chained.
            let seen = LogFile::new(FileImage::from_bytes(log_file.file().as_bytes().to_vec()), 100)
                .unwrap();
            assert_eq!(seen.header().frame_count, committed);
            let header = *seen.header();
            assert!(ReplicationLogger::compute_checksum(&header, &seen).is_ok());
            assert_eq!(seen.frames_iter().unwrap().len() as u64, committed);
        }
        if round == 1 {
            log_file.rollback();
        } else {
            log_file.commit().unwrap();
            committed += 2;
        }
    }
    assert_eq!(log_file.header().frame_count, 4);
    for i in 0..4u64 {
        assert_eq!(log_file.frame(i).unwrap().header().frame_no, i);
    }
}
