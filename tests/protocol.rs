use droptea::compression::{choose_receiver_algo, choose_sender_algo, CompressionAlgo};
use droptea::events::incoming_request_text;
use droptea::notification::{UserResponse, WinToastError};
use droptea::transfer::{
    admission, frame_header, outgoing_header, pack_ack, part_path, read_header_len,
    sender_step, unpack_ack, user_accepted, Admission, AckError, FrameError, Progress,
    SenderStep, ACK_SIZE, MAX_HEADER_SIZE,
};
use droptea::utils;

#[test]
fn ack_bytes_are_status_then_little_endian_offset() {
    let b = pack_ack(1, 0x0102030405060708);
    assert_eq!(b, vec![1, 8, 7, 6, 5, 4, 3, 2, 1]);
    assert_eq!(b.len(), ACK_SIZE);
}

#[test]
fn ack_round_trip_on_edges() {
    for &(s, o) in &[(0u8, 0u64), (255, u64::MAX), (1, 0), (0, 1 << 63), (7, 123456789)] {
        assert_eq!(unpack_ack(&pack_ack(s, o)), Ok((s, o)));
    }
}

#[test]
fn ack_too_short_is_refused() {
    assert_eq!(unpack_ack(&[1, 0, 0, 0, 0, 0, 0, 0]), Err(AckError::TooShort));
    assert_eq!(unpack_ack(&[]), Err(AckError::TooShort));
}

#[test]
fn ack_extra_bytes_are_ignored() {
    assert_eq!(unpack_ack(&[0, 2, 0, 0, 0, 0, 0, 0, 0, 9, 9]), Ok((0, 2)));
}

#[test]
fn utils_ack_matches_transfer_ack() {
    assert_eq!(utils::pack_ack(0, 0), vec![0; 9]);
    assert_eq!(utils::unpack_ack(&utils::pack_ack(1, 5)), Ok((1, 5)));
}

#[test]
fn header_frame_prefixes_length() {
    let json = b"{\"a\":1}".to_vec();
    let f = frame_header(&json).unwrap();
    assert_eq!(&f[..4], &[7, 0, 0, 0]);
    assert_eq!(&f[4..], &json[..]);
    assert_eq!(read_header_len(&f[..4]), Ok(7));
}

#[test]
fn header_len_limits() {
    assert_eq!(read_header_len(&[]), Err(FrameError::Truncated));
    assert_eq!(read_header_len(&[1, 2, 3]), Err(FrameError::Truncated));
    assert_eq!(read_header_len(&[0, 0, 1, 0]), Ok(MAX_HEADER_SIZE));
    assert_eq!(read_header_len(&[1, 0, 1, 0]), Err(FrameError::TooLarge));
    let big = vec![b'x'; MAX_HEADER_SIZE + 1];
    assert_eq!(frame_header(&big), Err(FrameError::TooLarge));
}

#[test]
fn codec_names() {
    assert_eq!(CompressionAlgo::Zstd.as_str(), "zstd");
    assert_eq!(CompressionAlgo::Raw.as_str(), "none");
    assert_eq!(CompressionAlgo::from_str("gzip"), Some(CompressionAlgo::Gzip));
    assert_eq!(CompressionAlgo::from_str("zlib"), Some(CompressionAlgo::Zlib));
    assert_eq!(CompressionAlgo::from_str("none"), Some(CompressionAlgo::Raw));
    assert_eq!(CompressionAlgo::from_str("ZSTD"), None);
    assert_eq!(CompressionAlgo::from_str(""), None);
    for a in [CompressionAlgo::Zstd, CompressionAlgo::Gzip, CompressionAlgo::Zlib, CompressionAlgo::Raw] {
        assert_eq!(CompressionAlgo::from_str(a.as_str()), Some(a));
    }
}

#[test]
fn codec_choices() {
    assert_eq!(choose_sender_algo(Some("ios")), CompressionAlgo::Raw);
    assert_eq!(choose_sender_algo(Some("android")), CompressionAlgo::Zstd);
    assert_eq!(choose_sender_algo(None), CompressionAlgo::Zstd);
    assert_eq!(choose_receiver_algo(&None), CompressionAlgo::Zstd);
    assert_eq!(choose_receiver_algo(&Some("gzip".to_string())), CompressionAlgo::Gzip);
    assert_eq!(choose_receiver_algo(&Some("brotli".to_string())), CompressionAlgo::Zstd);
}

#[test]
fn receiver_admission() {
    assert_eq!(admission(false, true), Admission::Busy);
    assert_eq!(admission(true, true), Admission::AutoAccept);
    assert_eq!(admission(true, false), Admission::AskUser);
    assert!(user_accepted(Some(UserResponse::Accept)));
    assert!(!user_accepted(Some(UserResponse::Decline)));
    assert!(!user_accepted(Some(UserResponse::Dismissed)));
    assert!(!user_accepted(None));
}

#[test]
fn sender_reads_the_ack() {
    assert!(matches!(sender_step(Some(&pack_ack(1, 0))), SenderStep::Stream));
    match sender_step(Some(&pack_ack(0, 0))) {
        SenderStep::Reject { reason } => assert_eq!(reason, "Receiver Rejected"),
        _ => panic!("expected a rejection"),
    }
    match sender_step(None) {
        SenderStep::Reject { reason } => assert_eq!(reason, "Timeout"),
        _ => panic!("expected a rejection"),
    }
    match sender_step(Some(&[1, 0])) {
        SenderStep::Reject { reason } => assert_eq!(reason, "Timeout"),
        _ => panic!("expected a rejection"),
    }
}

#[test]
fn part_file_name() {
    assert_eq!(part_path("/tmp/notes.txt"), "/tmp/notes.txt.part");
}

#[test]
fn progress_notifications() {
    let mib = 1024 * 1024;
    let mut p = Progress::new(3 * mib, 0);
    assert_eq!(p.record(mib / 2, 500), None);
    assert_eq!(p.record(mib, 550), Some((mib + mib / 2, 3 * mib)));
    assert_eq!(p.record(mib, 600), None);
    assert_eq!(p.record(mib / 2, 610), Some((3 * mib, 3 * mib)));
}

#[test]
fn progress_empty_file_reports_end() {
    let mut p = Progress::new(0, 0);
    assert_eq!(p.record(0, 0), Some((0, 0)));
}

#[test]
fn outgoing_header_fields() {
    let (h, a) = outgoing_header("/home/u/notes.txt", 42, "alice".to_string(), "linux".to_string(), Some("ios")).unwrap();
    assert_eq!(h.filename, "notes.txt");
    assert_eq!(h.filesize, 42);
    assert_eq!(h.sender_name, "alice");
    assert_eq!(h.sender_device, "linux");
    assert_eq!(a, CompressionAlgo::Raw);
    assert_eq!(h.compression.as_deref(), Some("none"));
    let (h2, a2) = outgoing_header("x.bin", 1, "b".to_string(), "macos".to_string(), None).unwrap();
    assert_eq!(h2.compression.as_deref(), Some("zstd"));
    assert_eq!(a2, CompressionAlgo::Zstd);
    assert!(outgoing_header("/", 1, "b".to_string(), "macos".to_string(), None).is_none());
}

#[test]
fn request_text_layout() {
    assert_eq!(
        incoming_request_text("notes.txt", 1048576, "alice", "linux"),
        "[[REQUEST]]|notes.txt|1048576|alice|linux"
    );
    assert_eq!(incoming_request_text("a", 0, "", ""), "[[REQUEST]]|a|0||");
}

#[test]
fn toast_error_codes() {
    assert_eq!(WinToastError::from(0), WinToastError::UnknownError);
    assert_eq!(WinToastError::from(-1), WinToastError::UnknownError);
    assert!(droptea::notification::init_system());
}
