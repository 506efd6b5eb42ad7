use chaoscat::{connect, open, read, sendto, socket};
use chaoscat::{ErrorCode, ErrorStatus, Verdict};

const EVERYTHING: &str = "open:read:write:socket:connect:sendto";

#[test]
fn nothing_is_failed_without_a_configuration() {
    for _ in 0..1_000 {
        let mut status = ErrorStatus::untouched();
        assert_eq!(open(None, &mut status), Ok(Verdict::PassThrough));
        assert_eq!(read(5, None, &mut status), Ok(Verdict::PassThrough));
        assert_eq!(chaoscat::write(5, None, &mut status), Ok(Verdict::PassThrough));
        assert_eq!(socket(None, &mut status), Ok(Verdict::PassThrough));
        assert_eq!(connect(None, &mut status), Ok(Verdict::PassThrough));
        assert_eq!(sendto(None, &mut status), Ok(Verdict::PassThrough));
        assert_eq!(status, ErrorStatus::untouched());
    }
}

#[test]
fn an_operation_absent_from_the_configuration_is_a_no_op() {
    for _ in 0..1_000 {
        let mut status = ErrorStatus::untouched();
        assert_eq!(open(Some("read:write"), &mut status), Ok(Verdict::PassThrough));
        assert_eq!(read(5, Some("open:write"), &mut status), Ok(Verdict::PassThrough));
        assert_eq!(chaoscat::write(5, Some("open:read"), &mut status), Ok(Verdict::PassThrough));
        assert_eq!(socket(Some("connect:sendto"), &mut status), Ok(Verdict::PassThrough));
        assert_eq!(connect(Some("socket:sendto"), &mut status), Ok(Verdict::PassThrough));
        assert_eq!(sendto(Some("socket:connect"), &mut status), Ok(Verdict::PassThrough));
        assert_eq!(status, ErrorStatus::untouched());
    }
}

#[test]
fn the_cell_is_left_alone_on_a_call_that_is_passed_through() {
    let mut status = ErrorStatus { last: Some(ErrorCode::NoBufferSpace) };
    assert_eq!(read(7, Some("write"), &mut status), Ok(Verdict::PassThrough));
    assert_eq!(status.last, Some(ErrorCode::NoBufferSpace));
    assert_eq!(chaoscat::write(1, Some("write"), &mut status), Ok(Verdict::PassThrough));
    assert_eq!(status.last, Some(ErrorCode::NoBufferSpace));
}

#[test]
fn reads_from_the_standard_streams_are_never_failed() {
    for fd in [0, 1, 2] {
        for config in [Some("read"), Some(EVERYTHING), Some(" read "), None] {
            for _ in 0..1_000 {
                let mut status = ErrorStatus::untouched();
                assert_eq!(read(fd, config, &mut status), Ok(Verdict::PassThrough));
                assert_eq!(status, ErrorStatus::untouched());
            }
        }
    }
}

#[test]
fn writes_to_the_standard_streams_are_never_failed() {
    for fd in [0, 1, 2] {
        for config in [Some("write"), Some(EVERYTHING), Some(" write "), None] {
            for _ in 0..1_000 {
                let mut status = ErrorStatus::untouched();
                assert_eq!(chaoscat::write(fd, config, &mut status), Ok(Verdict::PassThrough));
                assert_eq!(status, ErrorStatus::untouched());
            }
        }
    }
}

#[test]
fn descriptors_below_the_standard_streams_are_spared_too() {
    for fd in [-1, -100, i32::MIN] {
        for _ in 0..500 {
            let mut status = ErrorStatus::untouched();
            assert_eq!(read(fd, Some("read"), &mut status), Ok(Verdict::PassThrough));
            assert_eq!(chaoscat::write(fd, Some("write"), &mut status), Ok(Verdict::PassThrough));
        }
    }
}

#[test]
fn writes_fail_at_a_rate_of_one_in_ten() {
    // 10,000 trials at one in ten: 1,000 expected, standard deviation 30.
    let mut injected = 0u32;
    for _ in 0..10_000 {
        let mut status = ErrorStatus::untouched();
        match chaoscat::write(3, Some("write"), &mut status) {
            Ok(Verdict::Injected(value)) => {
                assert_eq!(value, -1isize);
                assert_eq!(status.last, Some(ErrorCode::Interrupted));
                injected += 1;
            },
            Ok(Verdict::PassThrough) => assert_eq!(status, ErrorStatus::untouched()),
            Err(e) => panic!("the random source failed: {:?}", e),
        }
    }
    assert!((820..=1_180).contains(&injected), "{} of 10,000 writes failed", injected);
}

#[test]
fn a_thousand_reads_with_read_enabled() {
    // 1,000 trials at one in ten: 100 expected, standard deviation 9.5.
    let mut injected = 0u32;
    let mut passed = 0u32;
    for _ in 0..1_000 {
        let mut status = ErrorStatus::untouched();
        match read(5, Some("read"), &mut status) {
            Ok(Verdict::Injected(value)) => {
                assert_eq!(value, -1isize);
                assert_eq!(status.last, Some(ErrorCode::Interrupted));
                injected += 1;
            },
            Ok(Verdict::PassThrough) => {
                assert_eq!(status, ErrorStatus::untouched());
                passed += 1;
            },
            Err(e) => panic!("the random source failed: {:?}", e),
        }
    }
    assert_eq!(injected + passed, 1_000);
    assert!((45..=155).contains(&injected), "{} of 1,000 reads failed", injected);
}

#[test]
fn open_fails_as_interrupted() {
    let mut seen = false;
    for _ in 0..2_000 {
        let mut status = ErrorStatus::untouched();
        if let Ok(Verdict::Injected(value)) = open(Some("open"), &mut status) {
            assert_eq!(value, -1i32);
            assert_eq!(status.last, Some(ErrorCode::Interrupted));
            seen = true;
        } else {
            assert_eq!(status, ErrorStatus::untouched());
        }
    }
    assert!(seen);
}

#[test]
fn socket_fails_for_want_of_buffer_space() {
    let mut seen = false;
    for _ in 0..2_000 {
        let mut status = ErrorStatus::untouched();
        if let Ok(Verdict::Injected(value)) = socket(Some("socket"), &mut status) {
            assert_eq!(value, -1i32);
            assert_eq!(status.last, Some(ErrorCode::NoBufferSpace));
            seen = true;
        } else {
            assert_eq!(status, ErrorStatus::untouched());
        }
    }
    assert!(seen);
}

#[test]
fn connect_fails_as_interrupted() {
    let mut seen = false;
    for _ in 0..2_000 {
        let mut status = ErrorStatus::untouched();
        if let Ok(Verdict::Injected(value)) = connect(Some("connect"), &mut status) {
            assert_eq!(value, -1i32);
            assert_eq!(status.last, Some(ErrorCode::Interrupted));
            seen = true;
        } else {
            assert_eq!(status, ErrorStatus::untouched());
        }
    }
    assert!(seen);
}

#[test]
fn sendto_fails_for_want_of_buffer_space() {
    let mut seen = false;
    for _ in 0..2_000 {
        let mut status = ErrorStatus::untouched();
        if let Ok(Verdict::Injected(value)) = sendto(Some("sendto"), &mut status) {
            assert_eq!(value, -1isize);
            assert_eq!(status.last, Some(ErrorCode::NoBufferSpace));
            seen = true;
        } else {
            assert_eq!(status, ErrorStatus::untouched());
        }
    }
    assert!(seen);
}

#[test]
fn read_and_write_fail_as_interrupted() {
    let mut read_seen = false;
    let mut write_seen = false;
    for _ in 0..2_000 {
        let mut status = ErrorStatus::untouched();
        if let Ok(Verdict::Injected(value)) = read(3, Some(" read : write "), &mut status) {
            assert_eq!(value, -1isize);
            assert_eq!(status.last, Some(ErrorCode::Interrupted));
            read_seen = true;
        }
        let mut status = ErrorStatus::untouched();
        if let Ok(Verdict::Injected(value)) = chaoscat::write(3, Some(" read : write "), &mut status) {
            assert_eq!(value, -1isize);
            assert_eq!(status.last, Some(ErrorCode::Interrupted));
            write_seen = true;
        }
    }
    assert!(read_seen);
    assert!(write_seen);
}
