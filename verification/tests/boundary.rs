use lzma2_bridge::boundary::{
    compress_call, complete_transfer, decompress_call, release_call, CallStep, TransferEnd,
};
use lzma2_bridge::codec::{compress_bytes, decompress_bytes, round_trip};
use lzma2_bridge::status::Status;

fn expect_transfer(step: CallStep) -> Vec<u8> {
    match step {
        CallStep::Transfer(payload) => payload,
        other => panic!("expected a transfer, got {:?}", other),
    }
}

#[test]
fn round_trip_hello_world() {
    let input: Vec<u8> = b"hello world".to_vec();
    let step = compress_call(Some(input.as_slice()), false, false);
    let container = expect_transfer(step);
    assert!(container.len() > 0);

    let step = decompress_call(Some(container.as_slice()), false, false);
    let payload = expect_transfer(step);
    assert_eq!(payload.len(), 11);
    assert_eq!(payload, input);
}

#[test]
fn round_trip_empty_input() {
    let empty: Vec<u8> = Vec::new();
    let restored = round_trip(empty.as_slice()).expect("round trip of empty input");
    assert_eq!(restored, empty);
}

#[test]
fn round_trip_larger_input() {
    let mut input: Vec<u8> = Vec::new();
    for i in 0..50000usize {
        input.push((i % 251) as u8);
    }
    let restored = round_trip(input.as_slice()).expect("round trip of patterned input");
    assert_eq!(restored, input);
}

#[test]
fn empty_payload_is_written_as_null_and_zero() {
    let empty: Vec<u8> = Vec::new();
    let container = compress_bytes(empty.as_slice()).expect("compressing empty input");
    let step = decompress_call(Some(container.as_slice()), false, false);
    assert!(matches!(step, CallStep::WriteEmpty));
    assert!(!release_call(0));
}

#[test]
fn null_arguments_rejected() {
    let input: Vec<u8> = b"abc".to_vec();
    let cases: [(bool, bool, bool); 4] = [
        (true, false, false),
        (false, true, false),
        (false, false, true),
        (true, true, true),
    ];
    for (input_null, out_ptr_null, out_len_null) in cases {
        let view = if input_null { None } else { Some(input.as_slice()) };
        let step = compress_call(view, out_ptr_null, out_len_null);
        match step {
            CallStep::Reject(s) => {
                assert_eq!(s, Status::NullPointer);
                assert_eq!(s.code(), 1);
            }
            other => panic!("expected a rejection, got {:?}", other),
        }
        let step = decompress_call(view, out_ptr_null, out_len_null);
        assert!(matches!(step, CallStep::Reject(Status::NullPointer)));
    }
}

#[test]
fn malformed_container_rejected() {
    let garbage: Vec<u8> = vec![0x42];
    let step = decompress_call(Some(garbage.as_slice()), false, false);
    match step {
        CallStep::Reject(s) => {
            assert_eq!(s, Status::IoFailure);
            assert_eq!(s.code(), 2);
        }
        other => panic!("expected a rejection, got {:?}", other),
    }

    let truncated: Vec<u8> = vec![0xFD, 0x37, 0x7A, 0x58, 0x5A, 0x00];
    assert_eq!(
        decompress_bytes(truncated.as_slice()),
        Err(Status::IoFailure)
    );
}

#[test]
fn release_null_is_noop_many_times() {
    for _ in 0..5 {
        assert!(!release_call(0));
    }
}

#[test]
fn alloc_failure_abandons_transfer() {
    match complete_transfer(5, 0) {
        TransferEnd::Abandon(s) => {
            assert_eq!(s, Status::AllocFailure);
            assert_eq!(s.code(), 3);
        }
        other => panic!("expected an abandoned transfer, got {:?}", other),
    }
}

#[test]
fn transfer_and_release_pair_up() {
    let block = 0x1000usize;
    match complete_transfer(11, block) {
        TransferEnd::WriteBlock { addr, len } => {
            assert_eq!(addr, block);
            assert_eq!(len, 11);
            assert!(release_call(addr));
        }
        other => panic!("expected a written block, got {:?}", other),
    }
}

#[test]
fn status_codes_are_fixed() {
    assert_eq!(Status::Success.code(), 0);
    assert_eq!(Status::NullPointer.code(), 1);
    assert_eq!(Status::IoFailure.code(), 2);
    assert_eq!(Status::AllocFailure.code(), 3);
}

#[test]
fn container_is_standard_xz_framed() {
    let input: Vec<u8> = b"hello world".to_vec();
    let container = compress_bytes(input.as_slice()).expect("compressing short input");
    assert_ne!(container, input);
    assert!(container.len() > 6);
    assert_eq!(&container[0..6], &[0xFD, 0x37, 0x7A, 0x58, 0x5A, 0x00]);

    let payload = decompress_bytes(container.as_slice()).expect("decoding own container");
    assert_ne!(payload, container);
    assert_eq!(payload, input);
}
