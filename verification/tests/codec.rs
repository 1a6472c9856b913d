use ledger_client::codec::{
    continue_list_apps_command, get_version_command, list_apps_command, open_app_command,
    ApduCommand, Response,
};
use ledger_client::status::Status;
use ledger_client::Error;

#[test]
fn encode_builds_exact_frame() {
    let cmd = ApduCommand { cla: 0xe0, ins: 0x01, p1: 0x02, p2: 0x03, data: vec![0xaa, 0xbb] };
    let frame = cmd.encode().unwrap();
    assert_eq!(frame, vec![0xe0, 0x01, 0x02, 0x03, 0x02, 0xaa, 0xbb]);
}

#[test]
fn encode_empty_payload() {
    let cmd = ApduCommand { cla: 0xe0, ins: 0xde, p1: 0x00, p2: 0x00, data: vec![] };
    let frame = cmd.encode().unwrap();
    assert_eq!(frame, vec![0xe0, 0xde, 0x00, 0x00, 0x00]);
}

#[test]
fn encode_rejects_long_payload() {
    let cmd = ApduCommand { cla: 0xe0, ins: 0x01, p1: 0x00, p2: 0x00, data: vec![0u8; 256] };
    assert_eq!(cmd.encode().unwrap_err(), Error::InvalidCommand);
}

#[test]
fn encode_accepts_largest_payload() {
    let cmd = ApduCommand { cla: 0xe0, ins: 0x01, p1: 0x00, p2: 0x00, data: vec![7u8; 255] };
    let frame = cmd.encode().unwrap();
    assert_eq!(frame.len(), 260);
    assert_eq!(frame[4], 255);
}

#[test]
fn decode_reads_exact_command() {
    let cmd = ApduCommand::decode("e0d8000007426974636f696e").unwrap();
    assert_eq!(cmd.cla, 0xe0);
    assert_eq!(cmd.ins, 0xd8);
    assert_eq!(cmd.p1, 0x00);
    assert_eq!(cmd.p2, 0x00);
    assert_eq!(cmd.data, b"Bitcoin".to_vec());
}

#[test]
fn decode_accepts_upper_case_hex() {
    let cmd = ApduCommand::decode("E001000000").unwrap();
    assert_eq!(cmd.cla, 0xe0);
    assert_eq!(cmd.ins, 0x01);
    assert_eq!(cmd.data, Vec::<u8>::new());
}

#[test]
fn decode_round_trip_reconstructs_command() {
    let cmd = ApduCommand { cla: 0xe0, ins: 0xd8, p1: 0x01, p2: 0x02, data: vec![1, 2, 3, 255] };
    let frame = cmd.encode().unwrap();
    let back = ApduCommand::decode(&hex::encode(&frame)).unwrap();
    assert_eq!(back.cla, cmd.cla);
    assert_eq!(back.ins, cmd.ins);
    assert_eq!(back.p1, cmd.p1);
    assert_eq!(back.p2, cmd.p2);
    assert_eq!(back.data, cmd.data);
}

#[test]
fn decode_rejects_bad_hex() {
    assert_eq!(ApduCommand::decode("zz01000000").unwrap_err(), Error::MalformedCommand);
}

#[test]
fn decode_rejects_odd_length_hex() {
    assert_eq!(ApduCommand::decode("e01").unwrap_err(), Error::MalformedCommand);
}

#[test]
fn decode_rejects_short_frame() {
    assert_eq!(ApduCommand::decode("e0010000").unwrap_err(), Error::MalformedCommand);
}

#[test]
fn decode_rejects_declared_length_mismatch() {
    // The header declares two payload bytes but only one follows.
    assert_eq!(ApduCommand::decode("e001000002aa").unwrap_err(), Error::MalformedCommand);
    // The header declares none but one follows.
    assert_eq!(ApduCommand::decode("e001000000aa").unwrap_err(), Error::MalformedCommand);
}

#[test]
fn response_splits_payload_and_status() {
    let resp = Response::from_wire(&vec![0xab, 0x90, 0x00]).unwrap();
    assert_eq!(resp.payload, vec![0xab]);
    assert_eq!(resp.status, 0x9000);
    assert!(resp.is_success());
}

#[test]
fn response_error_status_is_not_success() {
    let resp = Response::from_wire(&vec![0x69, 0x82]).unwrap();
    assert_eq!(resp.payload, Vec::<u8>::new());
    assert_eq!(resp.status, 0x6982);
    assert!(!resp.is_success());
}

#[test]
fn response_shorter_than_status_is_truncated() {
    assert_eq!(Response::from_wire(&vec![0x90]).unwrap_err(), Error::TruncatedData);
    assert_eq!(Response::from_wire(&vec![]).unwrap_err(), Error::TruncatedData);
}

#[test]
fn fixed_commands_carry_their_instructions() {
    let gv = get_version_command();
    assert_eq!((gv.cla, gv.ins, gv.p1, gv.p2, gv.data.len()), (0xe0, 0x01, 0x00, 0x00, 0));
    let la = list_apps_command();
    assert_eq!((la.cla, la.ins), (0xe0, 0xde));
    let cla = continue_list_apps_command();
    assert_eq!((cla.cla, cla.ins), (0xe0, 0xdf));
    let oa = open_app_command(b"Bitcoin Test".to_vec());
    assert_eq!((oa.cla, oa.ins), (0xe0, 0xd8));
    assert_eq!(oa.data, b"Bitcoin Test".to_vec());
}

#[test]
fn status_success_sentinel() {
    assert_eq!(Status::from_code(0x9000), Status::Success);
    assert!(Status::from_code(0x9000).is_success());
    assert!(!Status::from_code(0x6982).is_success());
    assert!(ledger_client::status_is_success(0x9000));
    assert!(!ledger_client::status_is_success(0x9001));
}

#[test]
fn status_known_words_round_trip() {
    for code in [0x9804u16, 0x6e00, 0x6985, 0x5515, 0x9000, 0x5501, 0x5102, 0x6d00] {
        assert_eq!(Status::from_code(code).code(), code);
    }
    assert_eq!(Status::from_code(0x5515), Status::LockedDevice);
    assert_eq!(Status::from_code(0x5501), Status::UserRefusedOnDevice);
    assert_eq!(Status::from_code(0x6985), Status::ConditionsOfUseNotSatisfied);
}

#[test]
fn status_unrecognized_keeps_its_word() {
    assert_eq!(Status::from_code(0x1234), Status::Unrecognized(0x1234));
    assert_eq!(Status::from_code(0x1234).code(), 0x1234);
}
