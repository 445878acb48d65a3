use fel_flash::config::build_clear;
use fel_flash::config::build_fill;
use fel_flash::config::build_uboot;
use fel_flash::config::Command;
use fel_flash::config::WriteData;
use fel_flash::config::STAGE1_LEN_LIMIT;
use fel_flash::device::MockDevice;
use fel_flash::device::RecordedCall;
use fel_flash::device::VersionInfo;
use fel_flash::dispatch::dispatch;
use fel_flash::dispatch::Outcome;
use fel_flash::errors::FlashError;
use fel_flash::files::MemFileSource;

fn empty_fs() -> MemFileSource {
    MemFileSource::new()
}

#[test]
fn fill_dispatch_makes_exactly_one_fill_call() {
    let cmd = build_fill(0x1000, 16, 0xAB).unwrap();
    let mut dev = MockDevice::new();
    let r = dispatch(&mut dev, &empty_fs(), &cmd);
    assert_eq!(r.unwrap(), Outcome::Done);
    assert_eq!(
        dev.log,
        vec![RecordedCall::Fill { address: 0x1000, num_bytes: 16, fill_byte: 0xAB }]
    );
}

#[test]
fn clear_is_fill_with_byte_zero() {
    let clear = build_clear(0x2000, 64).unwrap();
    let mut dev_clear = MockDevice::new();
    dispatch(&mut dev_clear, &empty_fs(), &clear).unwrap();

    let fill = build_fill(0x2000, 64, 0x00).unwrap();
    let mut dev_fill = MockDevice::new();
    dispatch(&mut dev_fill, &empty_fs(), &fill).unwrap();

    assert_eq!(dev_clear.log, dev_fill.log);
    assert_eq!(
        dev_clear.log,
        vec![RecordedCall::Fill { address: 0x2000, num_bytes: 64, fill_byte: 0x00 }]
    );
}

#[test]
fn uboot_short_image_with_start_fails_before_any_device_call() {
    let mut dev = MockDevice::new();
    let cmd = Command::Uboot { image_bytes: vec![0; 100], start: true };
    let r = dispatch(&mut dev, &empty_fs(), &cmd);
    assert_eq!(r.unwrap_err(), FlashError::InvalidImage);
    assert!(dev.log.is_empty());
    // The same refusal already happens at construction.
    assert_eq!(build_uboot(vec![0; 100], true).unwrap_err(), FlashError::InvalidImage);
}

#[test]
fn uboot_short_image_without_start_is_stage1_only() {
    let image = vec![0x5A; 100];
    let cmd = build_uboot(image.clone(), false).unwrap();
    let mut dev = MockDevice::new();
    let r = dispatch(&mut dev, &empty_fs(), &cmd);
    assert_eq!(r.unwrap(), Outcome::Done);
    assert_eq!(dev.log, vec![RecordedCall::Stage1 { data: image }]);
}

#[test]
fn uboot_long_image_without_start_reports_the_entry_point() {
    let limit = STAGE1_LEN_LIMIT as usize;
    let mut image = vec![0x11; limit];
    image.extend_from_slice(&[0x22; 100]);
    let cmd = build_uboot(image.clone(), false).unwrap();
    let mut dev = MockDevice::new();
    dev.entry_point = 0x4A00_0000;
    let r = dispatch(&mut dev, &empty_fs(), &cmd);
    // The reported entry point equals what the stage-2 write returned.
    assert_eq!(r.unwrap(), Outcome::EntryPoint(0x4A00_0000));
    // Exactly one stage-1 write/execute, then one stage-2 write, nothing more.
    assert_eq!(dev.log.len(), 2);
    assert_eq!(dev.log[0], RecordedCall::Stage1 { data: vec![0x11; limit] });
    assert_eq!(
        dev.log[1],
        RecordedCall::Stage2 { data: vec![0x22; 100], entry: 0x4A00_0000, length: 100 }
    );
}

#[test]
fn uboot_long_image_with_start_executes_the_entry_point() {
    let limit = STAGE1_LEN_LIMIT as usize;
    let mut image = vec![0x11; limit];
    image.extend_from_slice(&[0x22; 64]);
    let cmd = build_uboot(image, true).unwrap();
    let mut dev = MockDevice::new();
    dev.entry_point = 0x4A00_0000;
    let r = dispatch(&mut dev, &empty_fs(), &cmd);
    assert_eq!(r.unwrap(), Outcome::Done);
    assert_eq!(dev.log.len(), 3);
    assert_eq!(dev.log[2], RecordedCall::Execute { address: 0x4A00_0000 });
}

#[test]
fn write_stops_at_the_first_missing_file() {
    let cmd = Command::Write {
        items: vec![
            (0x1000, WriteData::Word(0xAABBCCDD)),
            (0x2000, WriteData::File(String::from("missing.bin"))),
            (0x3000, WriteData::Word(1)),
        ],
    };
    let mut dev = MockDevice::new();
    let r = dispatch(&mut dev, &empty_fs(), &cmd);
    // The word write happened, the missing file stopped processing, and the
    // third item was never attempted.
    assert_eq!(r.unwrap_err(), FlashError::NotFound { path: String::from("missing.bin") });
    assert_eq!(
        dev.log,
        vec![RecordedCall::WriteWords { address: 0x1000, data: vec![0xAABBCCDD] }]
    );
}

#[test]
fn write_sends_words_and_file_contents_in_order() {
    let mut fs = MemFileSource::new();
    fs.add_file(String::from("blob.bin"), vec![9, 8, 7]);
    let cmd = Command::Write {
        items: vec![
            (0x1000, WriteData::Word(0x11223344)),
            (0x2000, WriteData::File(String::from("blob.bin"))),
        ],
    };
    let mut dev = MockDevice::new();
    let r = dispatch(&mut dev, &fs, &cmd);
    assert_eq!(r.unwrap(), Outcome::Done);
    assert_eq!(
        dev.log,
        vec![
            RecordedCall::WriteWords { address: 0x1000, data: vec![0x11223344] },
            RecordedCall::WriteBytes { address: 0x2000, data: vec![9, 8, 7] },
        ]
    );
}

#[test]
fn dump_sid_reports_the_registers() {
    let mut dev = MockDevice::new();
    dev.sid = Some([1, 2, 0xDEAD, 4]);
    let cmd = Command::Dump { address: None, size: None, hex: false, sid: true, out: None };
    let r = dispatch(&mut dev, &empty_fs(), &cmd);
    assert_eq!(r.unwrap(), Outcome::Sid([1, 2, 0xDEAD, 4]));
    assert_eq!(dev.log, vec![RecordedCall::ReadSid { sid: Some([1, 2, 0xDEAD, 4]) }]);
}

#[test]
fn dump_sid_without_registers_is_unsupported_not_fatal() {
    let mut dev = MockDevice::new();
    let cmd = Command::Dump { address: None, size: None, hex: false, sid: true, out: None };
    let r = dispatch(&mut dev, &empty_fs(), &cmd);
    assert_eq!(r.unwrap_err(), FlashError::UnsupportedFeature);
}

#[test]
fn dump_without_size_reads_a_single_word() {
    let mut dev = MockDevice::new();
    dev.words = vec![0xCAFE_BABE];
    let cmd = Command::Dump {
        address: Some(0x1000),
        size: None,
        hex: false,
        sid: false,
        out: None,
    };
    let r = dispatch(&mut dev, &empty_fs(), &cmd);
    assert_eq!(r.unwrap(), Outcome::Word(0xCAFE_BABE));
    match &dev.log[0] {
        RecordedCall::ReadWords { address, count, .. } => {
            assert_eq!(*address, 0x1000);
            assert_eq!(*count, 1);
        },
        other => panic!("unexpected call {:?}", other),
    }
}

#[test]
fn dump_with_size_hands_back_the_bytes_and_destination() {
    let mut dev = MockDevice::new();
    dev.memory = vec![10, 20, 30];
    let cmd = Command::Dump {
        address: Some(0x40),
        size: Some(3),
        hex: false,
        sid: false,
        out: Some(String::from("out.bin")),
    };
    let r = dispatch(&mut dev, &empty_fs(), &cmd);
    assert_eq!(
        r.unwrap(),
        Outcome::Bytes { data: vec![10, 20, 30], out: Some(String::from("out.bin")) }
    );
}

#[test]
fn execute_and_reset_issue_their_single_call() {
    let mut dev = MockDevice::new();
    dispatch(&mut dev, &empty_fs(), &Command::Execute { address: 0x1234 }).unwrap();
    dispatch(&mut dev, &empty_fs(), &Command::Reset64 { address: 0x5678 }).unwrap();
    assert_eq!(
        dev.log,
        vec![
            RecordedCall::Execute { address: 0x1234 },
            RecordedCall::WarmReset { address: 0x5678, aarch64: true },
        ]
    );
}

#[test]
fn version_reports_the_device_info_verbatim() {
    let mut dev = MockDevice::new();
    let info = VersionInfo { text: String::from("AWUSBFEX soc=00001680 protocol=1") };
    dev.version = info.clone();
    let r = dispatch(&mut dev, &empty_fs(), &Command::Version);
    assert_eq!(r.unwrap(), Outcome::Version(info.clone()));
    assert_eq!(dev.log, vec![RecordedCall::VersionQuery { info }]);
}
