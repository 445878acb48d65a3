use fel_flash::config::build_clear;
use fel_flash::config::build_dump;
use fel_flash::config::build_execute;
use fel_flash::config::build_fill;
use fel_flash::config::build_reset64;
use fel_flash::config::build_uboot;
use fel_flash::config::build_write;
use fel_flash::config::max_size_from;
use fel_flash::config::Command;
use fel_flash::config::Config;
use fel_flash::config::WriteData;
use fel_flash::config::STAGE1_LEN_LIMIT;
use fel_flash::errors::FlashError;
use fel_flash::files::MemFileSource;

#[test]
fn max_size_spans_the_whole_space_at_address_zero() {
    assert_eq!(max_size_from(0), 0x1_0000_0000);
    assert_eq!(max_size_from(0xFFFF_FFFF), 1);
    assert_eq!(max_size_from(0x1000), 0x1_0000_0000 - 0x1000);
}

#[test]
fn dump_size_at_the_boundary_is_accepted() {
    // address + size - 1 == MAX_ADDRESS exactly.
    let c = build_dump(Some(0xFFFF_F000), Some(0x1000), false, false, None).unwrap();
    assert_eq!(
        c,
        Command::Dump {
            address: Some(0xFFFF_F000),
            size: Some(0x1000),
            hex: false,
            sid: false,
            out: None,
        }
    );
    // The whole space from address zero.
    assert!(build_dump(Some(0), Some(0xFFFF_FFFF), false, false, None).is_ok());
}

#[test]
fn dump_size_past_the_boundary_is_a_range_error() {
    let r = build_dump(Some(0xFFFF_F000), Some(0x1001), false, false, None);
    assert_eq!(r.unwrap_err(), FlashError::RangeError);
    let r = build_dump(Some(0xFFFF_FFFF), Some(2), false, false, None);
    assert_eq!(r.unwrap_err(), FlashError::RangeError);
}

#[test]
fn dump_without_size_reads_one_word() {
    let c = build_dump(Some(0xFFFF_FFFF), None, true, false, Some(String::from("o"))).unwrap();
    assert_eq!(
        c,
        Command::Dump {
            address: Some(0xFFFF_FFFF),
            size: None,
            hex: true,
            sid: false,
            out: Some(String::from("o")),
        }
    );
}

#[test]
fn dump_sid_carries_no_other_field() {
    let c = build_dump(None, None, true, true, None).unwrap();
    assert_eq!(
        c,
        Command::Dump { address: None, size: None, hex: false, sid: true, out: None }
    );
}

#[test]
fn clear_and_fill_check_the_range() {
    assert_eq!(
        build_clear(0xFFFF_FF00, 0x100).unwrap(),
        Command::Clear { address: 0xFFFF_FF00, num_bytes: 0x100 }
    );
    assert_eq!(build_clear(0xFFFF_FF00, 0x101).unwrap_err(), FlashError::RangeError);
    assert_eq!(
        build_fill(0, 0xFFFF_FFFF, 0xAB).unwrap(),
        Command::Fill { address: 0, num_bytes: 0xFFFF_FFFF, fill_byte: 0xAB }
    );
    assert_eq!(build_fill(2, 0xFFFF_FFFF, 0xAB).unwrap_err(), FlashError::RangeError);
}

#[test]
fn word_write_at_the_last_possible_address_is_accepted() {
    let fs = MemFileSource::new();
    // MAX_ADDRESS - 4.
    let pairs = vec![(0xFFFF_FFFB, String::from("0xAABBCCDD"))];
    let c = build_write(&fs, &pairs).unwrap();
    assert_eq!(
        c,
        Command::Write { items: vec![(0xFFFF_FFFB, WriteData::Word(0xAABBCCDD))] }
    );
}

#[test]
fn word_write_past_the_last_possible_address_fails() {
    let fs = MemFileSource::new();
    let pairs = vec![(0xFFFF_FFFC, String::from("0xAABBCCDD"))];
    assert_eq!(build_write(&fs, &pairs).unwrap_err(), FlashError::RangeError);
}

#[test]
fn write_token_that_is_no_numeral_names_a_file() {
    let mut fs = MemFileSource::new();
    fs.add_file(String::from("blob.bin"), vec![1, 2, 3, 4]);
    let pairs = vec![
        (0x1000, String::from("123")),
        (0x2000, String::from("blob.bin")),
    ];
    let c = build_write(&fs, &pairs).unwrap();
    assert_eq!(
        c,
        Command::Write {
            items: vec![
                (0x1000, WriteData::Word(123)),
                (0x2000, WriteData::File(String::from("blob.bin"))),
            ]
        }
    );
}

#[test]
fn write_missing_file_is_not_found() {
    let fs = MemFileSource::new();
    let pairs = vec![(0x1000, String::from("missing.bin"))];
    let e = build_write(&fs, &pairs).unwrap_err();
    assert_eq!(e, FlashError::NotFound { path: String::from("missing.bin") });
}

#[test]
fn write_file_too_long_for_its_address_is_a_range_error() {
    let mut fs = MemFileSource::new();
    fs.add_file(String::from("ten.bin"), vec![0; 10]);
    // max_size(0xFFFF_FFF6) == 10: fits exactly.
    let pairs = vec![(0xFFFF_FFF6, String::from("ten.bin"))];
    assert!(build_write(&fs, &pairs).is_ok());
    // max_size(0xFFFF_FFF7) == 9: one byte too many.
    let pairs = vec![(0xFFFF_FFF7, String::from("ten.bin"))];
    assert_eq!(build_write(&fs, &pairs).unwrap_err(), FlashError::RangeError);
}

#[test]
fn write_reports_the_first_failing_pair() {
    let fs = MemFileSource::new();
    let pairs = vec![
        (0x1000, String::from("7")),
        (0xFFFF_FFFC, String::from("8")),
        (0x2000, String::from("missing.bin")),
    ];
    assert_eq!(build_write(&fs, &pairs).unwrap_err(), FlashError::RangeError);
}

#[test]
fn uboot_start_needs_more_than_the_stage1_region() {
    assert_eq!(build_uboot(vec![0; 100], true).unwrap_err(), FlashError::InvalidImage);
    // Exactly the limit still holds no second stage.
    let limit = STAGE1_LEN_LIMIT as usize;
    assert_eq!(build_uboot(vec![0; limit], true).unwrap_err(), FlashError::InvalidImage);
    assert!(build_uboot(vec![0; limit + 1], true).is_ok());
    // Without a start request any length is accepted.
    assert!(build_uboot(vec![0; 100], false).is_ok());
}

#[test]
fn execute_reset64_and_version_take_any_address() {
    assert_eq!(build_execute(0xFFFF_FFFF), Command::Execute { address: 0xFFFF_FFFF });
    assert_eq!(build_reset64(0), Command::Reset64 { address: 0 });
    assert!(fel_flash::config::build_version() == Command::Version);
}

#[test]
fn commands_validate_their_ranges() {
    assert!(build_fill(0, 1, 2).unwrap().is_valid());
    assert!(!Command::Clear { address: 2, num_bytes: 0xFFFF_FFFF }.is_valid());
    assert!(!Command::Uboot { image_bytes: vec![0; 10], start: true }.is_valid());
    assert!(Command::Uboot { image_bytes: vec![0; 10], start: false }.is_valid());
    assert!(
        !Command::Write { items: vec![(0xFFFF_FFFC, WriteData::Word(1))] }.is_valid()
    );
}

#[test]
fn config_holds_device_and_command() {
    let cfg = Config::new(Some((3, 4)), Some(Command::Version));
    assert_eq!(cfg.get_device(), Some((3, 4)));
    assert_eq!(cfg.get_command(), Some(&Command::Version));
    let empty = Config::new(None, None);
    assert_eq!(empty.get_device(), None);
    assert!(empty.get_command().is_none());
}

#[test]
fn config_parses_an_optional_device_selector() {
    let cfg = Config::with_device_str(Some("3:4"), Some(Command::Version)).unwrap();
    assert_eq!(cfg.get_device(), Some((3, 4)));
    let cfg = Config::with_device_str(None, None).unwrap();
    assert_eq!(cfg.get_device(), None);
    assert!(Config::with_device_str(Some("bad"), None).is_err());
}
