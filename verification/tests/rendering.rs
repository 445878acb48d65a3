use fel_flash::config::Command;
use fel_flash::device::MockDevice;
use fel_flash::files::FileSource;
use fel_flash::dispatch::dispatch;
use fel_flash::dispatch::Outcome;
use fel_flash::files::MemFileSource;
use fel_flash::render::format_sid;
use fel_flash::render::format_word;
use fel_flash::render::hex_dump;

#[test]
fn format_word_pads_to_eight_digits() {
    assert_eq!(format_word(0), "0x00000000");
    assert_eq!(format_word(0xCAFE_BABE), "0xcafebabe");
    assert_eq!(format_word(0x4A), "0x0000004a");
    assert_eq!(format_word(0xFFFF_FFFF), "0xffffffff");
}

#[test]
fn format_sid_groups_four_words() {
    assert_eq!(
        format_sid(&[0x01234567, 0x89ABCDEF, 0, 0xFFFFFFFF]),
        "01234567:89abcdef:00000000:ffffffff"
    );
}

fn twenty_bytes() -> Vec<u8> {
    vec![
        0x00, 0x41, 0x42, 0x43, 0x20, 0x7E, 0x7F, 0x1F, 0x61, 0x62, 0x63, 0x64, 0x65, 0x66, 0x67,
        0x68, 0x69, 0x6A, 0x31, 0xFF,
    ]
}

#[test]
fn hex_dump_of_twenty_bytes_is_two_aligned_lines() {
    let lines = hex_dump(&twenty_bytes(), 0x1000);
    assert_eq!(lines.len(), 2);
    assert_eq!(
        lines[0],
        "00001000: 00 41 42 43 20 7e 7f 1f 61 62 63 64 65 66 67 68  .ABC ~..abcdefgh"
    );
    assert_eq!(
        lines[1],
        "00001010: 69 6a 31 ff __ __ __ __ __ __ __ __ __ __ __ __  ij1............."
    );
}

#[test]
fn hex_dump_of_a_full_line_has_no_padding() {
    let data: Vec<u8> = (0x30..0x40).collect();
    let lines = hex_dump(&data, 0);
    assert_eq!(lines.len(), 1);
    assert_eq!(
        lines[0],
        "00000000: 30 31 32 33 34 35 36 37 38 39 3a 3b 3c 3d 3e 3f  0123456789:;<=>?"
    );
}

#[test]
fn hex_dump_of_nothing_is_no_lines() {
    let lines = hex_dump(&Vec::new(), 0x1000);
    assert!(lines.is_empty());
}

#[test]
fn dispatched_hex_dump_renders_the_device_bytes() {
    let mut dev = MockDevice::new();
    dev.memory = twenty_bytes();
    let cmd = Command::Dump {
        address: Some(0x1000),
        size: Some(20),
        hex: true,
        sid: false,
        out: None,
    };
    let r = dispatch(&mut dev, &MemFileSource::new(), &cmd);
    match r.unwrap() {
        Outcome::HexDump(lines) => {
            assert_eq!(lines.len(), 2);
            assert_eq!(
                lines[0],
                "00001000: 00 41 42 43 20 7e 7f 1f 61 62 63 64 65 66 67 68  .ABC ~..abcdefgh"
            );
            assert_eq!(
                lines[1],
                "00001010: 69 6a 31 ff __ __ __ __ __ __ __ __ __ __ __ __  ij1............."
            );
        },
        other => panic!("unexpected outcome {:?}", other),
    }
}

#[test]
fn file_store_serves_lengths_and_contents() {
    let mut fs = MemFileSource::new();
    fs.add_file(String::from("a.bin"), vec![1, 2, 3]);
    fs.add_file(String::from("b.bin"), vec![]);
    assert_eq!(fs.file_len("a.bin"), Some(3));
    assert_eq!(fs.file_len("b.bin"), Some(0));
    assert_eq!(fs.file_len("c.bin"), None);
    assert_eq!(fs.read_file("a.bin"), Some(vec![1, 2, 3]));
    assert_eq!(fs.read_file("c.bin"), None);
    // A later entry of the same name shadows the earlier one.
    fs.add_file(String::from("a.bin"), vec![9]);
    assert_eq!(fs.read_file("a.bin"), Some(vec![9]));
}
