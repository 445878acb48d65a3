use fel_flash::config::Command;
use fel_flash::config::WriteData;
use fel_flash::device::Device;
use fel_flash::device::TransportFault;
use fel_flash::device::VersionInfo;
use fel_flash::dispatch::dispatch;
use fel_flash::errors::FlashError;
use fel_flash::errors::Operation;
use fel_flash::files::MemFileSource;

/// A device whose every operation fails at the transport level.
struct DeadDevice;

impl Device for DeadDevice {
    fn read_words(&mut self, _address: u32, _count: usize) -> Result<Vec<u32>, TransportFault> {
        Err(TransportFault)
    }

    fn write_words(&mut self, _address: u32, _data: &Vec<u32>) -> Result<(), TransportFault> {
        Err(TransportFault)
    }

    fn fel_read(&mut self, _address: u32, _length: u32) -> Result<Vec<u8>, TransportFault> {
        Err(TransportFault)
    }

    fn fel_write(&mut self, _address: u32, _data: &Vec<u8>) -> Result<(), TransportFault> {
        Err(TransportFault)
    }

    fn fel_execute(&mut self, _address: u32) -> Result<(), TransportFault> {
        Err(TransportFault)
    }

    fn rmr_request(&mut self, _address: u32, _aarch64: bool) -> Result<(), TransportFault> {
        Err(TransportFault)
    }

    fn read_sid(&mut self) -> Result<Option<[u32; 4]>, TransportFault> {
        Err(TransportFault)
    }

    fn get_version_info(&mut self) -> Result<VersionInfo, TransportFault> {
        Err(TransportFault)
    }

    fn fel_fill(&mut self, _address: u32, _num_bytes: u32, _fill_byte: u8) -> Result<
        (),
        TransportFault,
    > {
        Err(TransportFault)
    }

    fn write_and_execute_spl(&mut self, _data: &Vec<u8>) -> Result<(), TransportFault> {
        Err(TransportFault)
    }

    fn write_uboot_image(&mut self, _data: &Vec<u8>) -> Result<(u32, u32), TransportFault> {
        Err(TransportFault)
    }
}

#[test]
fn failed_fill_names_the_attempted_operation() {
    let mut dev = DeadDevice;
    let cmd = Command::Fill { address: 0x1000, num_bytes: 8, fill_byte: 0xEE };
    let r = dispatch(&mut dev, &MemFileSource::new(), &cmd);
    assert_eq!(
        r.unwrap_err(),
        FlashError::Transport {
            attempted: Operation::FillMemory { address: 0x1000, num_bytes: 8, fill_byte: 0xEE }
        }
    );
}

#[test]
fn failed_stage1_transfer_is_reported_as_such() {
    let mut dev = DeadDevice;
    let cmd = Command::Uboot { image_bytes: vec![0; 64], start: false };
    let r = dispatch(&mut dev, &MemFileSource::new(), &cmd);
    assert_eq!(
        r.unwrap_err(),
        FlashError::Transport { attempted: Operation::Stage1Transfer }
    );
}

#[test]
fn failed_word_write_names_address_and_word() {
    let mut dev = DeadDevice;
    let cmd = Command::Write { items: vec![(0x2000, WriteData::Word(0x1234))] };
    let r = dispatch(&mut dev, &MemFileSource::new(), &cmd);
    assert_eq!(
        r.unwrap_err(),
        FlashError::Transport {
            attempted: Operation::WriteWord { address: 0x2000, word: 0x1234 }
        }
    );
}

#[test]
fn failed_sid_query_is_a_transport_error_not_unsupported() {
    let mut dev = DeadDevice;
    let cmd = Command::Dump { address: None, size: None, hex: false, sid: true, out: None };
    let r = dispatch(&mut dev, &MemFileSource::new(), &cmd);
    assert_eq!(
        r.unwrap_err(),
        FlashError::Transport { attempted: Operation::SidQuery }
    );
}
