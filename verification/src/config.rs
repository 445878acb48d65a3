//! The command model: validated operation descriptors.
//!
//! A [`Command`] is built from already-typed inputs with every range and
//! overflow check applied at construction time, over a flat 32-bit address
//! space.  Construction does no device work; a built command is internally
//! consistent ([`Command::valid`]) and is consumed once by the dispatcher.

use vstd::prelude::*;

use crate::errors::CliError;
use crate::errors::FlashError;
use crate::files::FileSource;
use crate::parse::parse_device;
use crate::parse::parse_u32;
use crate::parse::word_of_token;

verus! {

/// Highest valid byte address of the device's flat memory space.
pub const MAX_ADDRESS: u32 = 0xFFFF_FFFF;

/// Maximum size in bytes of the first-stage loader region.  An image must be
/// longer than this to contain an executable second stage.
pub const STAGE1_LEN_LIMIT: u32 = 0x8000;

/// Largest number of bytes that may be placed at `address` without crossing
/// the end of the address space: `(MAX_ADDRESS - address) + 1`.
pub open spec fn max_size(address: u32) -> int {
    0x1_0000_0000 - address
}

/// Computes [`max_size`] without overflow or underflow at either end.
pub fn max_size_from(address: u32) -> (r: u64)
    ensures
        r == max_size(address),
{
    (MAX_ADDRESS as u64) - (address as u64) + 1
}

/// A unit of a Write command.
#[derive(Debug, PartialEq, Eq)]
pub enum WriteData {
    /// An inline 32-bit word.
    Word(u32),
    /// The contents of the named file.
    File(String),
}

/// A validated operation descriptor.
#[derive(Debug, PartialEq, Eq)]
pub enum Command {
    /// Flash a combined stage-1/stage-2 bootloader image, optionally resuming
    /// execution at its entry point.
    Uboot { image_bytes: Vec<u8>, start: bool },
    /// Read the SID registers, or read memory at an address: `size` bytes
    /// when present, one 32-bit word otherwise.
    Dump {
        address: Option<u32>,
        size: Option<u32>,
        hex: bool,
        sid: bool,
        out: Option<String>,
    },
    /// Write an ordered sequence of words and file contents to addresses.
    Write { items: Vec<(u32, WriteData)> },
    /// Call code at an address.
    Execute { address: u32 },
    /// Request a warm reset into 64-bit mode with the given return address.
    Reset64 { address: u32 },
    /// Query identity/version information.
    Version,
    /// Fill a region with zero bytes.
    Clear { address: u32, num_bytes: u32 },
    /// Fill a region with an arbitrary byte.
    Fill { address: u32, num_bytes: u32, fill_byte: u8 },
}

impl Command {
    /// Internal consistency: every range a command carries lies inside the
    /// 32-bit address space, and a flash-and-start image holds a second
    /// stage.  Every constructor establishes this.
    pub open spec fn valid(&self) -> bool {
        match self {
            Command::Uboot { image_bytes, start } => *start ==> image_bytes@.len()
                > STAGE1_LEN_LIMIT,
            Command::Dump { address, size, hex, sid, out } => if *sid {
                address is None && size is None && !*hex && out is None
            } else {
                address is Some && (size matches Some(sz) ==> address->0 + *sz <= 0x1_0000_0000)
            },
            Command::Write { items } => forall|i: int|
                0 <= i < items@.len() ==> ((#[trigger] items@[i]).1 is Word ==> items@[i].0
                    <= MAX_ADDRESS - 4),
            Command::Execute { .. } => true,
            Command::Reset64 { .. } => true,
            Command::Version => true,
            Command::Clear { address, num_bytes } => *address + *num_bytes <= 0x1_0000_0000,
            Command::Fill { address, num_bytes, .. } => *address + *num_bytes <= 0x1_0000_0000,
        }
    }

    /// Decides [`Command::valid`] at run time.
    pub fn is_valid(&self) -> (r: bool)
        ensures
            r == self.valid(),
    {
        match self {
            Command::Uboot { image_bytes, start } => {
                !*start || image_bytes.len() > STAGE1_LEN_LIMIT as usize
            },
            Command::Dump { address, size, hex, sid, out } => {
                if *sid {
                    address.is_none() && size.is_none() && !*hex && out.is_none()
                } else {
                    match (address, size) {
                        (Some(a), Some(sz)) => *sz as u64 <= max_size_from(*a),
                        (Some(_), None) => true,
                        (None, _) => false,
                    }
                }
            },
            Command::Write { items } => {
                let n = items.len();
                let mut i: usize = 0;
                while i < n
                    invariant
                        i <= n == items@.len(),
                        *self == (Command::Write { items: *items }),
                        forall|j: int|
                            0 <= j < i ==> ((#[trigger] items@[j]).1 is Word ==> items@[j].0
                                <= MAX_ADDRESS - 4),
                    decreases n - i,
                {
                    match items[i].1 {
                        WriteData::Word(_) => {
                            if items[i].0 > MAX_ADDRESS - 4 {
                                proof {
                                    let ii = i as int;
                                    assert(items@[ii].1 is Word && items@[ii].0 > MAX_ADDRESS - 4);
                                }
                                return false;
                            }
                        },
                        WriteData::File(_) => {},
                    }
                    i = i + 1;
                }
                true
            },
            Command::Execute { .. } => true,
            Command::Reset64 { .. } => true,
            Command::Version => true,
            Command::Clear { address, num_bytes } => *num_bytes as u64 <= max_size_from(*address),
            Command::Fill { address, num_bytes, .. } => *num_bytes as u64 <= max_size_from(
                *address,
            ),
        }
    }
}

/// Builds a Dump command.  A SID query carries no other field; otherwise an
/// address is required, and a requested size must fit between the address and
/// the end of the address space.
pub fn build_dump(
    address: Option<u32>,
    size: Option<u32>,
    hex: bool,
    sid: bool,
    out: Option<String>,
) -> (r: Result<Command, FlashError>)
    requires
        !sid ==> address is Some,
    ensures
        sid ==> r == Ok::<Command, FlashError>(
            Command::Dump { address: None, size: None, hex: false, sid: true, out: None },
        ),
        !sid ==> match size {
            Some(sz) => if address->0 + sz > 0x1_0000_0000 {
                r == Err::<Command, FlashError>(FlashError::RangeError)
            } else {
                r == Ok::<Command, FlashError>(
                    Command::Dump { address, size, hex, sid: false, out },
                )
            },
            None => r == Ok::<Command, FlashError>(
                Command::Dump { address, size, hex, sid: false, out },
            ),
        },
        r matches Ok(c) ==> c.valid(),
{
    if sid {
        return Ok(Command::Dump { address: None, size: None, hex: false, sid: true, out: None });
    }
    let a = address.unwrap();
    if let Some(sz) = size {
        if sz as u64 > max_size_from(a) {
            return Err(FlashError::RangeError);
        }
    }
    Ok(Command::Dump { address: Some(a), size, hex, sid: false, out })
}

/// One write pair passes validation: a numeric token is a word whose write
/// stays inside the address space; any other token names an existing file
/// whose contents fit at the address.
pub open spec fn write_item_ok(
    files: Map<Seq<char>, Seq<u8>>,
    address: u32,
    token: Seq<char>,
) -> bool {
    match word_of_token(token) {
        Some(_) => address <= MAX_ADDRESS - 4,
        None => files.contains_key(token) && files[token].len() <= max_size(address),
    }
}

/// The write item a validated pair resolves to.
pub open spec fn write_item_resolved(address: u32, token: Seq<char>, item: (u32, WriteData)) -> bool {
    item.0 == address && match word_of_token(token) {
        Some(w) => item.1 == WriteData::Word(w),
        None => item.1 matches WriteData::File(p) && p@ == token,
    }
}

/// The error a failing pair produces: `RangeError` for an out-of-range word
/// or an over-long file, `NotFound` (naming the path) for a missing file.
pub open spec fn write_item_error(
    files: Map<Seq<char>, Seq<u8>>,
    address: u32,
    token: Seq<char>,
    e: FlashError,
) -> bool {
    match word_of_token(token) {
        Some(_) => e == FlashError::RangeError,
        None => if !files.contains_key(token) {
            e matches FlashError::NotFound { path } && path@ == token
        } else {
            e == FlashError::RangeError
        },
    }
}

/// Builds a Write command from ordered (address, token) pairs.  Each token is
/// read as a 32-bit word when it parses as a numeral, and as a file path
/// otherwise; input order is preserved, and the first failing pair decides
/// the error.
pub fn build_write<F: FileSource>(fs: &F, pairs: &Vec<(u32, String)>) -> (r: Result<
    Command,
    FlashError,
>)
    ensures
        r is Ok <==> (forall|j: int|
            0 <= j < pairs@.len() ==> #[trigger] write_item_ok(
                fs.files(),
                pairs@[j].0,
                pairs@[j].1@,
            )),
        r matches Ok(c) ==> (c matches Command::Write { items } && items@.len() == pairs@.len()
            && (forall|j: int|
            0 <= j < pairs@.len() ==> #[trigger] write_item_resolved(
                pairs@[j].0,
                pairs@[j].1@,
                items@[j],
            )) && c.valid()),
        r matches Err(e) ==> (exists|j: int|
            0 <= j < pairs@.len() && !write_item_ok(fs.files(), pairs@[j].0, pairs@[j].1@)
                && (forall|k: int|
                0 <= k < j ==> #[trigger] write_item_ok(fs.files(), pairs@[k].0, pairs@[k].1@))
                && #[trigger] write_item_error(fs.files(), pairs@[j].0, pairs@[j].1@, e)),
{
    let mut items: Vec<(u32, WriteData)> = Vec::new();
    let n = pairs.len();
    let mut i: usize = 0;
    while i < n
        invariant
            i <= n == pairs@.len(),
            items@.len() == i,
            forall|j: int|
                0 <= j < i ==> #[trigger] write_item_ok(fs.files(), pairs@[j].0, pairs@[j].1@),
            forall|j: int|
                0 <= j < i ==> #[trigger] write_item_resolved(pairs@[j].0, pairs@[j].1@, items@[j]),
        decreases n - i,
    {
        let address = pairs[i].0;
        let token: &String = &pairs[i].1;
        match parse_u32(token.as_str()) {
            Some(w) => {
                if address <= MAX_ADDRESS - 4 {
                    items.push((address, WriteData::Word(w)));
                } else {
                    proof {
                        assert(!write_item_ok(fs.files(), pairs@[i as int].0, pairs@[i as int].1@));
                        assert(write_item_error(
                            fs.files(),
                            pairs@[i as int].0,
                            pairs@[i as int].1@,
                            FlashError::RangeError,
                        ));
                    }
                    return Err(FlashError::RangeError);
                }
            },
            None => {
                match fs.file_len(token.as_str()) {
                    None => {
                        let e = FlashError::NotFound { path: token.clone() };
                        proof {
                            assert(!write_item_ok(
                                fs.files(),
                                pairs@[i as int].0,
                                pairs@[i as int].1@,
                            ));
                            assert(write_item_error(
                                fs.files(),
                                pairs@[i as int].0,
                                pairs@[i as int].1@,
                                e,
                            ));
                        }
                        return Err(e);
                    },
                    Some(len) => {
                        if len > max_size_from(address) {
                            proof {
                                assert(!write_item_ok(
                                    fs.files(),
                                    pairs@[i as int].0,
                                    pairs@[i as int].1@,
                                ));
                                assert(write_item_error(
                                    fs.files(),
                                    pairs@[i as int].0,
                                    pairs@[i as int].1@,
                                    FlashError::RangeError,
                                ));
                            }
                            return Err(FlashError::RangeError);
                        }
                        items.push((address, WriteData::File(token.clone())));
                    },
                }
            },
        }
        i = i + 1;
    }
    let r = Command::Write { items };
    proof {
        assert forall|i2: int| 0 <= i2 < r->Write_items@.len() implies ((#[trigger] r
            ->Write_items@[i2]).1 is Word ==> r->Write_items@[i2].0 <= MAX_ADDRESS - 4) by {
            assert(write_item_ok(fs.files(), pairs@[i2].0, pairs@[i2].1@));
            assert(write_item_resolved(pairs@[i2].0, pairs@[i2].1@, r->Write_items@[i2]));
        }
    }
    Ok(r)
}

/// Builds an Execute command; any 32-bit address is acceptable.
pub fn build_execute(address: u32) -> (r: Command)
    ensures
        r == (Command::Execute { address }),
        r.valid(),
{
    Command::Execute { address }
}

/// Builds a Reset64 command; any 32-bit return address is acceptable.
pub fn build_reset64(address: u32) -> (r: Command)
    ensures
        r == (Command::Reset64 { address }),
        r.valid(),
{
    Command::Reset64 { address }
}

/// Builds a Version command.
pub fn build_version() -> (r: Command)
    ensures
        r == Command::Version,
        r.valid(),
{
    Command::Version
}

/// Builds a Clear command: the zeroed region must not cross the end of the
/// address space.
pub fn build_clear(address: u32, num_bytes: u32) -> (r: Result<Command, FlashError>)
    ensures
        address + num_bytes > 0x1_0000_0000 ==> r == Err::<Command, FlashError>(
            FlashError::RangeError,
        ),
        address + num_bytes <= 0x1_0000_0000 ==> r == Ok::<Command, FlashError>(
            Command::Clear { address, num_bytes },
        ),
        r matches Ok(c) ==> c.valid(),
{
    if num_bytes as u64 > max_size_from(address) {
        return Err(FlashError::RangeError);
    }
    Ok(Command::Clear { address, num_bytes })
}

/// Builds a Fill command: the filled region must not cross the end of the
/// address space.
pub fn build_fill(address: u32, num_bytes: u32, fill_byte: u8) -> (r: Result<Command, FlashError>)
    ensures
        address + num_bytes > 0x1_0000_0000 ==> r == Err::<Command, FlashError>(
            FlashError::RangeError,
        ),
        address + num_bytes <= 0x1_0000_0000 ==> r == Ok::<Command, FlashError>(
            Command::Fill { address, num_bytes, fill_byte },
        ),
        r matches Ok(c) ==> c.valid(),
{
    if num_bytes as u64 > max_size_from(address) {
        return Err(FlashError::RangeError);
    }
    Ok(Command::Fill { address, num_bytes, fill_byte })
}

/// Builds a Uboot command.  When execution of the flashed image is requested,
/// the image must be longer than the stage-1 region, else it holds no second
/// stage to execute.
pub fn build_uboot(image_bytes: Vec<u8>, start: bool) -> (r: Result<Command, FlashError>)
    ensures
        start && image_bytes@.len() <= STAGE1_LEN_LIMIT ==> r == Err::<Command, FlashError>(
            FlashError::InvalidImage,
        ),
        (!start || image_bytes@.len() > STAGE1_LEN_LIMIT) ==> r == Ok::<Command, FlashError>(
            Command::Uboot { image_bytes, start },
        ),
        r matches Ok(c) ==> c.valid(),
{
    if start && image_bytes.len() <= STAGE1_LEN_LIMIT as usize {
        return Err(FlashError::InvalidImage);
    }
    Ok(Command::Uboot { image_bytes, start })
}

/// The configuration given on the command line: an optional USB device
/// selector and an optional command.
pub struct Config {
    device: Option<(u8, u8)>,
    command: Option<Command>,
}

impl Config {
    /// The device selector held.
    pub closed spec fn spec_device(&self) -> Option<(u8, u8)> {
        self.device
    }

    /// The command held.
    pub closed spec fn spec_command(&self) -> Option<Command> {
        self.command
    }

    /// Packs an already-parsed device selector and command.
    pub fn new(device: Option<(u8, u8)>, command: Option<Command>) -> (r: Config)
        ensures
            r.spec_device() == device,
            r.spec_command() == command,
    {
        Config { device, command }
    }

    /// Parses the `bus:addr` device selector, when one was given.
    pub fn with_device_str(device: Option<&str>, command: Option<Command>) -> (r: Result<
        Config,
        CliError,
    >)
        ensures
            match device {
                Some(s) => match crate::parse::device_of(s@) {
                    Some(p) => (r matches Ok(c) && c.spec_device() == Some(p)
                        && c.spec_command() == command),
                    None => r is Err,
                },
                None => (r matches Ok(c) && c.spec_device() is None && c.spec_command()
                    == command),
            },
    {
        match device {
            Some(s) => {
                let p = parse_device(s)?;
                Ok(Config { device: Some(p), command })
            },
            None => Ok(Config { device: None, command }),
        }
    }

    /// Gets the USB bus and address of the device, if one was selected.
    pub fn get_device(&self) -> (r: Option<(u8, u8)>)
        ensures
            r == self.spec_device(),
    {
        self.device
    }

    /// Gets the command to run, if one was given.
    pub fn get_command(&self) -> (r: Option<&Command>)
        ensures
            match r {
                Some(c) => self.spec_command() == Some(*c),
                None => self.spec_command() is None,
            },
    {
        self.command.as_ref()
    }
}

} // verus!
