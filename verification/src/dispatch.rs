//! The dispatcher: executes one validated command against a device.
//!
//! Each command variant has a fixed protocol, stated over the device's call
//! trace: which operations are performed, in what order, with what payloads,
//! and what the caller is handed back for every outcome the device may
//! choose.  Validation failures are detected before any device operation;
//! dispatch is fail-fast and never retries.

use vstd::prelude::*;

use crate::config::Command;
use crate::config::STAGE1_LEN_LIMIT;
use crate::config::WriteData;
use crate::device::Device;
use crate::device::DeviceCall;
use crate::device::VersionInfo;
use crate::errors::FlashError;
use crate::errors::Operation;
use crate::files::FileSource;
use crate::render::dump_line;
use crate::render::dump_line_count;
use crate::render::hex_dump;

verus! {

/// The result payload of a dispatched command, handed to the caller for
/// presentation.
#[derive(Debug, PartialEq, Eq)]
pub enum Outcome {
    /// The operation completed with nothing to report.
    Done,
    /// Entry point of a flashed stage-2 image that was not started.
    EntryPoint(u32),
    /// The SID register values.
    Sid([u32; 4]),
    /// Rendered hex-dump lines.
    HexDump(Vec<String>),
    /// Raw dumped bytes, destined for the named file, or for standard output
    /// when no destination is named.
    Bytes { data: Vec<u8>, out: Option<String> },
    /// A single word read from memory.
    Word(u32),
    /// Version information to display.
    Version(VersionInfo),
}

/// The stage-1 loader part of an image: its leading bytes, up to the stage-1
/// region size.
pub open spec fn stage1_of(image: Seq<u8>) -> Seq<u8> {
    if image.len() <= STAGE1_LEN_LIMIT {
        image
    } else {
        image.take(STAGE1_LEN_LIMIT as int)
    }
}

/// The stage-2 part of an image: everything past the stage-1 region.
pub open spec fn stage2_of(image: Seq<u8>) -> Seq<u8>
    recommends
        image.len() > STAGE1_LEN_LIMIT,
{
    image.skip(STAGE1_LEN_LIMIT as int)
}

/// What flashing an image does.  An image too short to start is refused
/// before any device operation.  Otherwise the stage-1 loader is written and
/// started as one operation; an image longer than the stage-1 region then
/// has its remainder written as the stage-2 image, and the entry point the
/// device reports is either jumped to (when a start was requested) or handed
/// back.  A transport failure stops the protocol at the failing step.
pub open spec fn uboot_post(
    oldc: Seq<DeviceCall>,
    newc: Seq<DeviceCall>,
    image: Seq<u8>,
    start: bool,
    r: Result<Outcome, FlashError>,
) -> bool {
    if start && image.len() <= STAGE1_LEN_LIMIT {
        r == Err::<Outcome, FlashError>(FlashError::InvalidImage) && newc == oldc
    } else if image.len() <= STAGE1_LEN_LIMIT {
        &&& newc == oldc.push(DeviceCall::Stage1 { data: image })
        &&& (r == Ok::<Outcome, FlashError>(Outcome::Done) || r == Err::<Outcome, FlashError>(
            FlashError::Transport { attempted: Operation::Stage1Transfer },
        ))
    } else {
        let suffix = newc.skip(oldc.len() as int);
        &&& oldc.len() < newc.len()
        &&& newc.take(oldc.len() as int) == oldc
        &&& 1 <= suffix.len() <= (if start {
            3int
        } else {
            2int
        })
        &&& suffix[0] == (DeviceCall::Stage1 { data: stage1_of(image) })
        &&& (suffix.len() == 1 ==> r == Err::<Outcome, FlashError>(
            FlashError::Transport { attempted: Operation::Stage1Transfer },
        ))
        &&& (suffix.len() >= 2 ==> (suffix[1] matches DeviceCall::Stage2 { data, entry, length }
            && data == stage2_of(image) && (if suffix.len() == 2 {
            if start {
                r == Err::<Outcome, FlashError>(
                    FlashError::Transport { attempted: Operation::Stage2Write },
                )
            } else {
                r == Ok::<Outcome, FlashError>(Outcome::EntryPoint(entry)) || r == Err::<
                    Outcome,
                    FlashError,
                >(FlashError::Transport { attempted: Operation::Stage2Write })
            }
        } else {
            &&& start
            &&& suffix[2] == (DeviceCall::Execute { address: entry })
            &&& (r == Ok::<Outcome, FlashError>(Outcome::Done) || r == Err::<Outcome, FlashError>(
                FlashError::Transport { attempted: (Operation::StartUboot { entry }) },
            ))
        })))
    }
}

/// What a dump does: one SID query, one byte read, or one word read, with
/// the result handed back as the command's flags direct.
pub open spec fn dump_post(
    oldc: Seq<DeviceCall>,
    newc: Seq<DeviceCall>,
    address: Option<u32>,
    size: Option<u32>,
    hex: bool,
    sid: bool,
    out: Option<String>,
    r: Result<Outcome, FlashError>,
) -> bool {
    &&& newc.len() == oldc.len() + 1
    &&& newc.drop_last() == oldc
    &&& if sid {
        newc.last() matches DeviceCall::ReadSid { sid: sv } && match r {
            Ok(o) => o matches Outcome::Sid(s) && sv == Some(s),
            Err(e) => (e == FlashError::UnsupportedFeature && sv is None) || e == (
            FlashError::Transport { attempted: Operation::SidQuery }),
        }
    } else if size is Some {
        let a = address->0;
        let sz = size->0;
        newc.last() matches DeviceCall::ReadBytes { address: ra, length: rl, data } && ra == a && rl
            == sz && match r {
            Ok(o) => if hex {
                o matches Outcome::HexDump(lines) && lines@.len() == dump_line_count(data.len())
                    && (forall|k: int|
                    0 <= k < lines@.len() ==> (#[trigger] lines@[k])@ == dump_line(data, a, k))
            } else {
                o matches Outcome::Bytes { data: d, out: dest } && d@ == data && dest == out
            },
            Err(e) => e == (FlashError::Transport {
                attempted: (Operation::ReadBytes { address: a, size: sz }),
            }),
        }
    } else {
        let a = address->0;
        newc.last() matches DeviceCall::ReadWords { address: ra, count, data } && ra == a && count
            == 1 && match r {
            Ok(o) => o matches Outcome::Word(w) && data.len() == 1 && w == data[0],
            Err(e) => e == (FlashError::Transport {
                attempted: (Operation::ReadWord { address: a }),
            }),
        }
    }
}

/// No file item among the first `upto` write items is missing from the file
/// store.
pub open spec fn write_files_present(
    files: Map<Seq<char>, Seq<u8>>,
    items: Seq<(u32, WriteData)>,
    upto: int,
) -> bool {
    forall|j: int|
        0 <= j < upto ==> ((#[trigger] items[j]).1 matches WriteData::File(p)
            ==> files.contains_key(p@))
}

/// The device operation one write item performs: a one-word write, or a bulk
/// write of the named file's contents.
pub open spec fn write_call_of(
    files: Map<Seq<char>, Seq<u8>>,
    address: u32,
    item: WriteData,
) -> DeviceCall {
    match item {
        WriteData::Word(w) => DeviceCall::WriteWords { address, data: seq![w] },
        WriteData::File(p) => DeviceCall::WriteBytes { address, data: files[p@] },
    }
}

/// The device operations a list of write items performs, in item order.
pub open spec fn write_calls_of(
    files: Map<Seq<char>, Seq<u8>>,
    items: Seq<(u32, WriteData)>,
) -> Seq<DeviceCall> {
    items.map_values(|it: (u32, WriteData)| write_call_of(files, it.0, it.1))
}

/// What a multi-item write does: items are processed in order, each an
/// independent operation; the first failure (a missing file, reported before
/// its write, or a transport failure, reported after) stops processing, and
/// earlier items are not rolled back.
pub open spec fn write_post(
    files: Map<Seq<char>, Seq<u8>>,
    oldc: Seq<DeviceCall>,
    newc: Seq<DeviceCall>,
    items: Seq<(u32, WriteData)>,
    r: Result<Outcome, FlashError>,
) -> bool {
    match r {
        Ok(o) => {
            &&& o == Outcome::Done
            &&& write_files_present(files, items, items.len() as int)
            &&& newc == oldc + write_calls_of(files, items)
        },
        Err(e) => exists|k: int| #[trigger] write_failed_at(files, oldc, newc, items, k, e),
    }
}

/// Item `k` is the first failing write item, and `e` reports it: a missing
/// file stops processing before its write, a transport failure after it.
pub open spec fn write_failed_at(
    files: Map<Seq<char>, Seq<u8>>,
    oldc: Seq<DeviceCall>,
    newc: Seq<DeviceCall>,
    items: Seq<(u32, WriteData)>,
    k: int,
    e: FlashError,
) -> bool {
    &&& 0 <= k < items.len()
    &&& write_files_present(files, items, k)
    &&& match e {
        FlashError::NotFound { path } => {
            &&& items[k].1 matches WriteData::File(p) && p@ == path@ && !files.contains_key(p@)
            &&& newc == oldc + write_calls_of(files, items.take(k))
        },
        FlashError::Transport { attempted } => {
            &&& newc == oldc + write_calls_of(files, items.take(k + 1))
            &&& match items[k].1 {
                WriteData::Word(w) => attempted == (Operation::WriteWord {
                    address: items[k].0,
                    word: w,
                }),
                WriteData::File(p) => files.contains_key(p@) && (
                attempted matches Operation::WriteFile { address, path } && address == items[k].0
                    && path@ == p@),
            }
        },
        _ => false,
    }
}

/// What an execute does: one jump to the address.
pub open spec fn execute_post(
    oldc: Seq<DeviceCall>,
    newc: Seq<DeviceCall>,
    address: u32,
    r: Result<Outcome, FlashError>,
) -> bool {
    &&& newc == oldc.push(DeviceCall::Execute { address })
    &&& (r == Ok::<Outcome, FlashError>(Outcome::Done) || r == Err::<Outcome, FlashError>(
        FlashError::Transport { attempted: (Operation::ExecuteAt { address }) },
    ))
}

/// What a 64-bit warm reset request does: one reset request tagged for
/// 64-bit resume.
pub open spec fn reset64_post(
    oldc: Seq<DeviceCall>,
    newc: Seq<DeviceCall>,
    address: u32,
    r: Result<Outcome, FlashError>,
) -> bool {
    &&& newc == oldc.push(DeviceCall::WarmReset { address, aarch64: true })
    &&& (r == Ok::<Outcome, FlashError>(Outcome::Done) || r == Err::<Outcome, FlashError>(
        FlashError::Transport { attempted: (Operation::WarmReset { address }) },
    ))
}

/// What a version query does: one query, reported verbatim.
pub open spec fn version_post(
    oldc: Seq<DeviceCall>,
    newc: Seq<DeviceCall>,
    r: Result<Outcome, FlashError>,
) -> bool {
    &&& newc.len() == oldc.len() + 1
    &&& newc.drop_last() == oldc
    &&& (newc.last() matches DeviceCall::VersionQuery { info } && match r {
        Ok(o) => o == Outcome::Version(info),
        Err(e) => e == (FlashError::Transport { attempted: Operation::VersionQuery }),
    })
}

/// What a fill does: one region fill with the byte.  A clear is a fill with
/// byte zero.
pub open spec fn fill_post(
    oldc: Seq<DeviceCall>,
    newc: Seq<DeviceCall>,
    address: u32,
    num_bytes: u32,
    fill_byte: u8,
    r: Result<Outcome, FlashError>,
) -> bool {
    &&& newc == oldc.push(DeviceCall::Fill { address, num_bytes, fill_byte })
    &&& (r == Ok::<Outcome, FlashError>(Outcome::Done) || r == Err::<Outcome, FlashError>(
        FlashError::Transport {
            attempted: (Operation::FillMemory { address, num_bytes, fill_byte }),
        },
    ))
}

/// What dispatching any one command does, by variant.
pub open spec fn dispatch_post(
    files: Map<Seq<char>, Seq<u8>>,
    oldc: Seq<DeviceCall>,
    newc: Seq<DeviceCall>,
    cmd: Command,
    r: Result<Outcome, FlashError>,
) -> bool {
    match cmd {
        Command::Uboot { image_bytes, start } => uboot_post(oldc, newc, image_bytes@, start, r),
        Command::Dump { address, size, hex, sid, out } => dump_post(
            oldc,
            newc,
            address,
            size,
            hex,
            sid,
            out,
            r,
        ),
        Command::Write { items } => write_post(files, oldc, newc, items@, r),
        Command::Execute { address } => execute_post(oldc, newc, address, r),
        Command::Reset64 { address } => reset64_post(oldc, newc, address, r),
        Command::Version => version_post(oldc, newc, r),
        Command::Clear { address, num_bytes } => fill_post(oldc, newc, address, num_bytes, 0, r),
        Command::Fill { address, num_bytes, fill_byte } => fill_post(
            oldc,
            newc,
            address,
            num_bytes,
            fill_byte,
            r,
        ),
    }
}

/// Clearing a region admits exactly the device traces and results that
/// filling it with byte zero admits: the two commands are observationally
/// identical.
pub proof fn lemma_clear_is_fill_with_zero(
    files: Map<Seq<char>, Seq<u8>>,
    oldc: Seq<DeviceCall>,
    newc: Seq<DeviceCall>,
    address: u32,
    num_bytes: u32,
    r: Result<Outcome, FlashError>,
)
    ensures
        dispatch_post(files, oldc, newc, (Command::Clear { address, num_bytes }), r)
            <==> dispatch_post(
            files,
            oldc,
            newc,
            (Command::Fill { address, num_bytes, fill_byte: 0 }),
            r,
        ),
{
}

/// Dispatching a Fill command performs exactly one region-fill operation,
/// with the command's address, byte count and fill byte, whatever the device
/// answers.
pub proof fn lemma_fill_dispatch_one_call(
    files: Map<Seq<char>, Seq<u8>>,
    oldc: Seq<DeviceCall>,
    newc: Seq<DeviceCall>,
    address: u32,
    num_bytes: u32,
    fill_byte: u8,
    r: Result<Outcome, FlashError>,
)
    requires
        dispatch_post(files, oldc, newc, (Command::Fill { address, num_bytes, fill_byte }), r),
    ensures
        newc == oldc.push(DeviceCall::Fill { address, num_bytes, fill_byte }),
{
}

/// A flash-and-start request whose image is no longer than the stage-1
/// region fails with `InvalidImage`, and no device operation occurs.
pub proof fn lemma_uboot_rejects_short_image(
    files: Map<Seq<char>, Seq<u8>>,
    oldc: Seq<DeviceCall>,
    newc: Seq<DeviceCall>,
    image_bytes: Vec<u8>,
    r: Result<Outcome, FlashError>,
)
    requires
        image_bytes@.len() <= STAGE1_LEN_LIMIT,
        dispatch_post(files, oldc, newc, (Command::Uboot { image_bytes, start: true }), r),
    ensures
        r == Err::<Outcome, FlashError>(FlashError::InvalidImage),
        newc == oldc,
{
}

/// A flash of an image longer than the stage-1 region that succeeds without
/// a start request performs exactly one stage-1 write/execute followed by
/// one stage-2 write, no further execute, and reports the entry point the
/// stage-2 write returned.
pub proof fn lemma_uboot_two_phase(
    oldc: Seq<DeviceCall>,
    newc: Seq<DeviceCall>,
    image: Seq<u8>,
    entry: u32,
    r: Result<Outcome, FlashError>,
)
    requires
        image.len() > STAGE1_LEN_LIMIT,
        uboot_post(oldc, newc, image, false, r),
        r == Ok::<Outcome, FlashError>(Outcome::EntryPoint(entry)),
    ensures
        newc.len() == oldc.len() + 2,
        newc.take(oldc.len() as int) == oldc,
        newc[oldc.len() as int] == (DeviceCall::Stage1 { data: stage1_of(image) }),
        (newc[oldc.len() as int + 1] matches DeviceCall::Stage2 { data, entry: e, length } && data
            == stage2_of(image) && e == entry),
{
    let n = oldc.len() as int;
    let suffix = newc.skip(n);
    assert(suffix.len() != 1);
    assert(suffix.len() == 2);
    vstd::seq_lib::lemma_seq_skip_index(newc, n, 0);
    vstd::seq_lib::lemma_seq_skip_index(newc, n, 1);
}

/// Copies the byte range `[from, to)` of a vector.
fn subvec(v: &Vec<u8>, from: usize, to: usize) -> (out: Vec<u8>)
    requires
        from <= to <= v@.len(),
    ensures
        out@ == v@.subrange(from as int, to as int),
{
    let mut out: Vec<u8> = Vec::new();
    let mut i = from;
    while i < to
        invariant
            from <= i <= to <= v@.len(),
            out@ =~= v@.subrange(from as int, i as int),
        decreases to - i,
    {
        out.push(v[i]);
        i = i + 1;
    }
    out
}

/// Clones an optional destination path.
fn clone_opt_string(o: &Option<String>) -> (r: Option<String>)
    ensures
        r == *o,
{
    match o {
        Some(s) => Some(s.clone()),
        None => None,
    }
}

/// Flashes a bootloader image: stage-1 write-and-start, then the stage-2
/// image when one is present, then the reported entry point is jumped to or
/// handed back.
pub fn dispatch_uboot<D: Device>(device: &mut D, image_bytes: &Vec<u8>, start: bool) -> (r: Result<
    Outcome,
    FlashError,
>)
    ensures
        uboot_post(old(device).calls(), final(device).calls(), image_bytes@, start, r),
{
    let ghost oldc = device.calls();
    let n = image_bytes.len();
    let limit = STAGE1_LEN_LIMIT as usize;
    if start && n <= limit {
        return Err(FlashError::InvalidImage);
    }
    if n <= limit {
        match device.write_and_execute_spl(image_bytes) {
            Ok(_) => Ok(Outcome::Done),
            Err(_) => Err(FlashError::Transport { attempted: Operation::Stage1Transfer }),
        }
    } else {
        let stage1 = subvec(image_bytes, 0, limit);
        let stage2 = subvec(image_bytes, limit, n);
        proof {
            assert(stage1@ == stage1_of(image_bytes@));
            assert(stage2@ == stage2_of(image_bytes@));
        }
        if device.write_and_execute_spl(&stage1).is_err() {
            proof {
                assert(device.calls().skip(oldc.len() as int) =~= seq![
                    DeviceCall::Stage1 { data: stage1_of(image_bytes@) },
                ]);
                assert(device.calls().take(oldc.len() as int) =~= oldc);
            }
            return Err(FlashError::Transport { attempted: Operation::Stage1Transfer });
        }
        let ghost calls1 = device.calls();
        let entry = match device.write_uboot_image(&stage2) {
            Ok(p) => p.0,
            Err(_) => {
                proof {
                    let calls2 = device.calls();
                    assert(calls2 =~= calls1.push(calls2.last()));
                    assert(calls2.skip(oldc.len() as int) =~= seq![calls1.last(), calls2.last()]);
                    assert(calls2.take(oldc.len() as int) =~= oldc);
                }
                return Err(FlashError::Transport { attempted: Operation::Stage2Write });
            },
        };
        let ghost calls2 = device.calls();
        proof {
            assert(calls2 =~= calls1.push(calls2.last()));
            assert(calls2.skip(oldc.len() as int) =~= seq![calls1.last(), calls2.last()]);
            assert(calls2.take(oldc.len() as int) =~= oldc);
        }
        if start {
            let jumped = device.fel_execute(entry);
            proof {
                let calls3 = device.calls();
                assert(calls3.skip(oldc.len() as int) =~= seq![
                    calls1.last(),
                    calls2.last(),
                    DeviceCall::Execute { address: entry },
                ]);
                assert(calls3.take(oldc.len() as int) =~= oldc);
            }
            match jumped {
                Ok(_) => Ok(Outcome::Done),
                Err(_) => Err(
                    FlashError::Transport { attempted: (Operation::StartUboot { entry }) },
                ),
            }
        } else {
            Ok(Outcome::EntryPoint(entry))
        }
    }
}

/// Dumps memory: the SID registers, a span of bytes (rendered or raw), or a
/// single word.
pub fn dispatch_dump<D: Device>(
    device: &mut D,
    address: Option<u32>,
    size: Option<u32>,
    hex: bool,
    sid: bool,
    out: &Option<String>,
) -> (r: Result<Outcome, FlashError>)
    requires
        !sid ==> address is Some && (size matches Some(sz) ==> address->0 + sz <= 0x1_0000_0000),
    ensures
        dump_post(old(device).calls(), final(device).calls(), address, size, hex, sid, *out, r),
{
    if sid {
        match device.read_sid() {
            Ok(Some(sidv)) => Ok(Outcome::Sid(sidv)),
            Ok(None) => Err(FlashError::UnsupportedFeature),
            Err(_) => Err(FlashError::Transport { attempted: Operation::SidQuery }),
        }
    } else {
        let a = address.unwrap();
        if let Some(sz) = size {
            match device.fel_read(a, sz) {
                Ok(data) => {
                    if hex {
                        let lines = hex_dump(&data, a);
                        Ok(Outcome::HexDump(lines))
                    } else {
                        Ok(Outcome::Bytes { data, out: clone_opt_string(out) })
                    }
                },
                Err(_) => Err(
                    FlashError::Transport {
                        attempted: (Operation::ReadBytes { address: a, size: sz }),
                    },
                ),
            }
        } else {
            match device.read_words(a, 1) {
                Ok(words) => Ok(Outcome::Word(words[0])),
                Err(_) => Err(
                    FlashError::Transport { attempted: (Operation::ReadWord { address: a }) },
                ),
            }
        }
    }
}

/// Writes the items of a Write command in order, stopping at the first
/// failure.
pub fn dispatch_write<D: Device, F: FileSource>(
    device: &mut D,
    fs: &F,
    items: &Vec<(u32, WriteData)>,
) -> (r: Result<Outcome, FlashError>)
    ensures
        write_post(fs.files(), old(device).calls(), final(device).calls(), items@, r),
{
    let ghost oldc = device.calls();
    let ghost fls = fs.files();
    let n = items.len();
    let mut i: usize = 0;
    while i < n
        invariant
            i <= n == items@.len(),
            fls == fs.files(),
            oldc == old(device).calls(),
            write_files_present(fls, items@, i as int),
            device.calls() == oldc + write_calls_of(fls, items@.take(i as int)),
        decreases n - i,
    {
        let ghost pre = items@.take(i as int);
        let ghost cur = items@.take(i + 1);
        proof {
            assert(cur.drop_last() =~= pre);
            assert(cur.last() == items@[i as int]);
        }
        let address = items[i].0;
        match &items[i].1 {
            WriteData::Word(w) => {
                let mut words: Vec<u32> = Vec::new();
                words.push(*w);
                let wrote = device.write_words(address, &words);
                proof {
                    assert(words@ =~= seq![*w]);
                    assert(write_calls_of(fls, cur) =~= write_calls_of(fls, pre).push(
                        write_call_of(fls, items@[i as int].0, items@[i as int].1),
                    ));
                    assert(device.calls() =~= oldc + write_calls_of(fls, cur));
                }
                if wrote.is_err() {
                    let e = FlashError::Transport {
                        attempted: Operation::WriteWord { address, word: *w },
                    };
                    proof {
                        assert(write_failed_at(fls, oldc, device.calls(), items@, i as int, e));
                    }
                    return Err(e);
                }
            },
            WriteData::File(p) => {
                match fs.read_file(p.as_str()) {
                    None => {
                        let e = FlashError::NotFound { path: p.clone() };
                        proof {
                            assert(write_failed_at(fls, oldc, device.calls(), items@, i as int, e));
                        }
                        return Err(e);
                    },
                    Some(content) => {
                        let wrote = device.fel_write(address, &content);
                        proof {
                            assert(write_calls_of(fls, cur) =~= write_calls_of(fls, pre).push(
                                write_call_of(fls, items@[i as int].0, items@[i as int].1),
                            ));
                            assert(device.calls() =~= oldc + write_calls_of(fls, cur));
                        }
                        if wrote.is_err() {
                            let e = FlashError::Transport {
                                attempted: Operation::WriteFile { address, path: p.clone() },
                            };
                            proof {
                                assert(write_failed_at(
                                    fls,
                                    oldc,
                                    device.calls(),
                                    items@,
                                    i as int,
                                    e,
                                ));
                            }
                            return Err(e);
                        }
                    },
                }
            },
        }
        i = i + 1;
    }
    proof {
        assert(items@.take(n as int) =~= items@);
    }
    Ok(Outcome::Done)
}

/// Calls code at the given address.
pub fn dispatch_execute<D: Device>(device: &mut D, address: u32) -> (r: Result<
    Outcome,
    FlashError,
>)
    ensures
        execute_post(old(device).calls(), final(device).calls(), address, r),
{
    match device.fel_execute(address) {
        Ok(_) => Ok(Outcome::Done),
        Err(_) => Err(FlashError::Transport { attempted: (Operation::ExecuteAt { address }) }),
    }
}

/// Requests a warm reset into 64-bit mode at the given return address.
pub fn dispatch_reset64<D: Device>(device: &mut D, address: u32) -> (r: Result<
    Outcome,
    FlashError,
>)
    ensures
        reset64_post(old(device).calls(), final(device).calls(), address, r),
{
    match device.rmr_request(address, true) {
        Ok(_) => Ok(Outcome::Done),
        Err(_) => Err(FlashError::Transport { attempted: (Operation::WarmReset { address }) }),
    }
}

/// Queries identity/version information.
pub fn dispatch_version<D: Device>(device: &mut D) -> (r: Result<Outcome, FlashError>)
    ensures
        version_post(old(device).calls(), final(device).calls(), r),
{
    match device.get_version_info() {
        Ok(info) => Ok(Outcome::Version(info)),
        Err(_) => Err(FlashError::Transport { attempted: Operation::VersionQuery }),
    }
}

/// Fills a region with one byte value.
pub fn dispatch_fill<D: Device>(device: &mut D, address: u32, num_bytes: u32, fill_byte: u8) -> (r:
    Result<Outcome, FlashError>)
    ensures
        fill_post(old(device).calls(), final(device).calls(), address, num_bytes, fill_byte, r),
{
    match device.fel_fill(address, num_bytes, fill_byte) {
        Ok(_) => Ok(Outcome::Done),
        Err(_) => Err(
            FlashError::Transport {
                attempted: (Operation::FillMemory { address, num_bytes, fill_byte }),
            },
        ),
    }
}

/// Clears a region: fills it with byte zero.
pub fn dispatch_clear<D: Device>(device: &mut D, address: u32, num_bytes: u32) -> (r: Result<
    Outcome,
    FlashError,
>)
    ensures
        fill_post(old(device).calls(), final(device).calls(), address, num_bytes, 0, r),
{
    dispatch_fill(device, address, num_bytes, 0)
}

/// Executes one validated command against a device, producing the command's
/// result payload or the first failure.
pub fn dispatch<D: Device, F: FileSource>(device: &mut D, fs: &F, command: &Command) -> (r: Result<
    Outcome,
    FlashError,
>)
    requires
        command.valid(),
    ensures
        dispatch_post(fs.files(), old(device).calls(), final(device).calls(), *command, r),
{
    match command {
        Command::Uboot { image_bytes, start } => dispatch_uboot(device, image_bytes, *start),
        Command::Dump { address, size, hex, sid, out } => dispatch_dump(
            device,
            *address,
            *size,
            *hex,
            *sid,
            out,
        ),
        Command::Write { items } => dispatch_write(device, fs, items),
        Command::Execute { address } => dispatch_execute(device, *address),
        Command::Reset64 { address } => dispatch_reset64(device, *address),
        Command::Version => dispatch_version(device),
        Command::Clear { address, num_bytes } => dispatch_clear(device, *address, *num_bytes),
        Command::Fill { address, num_bytes, fill_byte } => dispatch_fill(
            device,
            *address,
            *num_bytes,
            *fill_byte,
        ),
    }
}

} // verus!
