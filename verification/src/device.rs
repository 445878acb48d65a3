//! The device capability.
//!
//! The dispatcher never talks to hardware directly: it is given a value of a
//! type implementing [`Device`], which exposes the memory, execution and
//! flashing operations of one already-selected device.  Every operation,
//! together with the request arguments and (for queries) the reported result,
//! is appended to a ghost call trace, so that a dispatcher contract can state
//! exactly which device operations a command performs and in what order.
//! [`MockDevice`] is a verified in-memory implementation that records its
//! calls and always succeeds; a real transport lives outside this crate.

use vstd::prelude::*;

verus! {

/// Identity/version information reported by a device, as renderable text.
/// Display-only: nothing in it is interpreted, and it is reported to the
/// caller verbatim.
#[derive(Debug, Clone, PartialEq, Eq)]
pub struct VersionInfo {
    /// The reported identity/version text.
    pub text: String,
}

impl VersionInfo {
    /// An equal copy.
    pub fn duplicate(&self) -> (r: VersionInfo)
        ensures
            r == *self,
    {
        VersionInfo { text: self.text.clone() }
    }
}

/// An opaque transport-level failure reported by a device operation.
#[derive(Debug, Clone, Copy, PartialEq, Eq)]
pub struct TransportFault;

/// One device operation as it appears in a device's call trace: the request
/// arguments, and for queries the result the device reported.
pub enum DeviceCall {
    /// `count` 32-bit words were read at `address`; the device reported
    /// `data`.
    ReadWords { address: u32, count: usize, data: Seq<u32> },
    /// The words `data` were written at `address`.
    WriteWords { address: u32, data: Seq<u32> },
    /// `length` bytes were read at `address`; the device reported `data`.
    ReadBytes { address: u32, length: u32, data: Seq<u8> },
    /// The bytes `data` were written at `address`.
    WriteBytes { address: u32, data: Seq<u8> },
    /// Execution jumped to `address`.
    Execute { address: u32 },
    /// A warm reset with return address `address` was requested.
    WarmReset { address: u32, aarch64: bool },
    /// The SID registers were queried; the device reported `sid`.
    ReadSid { sid: Option<[u32; 4]> },
    /// Version information was queried; the device reported `info`.
    VersionQuery { info: VersionInfo },
    /// `num_bytes` bytes at `address` were filled with `fill_byte`.
    Fill { address: u32, num_bytes: u32, fill_byte: u8 },
    /// `data` was written as the stage-1 loader and execution of it begun
    /// (one combined operation).
    Stage1 { data: Seq<u8> },
    /// `data` was written as the stage-2 image; the device reported entry
    /// point `entry` and total length `length`.
    Stage2 { data: Seq<u8>, entry: u32, length: u32 },
}

/// Memory, execution and flashing operations of one selected device.
///
/// Each method appends exactly one [`DeviceCall`] to the call trace whether
/// it succeeds or fails; nothing is promised about which outcome occurs.  For
/// a query, a successful result equals what the trace records.
pub trait Device {
    /// The operations performed on this device so far, in order.
    open spec fn calls(&self) -> Seq<DeviceCall> {
        Seq::empty()
    }

    /// Reads `count` 32-bit words starting at `address`.
    fn read_words(&mut self, address: u32, count: usize) -> (r: Result<Vec<u32>, TransportFault>)
        ensures
            final(self).calls().len() == old(self).calls().len() + 1,
            final(self).calls().drop_last() == old(self).calls(),
            (final(self).calls().last() matches DeviceCall::ReadWords { address: a, count: c, data }
                && a == address && c == count && (r matches Ok(v) ==> v@ == data && v@.len()
                == count)),
    ;

    /// Writes the given 32-bit words starting at `address`.
    fn write_words(&mut self, address: u32, data: &Vec<u32>) -> (r: Result<(), TransportFault>)
        ensures
            final(self).calls() == old(self).calls().push(
                DeviceCall::WriteWords { address, data: data@ },
            ),
    ;

    /// Reads `length` bytes starting at `address`.
    fn fel_read(&mut self, address: u32, length: u32) -> (r: Result<Vec<u8>, TransportFault>)
        ensures
            final(self).calls().len() == old(self).calls().len() + 1,
            final(self).calls().drop_last() == old(self).calls(),
            (final(self).calls().last() matches DeviceCall::ReadBytes {
                address: a,
                length: l,
                data,
            } && a == address && l == length && (r matches Ok(v) ==> v@ == data && v@.len()
                == length)),
    ;

    /// Writes the given bytes starting at `address`.
    fn fel_write(&mut self, address: u32, data: &Vec<u8>) -> (r: Result<(), TransportFault>)
        ensures
            final(self).calls() == old(self).calls().push(
                DeviceCall::WriteBytes { address, data: data@ },
            ),
    ;

    /// Calls code at `address`.
    fn fel_execute(&mut self, address: u32) -> (r: Result<(), TransportFault>)
        ensures
            final(self).calls() == old(self).calls().push(DeviceCall::Execute { address }),
    ;

    /// Requests a warm reset resuming at `address`, in 64-bit mode when
    /// `aarch64` is set.
    fn rmr_request(&mut self, address: u32, aarch64: bool) -> (r: Result<(), TransportFault>)
        ensures
            final(self).calls() == old(self).calls().push(
                DeviceCall::WarmReset { address, aarch64 },
            ),
    ;

    /// Reads the 128-bit security identifier, `None` when the device has no
    /// SID registers.
    fn read_sid(&mut self) -> (r: Result<Option<[u32; 4]>, TransportFault>)
        ensures
            final(self).calls().len() == old(self).calls().len() + 1,
            final(self).calls().drop_last() == old(self).calls(),
            (final(self).calls().last() matches DeviceCall::ReadSid { sid } && (r matches Ok(s)
                ==> s == sid)),
    ;

    /// Queries identity/version information.
    fn get_version_info(&mut self) -> (r: Result<VersionInfo, TransportFault>)
        ensures
            final(self).calls().len() == old(self).calls().len() + 1,
            final(self).calls().drop_last() == old(self).calls(),
            (final(self).calls().last() matches DeviceCall::VersionQuery { info } && (r matches Ok(
                v,
            ) ==> v == info)),
    ;

    /// Fills `num_bytes` bytes starting at `address` with `fill_byte`.
    fn fel_fill(&mut self, address: u32, num_bytes: u32, fill_byte: u8) -> (r: Result<
        (),
        TransportFault,
    >)
        ensures
            final(self).calls() == old(self).calls().push(
                DeviceCall::Fill { address, num_bytes, fill_byte },
            ),
    ;

    /// Writes `data` as the stage-1 loader and begins executing it; write and
    /// execute fail or succeed as one operation.
    fn write_and_execute_spl(&mut self, data: &Vec<u8>) -> (r: Result<(), TransportFault>)
        ensures
            final(self).calls() == old(self).calls().push(DeviceCall::Stage1 { data: data@ }),
    ;

    /// Writes `data` as the stage-2 image; on success reports the image's
    /// entry point and total length.
    fn write_uboot_image(&mut self, data: &Vec<u8>) -> (r: Result<(u32, u32), TransportFault>)
        ensures
            final(self).calls().len() == old(self).calls().len() + 1,
            final(self).calls().drop_last() == old(self).calls(),
            (final(self).calls().last() matches DeviceCall::Stage2 { data: d, entry, length } && d
                == data@ && (r matches Ok(p) ==> p.0 == entry && p.1 == length)),
    ;
}

/// One recorded device operation of a [`MockDevice`]: the run-time mirror of
/// [`DeviceCall`].
#[derive(Debug, PartialEq, Eq)]
pub enum RecordedCall {
    /// See [`DeviceCall::ReadWords`].
    ReadWords { address: u32, count: usize, data: Vec<u32> },
    /// See [`DeviceCall::WriteWords`].
    WriteWords { address: u32, data: Vec<u32> },
    /// See [`DeviceCall::ReadBytes`].
    ReadBytes { address: u32, length: u32, data: Vec<u8> },
    /// See [`DeviceCall::WriteBytes`].
    WriteBytes { address: u32, data: Vec<u8> },
    /// See [`DeviceCall::Execute`].
    Execute { address: u32 },
    /// See [`DeviceCall::WarmReset`].
    WarmReset { address: u32, aarch64: bool },
    /// See [`DeviceCall::ReadSid`].
    ReadSid { sid: Option<[u32; 4]> },
    /// See [`DeviceCall::VersionQuery`].
    VersionQuery { info: VersionInfo },
    /// See [`DeviceCall::Fill`].
    Fill { address: u32, num_bytes: u32, fill_byte: u8 },
    /// See [`DeviceCall::Stage1`].
    Stage1 { data: Vec<u8> },
    /// See [`DeviceCall::Stage2`].
    Stage2 { data: Vec<u8>, entry: u32, length: u32 },
}

impl View for RecordedCall {
    type V = DeviceCall;

    open spec fn view(&self) -> DeviceCall {
        match self {
            RecordedCall::ReadWords { address, count, data } => DeviceCall::ReadWords {
                address: *address,
                count: *count,
                data: data@,
            },
            RecordedCall::WriteWords { address, data } => DeviceCall::WriteWords {
                address: *address,
                data: data@,
            },
            RecordedCall::ReadBytes { address, length, data } => DeviceCall::ReadBytes {
                address: *address,
                length: *length,
                data: data@,
            },
            RecordedCall::WriteBytes { address, data } => DeviceCall::WriteBytes {
                address: *address,
                data: data@,
            },
            RecordedCall::Execute { address } => DeviceCall::Execute { address: *address },
            RecordedCall::WarmReset { address, aarch64 } => DeviceCall::WarmReset {
                address: *address,
                aarch64: *aarch64,
            },
            RecordedCall::ReadSid { sid } => DeviceCall::ReadSid { sid: *sid },
            RecordedCall::VersionQuery { info } => DeviceCall::VersionQuery { info: *info },
            RecordedCall::Fill { address, num_bytes, fill_byte } => DeviceCall::Fill {
                address: *address,
                num_bytes: *num_bytes,
                fill_byte: *fill_byte,
            },
            RecordedCall::Stage1 { data } => DeviceCall::Stage1 { data: data@ },
            RecordedCall::Stage2 { data, entry, length } => DeviceCall::Stage2 {
                data: data@,
                entry: *entry,
                length: *length,
            },
        }
    }
}

/// Copies a vector of plain values.
fn copy_vec<T: Copy>(v: &Vec<T>) -> (out: Vec<T>)
    ensures
        out@ == v@,
{
    let mut out: Vec<T> = Vec::new();
    let n = v.len();
    let mut i: usize = 0;
    while i < n
        invariant
            i <= n == v@.len(),
            out@ =~= v@.take(i as int),
        decreases n - i,
    {
        out.push(v[i]);
        i = i + 1;
    }
    proof {
        assert(v@.take(n as int) =~= v@);
    }
    out
}

/// A device that records every call and always succeeds.  Query results are
/// taken from its fields, which a caller sets up as a scenario needs.
pub struct MockDevice {
    /// Every call made, in order.
    pub log: Vec<RecordedCall>,
    /// What a SID query reports.
    pub sid: Option<[u32; 4]>,
    /// Bytes served to memory reads; positions past the end read as zero.
    pub memory: Vec<u8>,
    /// Words served to word reads; positions past the end read as zero.
    pub words: Vec<u32>,
    /// Entry point reported for a stage-2 image write.
    pub entry_point: u32,
    /// Version information reported.
    pub version: VersionInfo,
}

impl MockDevice {
    /// A device with an empty trace, no SID registers, zeroed memory and a
    /// zero entry point.
    pub fn new() -> (r: MockDevice)
        ensures
            r.calls() =~= Seq::<DeviceCall>::empty(),
            r.sid is None,
            r.memory@.len() == 0,
            r.words@.len() == 0,
            r.entry_point == 0,
    {
        MockDevice {
            log: Vec::new(),
            sid: None,
            memory: Vec::new(),
            words: Vec::new(),
            entry_point: 0,
            version: VersionInfo { text: String::new() },
        }
    }
}

impl Device for MockDevice {
    open spec fn calls(&self) -> Seq<DeviceCall> {
        self.log@.map_values(|rc: RecordedCall| rc@)
    }

    fn read_words(&mut self, address: u32, count: usize) -> (r: Result<Vec<u32>, TransportFault>) {
        let ghost prior = self.calls();
        let mut data: Vec<u32> = Vec::new();
        let mut i: usize = 0;
        while i < count
            invariant
                i <= count,
                data@.len() == i,
                forall|j: int|
                    0 <= j < i ==> data@[j] == (if j < old(self).words@.len() {
                        old(self).words@[j]
                    } else {
                        0u32
                    }),
                *self == *old(self),
            decreases count - i,
        {
            if i < self.words.len() {
                data.push(self.words[i]);
            } else {
                data.push(0);
            }
            i = i + 1;
        }
        let result = copy_vec(&data);
        let ghost rcv = (RecordedCall::ReadWords { address, count, data: data }@);
        self.log.push(RecordedCall::ReadWords { address, count, data });
        proof {
            assert(self.calls() =~= prior.push(rcv));
        }
        Ok(result)
    }

    fn write_words(&mut self, address: u32, data: &Vec<u32>) -> (r: Result<(), TransportFault>) {
        let ghost prior = self.calls();
        let copy = copy_vec(data);
        let ghost rcv = (RecordedCall::WriteWords { address, data: copy }@);
        self.log.push(RecordedCall::WriteWords { address, data: copy });
        proof {
            assert(self.calls() =~= prior.push(rcv));
        }
        Ok(())
    }

    fn fel_read(&mut self, address: u32, length: u32) -> (r: Result<Vec<u8>, TransportFault>) {
        let ghost prior = self.calls();
        let count = length as usize;
        let mut data: Vec<u8> = Vec::new();
        let mut i: usize = 0;
        while i < count
            invariant
                i <= count,
                data@.len() == i,
                *self == *old(self),
            decreases count - i,
        {
            if i < self.memory.len() {
                data.push(self.memory[i]);
            } else {
                data.push(0);
            }
            i = i + 1;
        }
        let result = copy_vec(&data);
        let ghost rcv = (RecordedCall::ReadBytes { address, length, data: data }@);
        self.log.push(RecordedCall::ReadBytes { address, length, data });
        proof {
            assert(self.calls() =~= prior.push(rcv));
        }
        Ok(result)
    }

    fn fel_write(&mut self, address: u32, data: &Vec<u8>) -> (r: Result<(), TransportFault>) {
        let ghost prior = self.calls();
        let copy = copy_vec(data);
        let ghost rcv = (RecordedCall::WriteBytes { address, data: copy }@);
        self.log.push(RecordedCall::WriteBytes { address, data: copy });
        proof {
            assert(self.calls() =~= prior.push(rcv));
        }
        Ok(())
    }

    fn fel_execute(&mut self, address: u32) -> (r: Result<(), TransportFault>) {
        let ghost prior = self.calls();
        self.log.push(RecordedCall::Execute { address });
        proof {
            assert(self.calls() =~= prior.push(DeviceCall::Execute { address }));
        }
        Ok(())
    }

    fn rmr_request(&mut self, address: u32, aarch64: bool) -> (r: Result<(), TransportFault>) {
        let ghost prior = self.calls();
        self.log.push(RecordedCall::WarmReset { address, aarch64 });
        proof {
            assert(self.calls() =~= prior.push(DeviceCall::WarmReset { address, aarch64 }));
        }
        Ok(())
    }

    fn read_sid(&mut self) -> (r: Result<Option<[u32; 4]>, TransportFault>) {
        let ghost prior = self.calls();
        let sid = self.sid;
        self.log.push(RecordedCall::ReadSid { sid });
        proof {
            assert(self.calls() =~= prior.push(DeviceCall::ReadSid { sid }));
        }
        Ok(sid)
    }

    fn get_version_info(&mut self) -> (r: Result<VersionInfo, TransportFault>) {
        let ghost prior = self.calls();
        let info = self.version.duplicate();
        let logged = self.version.duplicate();
        let ghost rcv = (RecordedCall::VersionQuery { info: logged }@);
        self.log.push(RecordedCall::VersionQuery { info: logged });
        proof {
            assert(self.calls() =~= prior.push(rcv));
        }
        Ok(info)
    }

    fn fel_fill(&mut self, address: u32, num_bytes: u32, fill_byte: u8) -> (r: Result<
        (),
        TransportFault,
    >) {
        let ghost prior = self.calls();
        self.log.push(RecordedCall::Fill { address, num_bytes, fill_byte });
        proof {
            assert(self.calls() =~= prior.push(DeviceCall::Fill { address, num_bytes, fill_byte }));
        }
        Ok(())
    }

    fn write_and_execute_spl(&mut self, data: &Vec<u8>) -> (r: Result<(), TransportFault>) {
        let ghost prior = self.calls();
        let copy = copy_vec(data);
        let ghost rcv = (RecordedCall::Stage1 { data: copy }@);
        self.log.push(RecordedCall::Stage1 { data: copy });
        proof {
            assert(self.calls() =~= prior.push(rcv));
        }
        Ok(())
    }

    fn write_uboot_image(&mut self, data: &Vec<u8>) -> (r: Result<(u32, u32), TransportFault>) {
        let ghost prior = self.calls();
        let copy = copy_vec(data);
        let entry = self.entry_point;
        let length = if data.len() > (u32::MAX as usize) {
            u32::MAX
        } else {
            data.len() as u32
        };
        let ghost rcv = (RecordedCall::Stage2 { data: copy, entry, length }@);
        self.log.push(RecordedCall::Stage2 { data: copy, entry, length });
        proof {
            assert(self.calls() =~= prior.push(rcv));
        }
        Ok((entry, length))
    }
}

} // verus!
