use vstd::prelude::*;

use crate::bytes::{be_i32, be_u32, be_u64, ByteReader};
use crate::error::HprofError;
use crate::tag::RecordTag;
use crate::text::{decode_lossy, utf8_text};

verus! {

/// Width of every identifier in the stream.
pub const ID_SIZE: usize = 8;

/// Length of the format-identifier text at the start of the stream.
pub const FORMAT_LEN: usize = 19;

/// Total length of the fixed preamble.
pub const HEADER_LEN: usize = 31;

/// `s` from byte `k` on.
pub open spec fn from(s: Seq<u8>, k: int) -> Seq<u8> {
    s.subrange(k, s.len() as int)
}

/// The fixed preamble of a stream.
pub struct Header {
    pub format: String,
    pub identifier_size: u32,
    pub high_word_ms: u32,
    pub low_word_ms: u32,
}

/// What the preamble holds when `s` starts with one.
pub open spec fn header_fits(h: Header, s: Seq<u8>) -> bool {
    &&& h.format@ == utf8_text(s.subrange(0, 19))
    &&& h.identifier_size == be_u32(from(s, 19))
    &&& h.high_word_ms == be_u32(from(s, 23))
    &&& h.low_word_ms == be_u32(from(s, 27))
}

/// The envelope that precedes every record body.
#[derive(Debug, Clone, Copy, PartialEq, Eq, Structural)]
pub struct Record {
    pub tag: RecordTag,
    pub time: u32,
    pub bytes: u32,
}

pub struct Utf8StringRecord {
    pub identifier: u64,
    pub value: String,
}

#[derive(Debug, Clone, Copy, PartialEq, Eq, Structural)]
pub struct LoadClassRecord {
    pub serial_num: u32,
    pub object_id: u64,
    pub strace_num: u32,
    pub strname_id: u64,
}

pub open spec fn load_class_of(s: Seq<u8>) -> LoadClassRecord {
    LoadClassRecord {
        serial_num: be_u32(s),
        object_id: be_u64(from(s, 4)),
        strace_num: be_u32(from(s, 12)),
        strname_id: be_u64(from(s, 16)),
    }
}

#[derive(Debug, Clone, Copy, PartialEq, Eq, Structural)]
pub struct UnloadClassRecord {
    pub serial_num: u32,
}

#[derive(Debug, Clone, Copy, PartialEq, Eq, Structural)]
pub struct StackFrameRecord {
    pub frame_id: u64,
    pub method_name_id: u64,
    pub method_sign_id: u64,
    pub source_name_id: u64,
    pub class_serial_num: u32,
    pub line_num: i32,
}

pub open spec fn stack_frame_of(s: Seq<u8>) -> StackFrameRecord {
    StackFrameRecord {
        frame_id: be_u64(s),
        method_name_id: be_u64(from(s, 8)),
        method_sign_id: be_u64(from(s, 16)),
        source_name_id: be_u64(from(s, 24)),
        class_serial_num: be_u32(from(s, 32)),
        line_num: be_i32(from(s, 36)),
    }
}

pub struct StackTraceRecord {
    pub serial_num: u32,
    pub thread_serial_num: u32,
    pub nframes: u32,
    pub frame_ids: Vec<u64>,
}

/// The `n` identifiers that follow the 12-byte stack-trace prefix of `s`.
pub open spec fn frame_ids_of(s: Seq<u8>, n: nat) -> Seq<u64> {
    Seq::new(n, |i: int| be_u64(from(s, 12 + 8 * i)))
}

/// Byte length of a stack-trace body that lists `n` frames.
pub open spec fn stack_trace_len(n: nat) -> nat {
    12 + 8 * n
}

/// Reads the 31-byte preamble: the format text, the declared identifier
/// size and the two words of the creation timestamp.
pub fn parse_header(reader: &mut ByteReader) -> (r: Result<Header, HprofError>)
    requires
        old(reader).wf(),
    ensures
        final(reader).wf(),
        match r {
            Ok(h) => old(reader).rest().len() >= 31 && header_fits(h, old(reader).rest())
                && old(reader).advanced(final(reader), 31),
            Err(e) => old(reader).rest().len() < 31 && e == HprofError::TruncatedInput
                && *final(reader) == *old(reader),
        },
{
    if reader.remaining() < HEADER_LEN {
        return Err(HprofError::TruncatedInput);
    }
    let ghost s = reader.rest();
    let format_buf = reader.read_bytes(FORMAT_LEN)?;
    let format = decode_lossy(format_buf.as_slice());
    let ghost r1 = *reader;
    let identifier_size = reader.read_u32()?;
    let ghost r2 = *reader;
    let high_word_ms = reader.read_u32()?;
    let ghost r3 = *reader;
    let low_word_ms = reader.read_u32()?;
    proof {
        assert(r1.rest() =~= from(s, 19));
        assert(r2.rest() =~= from(s, 23));
        assert(r3.rest() =~= from(s, 27));
    }
    Ok(Header { format, identifier_size, high_word_ms, low_word_ms })
}

/// Reads a string body whose envelope declared `bytes` payload bytes: an
/// identifier, then `bytes - 8` bytes of text decoded lossily.
pub fn parse_utf8_string_record(reader: &mut ByteReader, bytes: u32) -> (r: Result<
    Utf8StringRecord,
    HprofError,
>)
    requires
        old(reader).wf(),
    ensures
        final(reader).wf(),
        match r {
            Ok(rec) => bytes >= 8 && old(reader).rest().len() >= bytes
                && rec.identifier == be_u64(old(reader).rest())
                && rec.value@ == utf8_text(old(reader).rest().subrange(8, bytes as int))
                && old(reader).advanced(final(reader), bytes as nat),
            Err(e) => *final(reader) == *old(reader) && ((bytes < 8 && e
                == HprofError::MalformedRecord) || (bytes >= 8 && old(reader).rest().len() < bytes
                && e == HprofError::TruncatedInput)),
        },
{
    if bytes < 8 {
        return Err(HprofError::MalformedRecord);
    }
    if reader.remaining() < bytes as usize {
        return Err(HprofError::TruncatedInput);
    }
    let ghost s = reader.rest();
    let identifier = reader.read_u64()?;
    let ghost r1 = *reader;
    let value_buf = reader.read_bytes(bytes as usize - ID_SIZE)?;
    let value = decode_lossy(value_buf.as_slice());
    proof {
        assert(r1.rest() =~= from(s, 8));
        assert(value_buf@ =~= s.subrange(8, bytes as int));
    }
    Ok(Utf8StringRecord { identifier, value })
}

/// Reads a load-class body: serial, class object id, stack-trace serial, name id.
pub fn parse_load_class_record(reader: &mut ByteReader) -> (r: Result<
    LoadClassRecord,
    HprofError,
>)
    requires
        old(reader).wf(),
    ensures
        final(reader).wf(),
        match r {
            Ok(rec) => old(reader).rest().len() >= 24 && rec == load_class_of(old(reader).rest())
                && old(reader).advanced(final(reader), 24),
            Err(e) => old(reader).rest().len() < 24 && e == HprofError::TruncatedInput
                && *final(reader) == *old(reader),
        },
{
    if reader.remaining() < 24 {
        return Err(HprofError::TruncatedInput);
    }
    let ghost s = reader.rest();
    let serial_num = reader.read_u32()?;
    let ghost r1 = *reader;
    let object_id = reader.read_u64()?;
    let ghost r2 = *reader;
    let strace_num = reader.read_u32()?;
    let ghost r3 = *reader;
    let strname_id = reader.read_u64()?;
    proof {
        assert(r1.rest() =~= from(s, 4));
        assert(r2.rest() =~= from(s, 12));
        assert(r3.rest() =~= from(s, 16));
    }
    Ok(LoadClassRecord { serial_num, object_id, strace_num, strname_id })
}

/// Reads an unload-class body: one serial number.
pub fn parse_unload_class_record(reader: &mut ByteReader) -> (r: Result<
    UnloadClassRecord,
    HprofError,
>)
    requires
        old(reader).wf(),
    ensures
        final(reader).wf(),
        match r {
            Ok(rec) => old(reader).rest().len() >= 4 && rec.serial_num == be_u32(
                old(reader).rest(),
            ) && old(reader).advanced(final(reader), 4),
            Err(e) => old(reader).rest().len() < 4 && e == HprofError::TruncatedInput
                && *final(reader) == *old(reader),
        },
{
    let serial_num = reader.read_u32()?;
    Ok(UnloadClassRecord { serial_num })
}

/// Reads a stack-frame body: four identifiers, a class serial and a line number.
pub fn parse_stack_frame_record(reader: &mut ByteReader) -> (r: Result<
    StackFrameRecord,
    HprofError,
>)
    requires
        old(reader).wf(),
    ensures
        final(reader).wf(),
        match r {
            Ok(rec) => old(reader).rest().len() >= 40 && rec == stack_frame_of(old(reader).rest())
                && old(reader).advanced(final(reader), 40),
            Err(e) => old(reader).rest().len() < 40 && e == HprofError::TruncatedInput
                && *final(reader) == *old(reader),
        },
{
    if reader.remaining() < 40 {
        return Err(HprofError::TruncatedInput);
    }
    let ghost s = reader.rest();
    let frame_id = reader.read_u64()?;
    let ghost r1 = *reader;
    let method_name_id = reader.read_u64()?;
    let ghost r2 = *reader;
    let method_sign_id = reader.read_u64()?;
    let ghost r3 = *reader;
    let source_name_id = reader.read_u64()?;
    let ghost r4 = *reader;
    let class_serial_num = reader.read_u32()?;
    let ghost r5 = *reader;
    let line_num = reader.read_i32()?;
    proof {
        assert(r1.rest() =~= from(s, 8));
        assert(r2.rest() =~= from(s, 16));
        assert(r3.rest() =~= from(s, 24));
        assert(r4.rest() =~= from(s, 32));
        assert(r5.rest() =~= from(s, 36));
    }
    Ok(
        StackFrameRecord {
            frame_id,
            method_name_id,
            method_sign_id,
            source_name_id,
            class_serial_num,
            line_num,
        },
    )
}

/// Reads a stack-trace body: serial, thread serial, frame count, then that
/// many frame identifiers.
pub fn parse_stack_trace_record(reader: &mut ByteReader) -> (r: Result<
    StackTraceRecord,
    HprofError,
>)
    requires
        old(reader).wf(),
    ensures
        final(reader).wf(),
        match r {
            Ok(rec) => {
                let s = old(reader).rest();
                &&& s.len() >= 12
                &&& s.len() >= stack_trace_len(be_u32(from(s, 8)) as nat)
                &&& rec.serial_num == be_u32(s)
                &&& rec.thread_serial_num == be_u32(from(s, 4))
                &&& rec.nframes == be_u32(from(s, 8))
                &&& rec.frame_ids@ == frame_ids_of(s, rec.nframes as nat)
                &&& old(reader).advanced(final(reader), stack_trace_len(rec.nframes as nat))
            },
            Err(e) => {
                let s = old(reader).rest();
                &&& s.len() < 12 || s.len() < stack_trace_len(be_u32(from(s, 8)) as nat)
                &&& e == HprofError::TruncatedInput
                &&& *final(reader) == *old(reader)
            },
        },
{
    let declared = reader.peek_u32(8)?;
    if (reader.remaining() - 12) / 8 < declared as usize {
        return Err(HprofError::TruncatedInput);
    }
    let ghost r0 = *reader;
    let ghost s = reader.rest();
    let serial_num = reader.read_u32()?;
    let ghost r1 = *reader;
    let thread_serial_num = reader.read_u32()?;
    let ghost r2 = *reader;
    let nframes = reader.read_u32()?;
    proof {
        assert(r1.rest() =~= from(s, 4));
        assert(r2.rest() =~= from(s, 8));
    }
    let ghost start = *reader;
    let mut frame_ids: Vec<u64> = Vec::new();
    let mut n: u32 = 0;
    while n < nframes
        invariant
            start.wf(),
            r0.wf(),
            s == r0.rest(),
            r0.advanced(&start, 12),
            start.rest().len() >= 8 * nframes,
            n <= nframes,
            start.advanced(&*reader, 8 * n as nat),
            frame_ids@ == frame_ids_of(s, n as nat),
        decreases nframes - n,
    {
        proof {
            assert(reader.rest() =~= from(s, 12 + 8 * n));
        }
        let id = reader.read_u64()?;
        frame_ids.push(id);
        n = n + 1;
        proof {
            assert(frame_ids@ =~= frame_ids_of(s, n as nat));
        }
    }
    Ok(StackTraceRecord { serial_num, thread_serial_num, nframes, frame_ids })
}

} // verus!
