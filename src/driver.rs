use vstd::prelude::*;
use vstd::string::StringExecFns;

use crate::bytes::{be_u32, be_u64, ByteReader};
use crate::error::HprofError;
use crate::records::{
    from, frame_ids_of, header_fits, load_class_of, parse_header, parse_load_class_record,
    parse_stack_frame_record, parse_stack_trace_record, parse_unload_class_record,
    parse_utf8_string_record, stack_frame_of, stack_trace_len, Header, Record,
};
use crate::resolve::{all_resolvable, resolve_stack_trace, texts, trace_lines};
use crate::tables::{SymbolTables, TablesView};
use crate::tag::{spec_is_counted, spec_tag_name, tag_of, RecordTag};
use crate::text::{decimal, u64_text, utf8_text};

verus! {

/// What one record does: the envelope read, how many bytes it took, the
/// tables after it, and the lines it prints.
pub struct Step {
    pub record: Record,
    pub consumed: nat,
    pub tables: TablesView,
    pub lines: Seq<Seq<char>>,
}

/// The line printed for a record kind whose body is not decoded.
pub open spec fn other_line(tag: RecordTag, bytes: u32) -> Seq<char> {
    "tag: "@ + spec_tag_name(tag) + " of size "@ + decimal(bytes as int) + " bytes"@
}

/// Decoding one record from the start of `s` with tables `t`.
#[verifier::opaque]
pub open spec fn record_step(s: Seq<u8>, t: TablesView) -> Result<Step, HprofError> {
    if s.len() < 1 {
        Err(HprofError::TruncatedInput)
    } else if tag_of(s[0]) is None {
        Err(HprofError::UnknownTag(s[0]))
    } else if s.len() < 9 {
        Err(HprofError::TruncatedInput)
    } else {
        let tag = tag_of(s[0])->Some_0;
        let record = Record { tag, time: be_u32(from(s, 1)), bytes: be_u32(from(s, 5)) };
        let body = from(s, 9);
        let bytes = record.bytes;
        match tag {
            RecordTag::Utf8String => if bytes < 8 {
                Err(HprofError::MalformedRecord)
            } else if body.len() < bytes {
                Err(HprofError::TruncatedInput)
            } else {
                Ok(Step {
                    record,
                    consumed: 9 + bytes as nat,
                    tables: TablesView {
                        strings: t.strings.insert(be_u64(body), utf8_text(body.subrange(8, bytes as int))),
                        ..t
                    },
                    lines: seq![],
                })
            },
            RecordTag::LoadClass => if body.len() < 24 {
                Err(HprofError::TruncatedInput)
            } else {
                let c = load_class_of(body);
                Ok(Step {
                    record,
                    consumed: 33,
                    tables: TablesView { classes: t.classes.insert(c.serial_num, c), ..t },
                    lines: seq![],
                })
            },
            RecordTag::UnloadClass => if body.len() < 4 {
                Err(HprofError::TruncatedInput)
            } else {
                Ok(Step { record, consumed: 13, tables: t, lines: seq![] })
            },
            RecordTag::StackFrame => if body.len() < 40 {
                Err(HprofError::TruncatedInput)
            } else {
                let f = stack_frame_of(body);
                Ok(Step {
                    record,
                    consumed: 49,
                    tables: TablesView { frames: t.frames.insert(f.frame_id, f), ..t },
                    lines: seq![],
                })
            },
            RecordTag::StackTrace => if body.len() < 12 || body.len() < stack_trace_len(
                be_u32(from(body, 8)) as nat,
            ) {
                Err(HprofError::TruncatedInput)
            } else {
                let n = be_u32(from(body, 8)) as nat;
                let ids = frame_ids_of(body, n);
                if !all_resolvable(t, ids) {
                    Err(HprofError::DanglingReference)
                } else {
                    Ok(Step {
                        record,
                        consumed: 9 + stack_trace_len(n),
                        tables: t,
                        lines: trace_lines(t, be_u32(from(body, 4)), ids),
                    })
                }
            },
            _ => Ok(Step { record, consumed: 9, tables: t, lines: seq![other_line(tag, bytes)] }),
        }
    }
}

/// Running totals of the five decoded record kinds.
#[derive(Debug, Clone, Copy, PartialEq, Eq, Structural)]
pub struct RecordCounts {
    pub strings: u64,
    pub loads: u64,
    pub unloads: u64,
    pub frames: u64,
    pub traces: u64,
}

impl RecordCounts {
    pub open spec fn total(&self) -> int {
        self.strings + self.loads + self.unloads + self.frames + self.traces
    }

    pub open spec fn zero() -> RecordCounts {
        RecordCounts { strings: 0, loads: 0, unloads: 0, frames: 0, traces: 0 }
    }
}

/// `c` with the total for `tag` one higher.
pub open spec fn bumped(c: RecordCounts, tag: RecordTag) -> RecordCounts {
    match tag {
        RecordTag::Utf8String => RecordCounts { strings: (c.strings + 1) as u64, ..c },
        RecordTag::LoadClass => RecordCounts { loads: (c.loads + 1) as u64, ..c },
        RecordTag::UnloadClass => RecordCounts { unloads: (c.unloads + 1) as u64, ..c },
        RecordTag::StackFrame => RecordCounts { frames: (c.frames + 1) as u64, ..c },
        RecordTag::StackTrace => RecordCounts { traces: (c.traces + 1) as u64, ..c },
        _ => c,
    }
}

/// `lines` printed before whatever `r` printed.
pub open spec fn after(lines: Seq<Seq<char>>, r: Result<(RecordCounts, Seq<Seq<char>>), HprofError>)
    -> Result<(RecordCounts, Seq<Seq<char>>), HprofError> {
    match r {
        Ok((c, l)) => Ok((c, lines + l)),
        Err(e) => Err(e),
    }
}

/// Decoding records from `s` until the input ends at a record boundary or a
/// record's kind is not counted: the final totals and every line printed,
/// or the first error.
pub open spec fn run(s: Seq<u8>, t: TablesView, c: RecordCounts) -> Result<
    (RecordCounts, Seq<Seq<char>>),
    HprofError,
>
    decreases s.len()
    via run_decreases
{
    if s.len() == 0 {
        Ok((c, seq![]))
    } else {
        match record_step(s, t) {
            Err(e) => Err(e),
            Ok(step) => if !spec_is_counted(step.record.tag) {
                Ok((c, step.lines))
            } else {
                after(
                    step.lines,
                    run(from(s, step.consumed as int), step.tables, bumped(c, step.record.tag)),
                )
            },
        }
    }
}

#[via_fn]
proof fn run_decreases(s: Seq<u8>, t: TablesView, c: RecordCounts) {
    lemma_step_bounds(s, t);
}

/// A decoded record takes at least its envelope and no more than what is there.
pub proof fn lemma_step_bounds(s: Seq<u8>, t: TablesView)
    ensures
        record_step(s, t) is Ok ==> 9 <= record_step(s, t)->Ok_0.consumed <= s.len(),
{
    reveal(record_step);
}

/// Reads one envelope (tag, time, payload length) and its body. String,
/// class and frame records go into their tables; a stack trace is rendered
/// into `out`; any other kind gets a one-line note in `out` and its payload
/// is left unread.
pub fn parse_record(reader: &mut ByteReader, tables: &mut SymbolTables, out: &mut Vec<String>) -> (r:
    Result<Record, HprofError>)
    requires
        old(reader).wf(),
    ensures
        final(reader).wf(),
        match (r, record_step(old(reader).rest(), old(tables)@)) {
            (Ok(rec), Ok(step)) => {
                &&& rec == step.record
                &&& old(reader).advanced(final(reader), step.consumed)
                &&& final(tables)@ == step.tables
                &&& texts(final(out)@) == texts(old(out)@) + step.lines
            },
            (Err(e), Err(e2)) => {
                &&& e == e2
                &&& final(tables)@ == old(tables)@
                &&& final(out)@ == old(out)@
            },
            _ => false,
        },
{
    let ghost s = reader.rest();
    proof {
        reveal(record_step);
    }
    let b = reader.read_u8()?;
    let tag = match RecordTag::from_byte(b) {
        Some(t) => t,
        None => return Err(HprofError::UnknownTag(b)),
    };
    if reader.remaining() < 8 {
        return Err(HprofError::TruncatedInput);
    }
    let ghost r1 = *reader;
    let time = reader.read_u32()?;
    let ghost r2 = *reader;
    let bytes = reader.read_u32()?;
    let ghost body = reader.rest();
    proof {
        assert(r1.rest() =~= from(s, 1));
        assert(r2.rest() =~= from(s, 5));
        assert(body =~= from(s, 9));
    }
    let rec = Record { tag, time, bytes };
    match tag {
        RecordTag::Utf8String => {
            let r = parse_utf8_string_record(reader, bytes)?;
            tables.insert_string(r.identifier, r.value);
        },
        RecordTag::LoadClass => {
            let r = parse_load_class_record(reader)?;
            tables.insert_class(r);
        },
        RecordTag::UnloadClass => {
            let _r = parse_unload_class_record(reader)?;
        },
        RecordTag::StackFrame => {
            let r = parse_stack_frame_record(reader)?;
            tables.insert_frame(r);
        },
        RecordTag::StackTrace => {
            let r = parse_stack_trace_record(reader)?;
            let mut lines = resolve_stack_trace(&r, tables)?;
            let ghost before = out@;
            let ghost added = lines@;
            out.append(&mut lines);
            assert(texts(out@) =~= texts(before) + texts(added));
        },
        _ => {
            let line = String::from_str("tag: ").concat(tag.name()).concat(" of size ").concat(
                u64_text(bytes as u64).as_str(),
            ).concat(" bytes");
            let ghost before = out@;
            out.push(line);
            assert(texts(out@) =~= texts(before).push(line@));
        },
    }
    Ok(rec)
}

/// Decoding a whole stream: the preamble, then records up to the first kind
/// that is not counted.
pub open spec fn decode_stream(s: Seq<u8>) -> Result<(RecordCounts, Seq<Seq<char>>), HprofError> {
    if s.len() < 31 {
        Err(HprofError::TruncatedInput)
    } else {
        run(from(s, 31), TablesView::empty(), RecordCounts::zero())
    }
}

/// The outcome of decoding a stream that ended cleanly.
pub struct Report {
    pub header: Header,
    /// Every line printed, in order.
    pub lines: Vec<String>,
    pub counts: RecordCounts,
}

/// Decodes a whole stream: the preamble, then records until the input ends
/// at a record boundary or a record's kind is not counted. The first error
/// aborts the whole decode.
pub fn parse_hprof(bytes: Vec<u8>) -> (r: Result<Report, HprofError>)
    ensures
        match r {
            Ok(rep) => decode_stream(bytes@) == Ok::<_, HprofError>((rep.counts, texts(rep.lines@)))
                && header_fits(rep.header, bytes@),
            Err(e) => decode_stream(bytes@) == Err::<(RecordCounts, Seq<Seq<char>>), _>(e),
        },
{
    let ghost s = bytes@;
    let total: usize = bytes.len();
    let mut reader = ByteReader::new(bytes);
    let ghost r_init = reader;
    let header = parse_header(&mut reader)?;
    proof {
        assert(r_init.rest() =~= s);
        assert(reader.rest() =~= from(s, 31));
    }
    let mut tables = SymbolTables::new();
    let mut out: Vec<String> = Vec::new();
    let mut counts = RecordCounts { strings: 0, loads: 0, unloads: 0, frames: 0, traces: 0 };
    loop
        invariant
            reader.wf(),
            reader.data() == s,
            s == bytes@,
            31 <= s.len() == total,
            header_fits(header, s),
            counts.total() <= reader.position(),
            decode_stream(s) == after(texts(out@), run(reader.rest(), tables@, counts)),
        decreases reader.rest().len(),
    {
        let ghost r0 = reader;
        let ghost t0 = tables@;
        let ghost o0 = texts(out@);
        if reader.remaining() == 0 {
            proof {
                lemma_run_stops(r0.rest(), t0, counts);
                assert(o0 + Seq::<Seq<char>>::empty() =~= o0);
            }
            return Ok(Report { header, lines: out, counts });
        }
        let rec = match parse_record(&mut reader, &mut tables, &mut out) {
            Ok(rec) => rec,
            Err(e) => {
                proof {
                    lemma_run_stops(r0.rest(), t0, counts);
                }
                return Err(e);
            },
        };
        let ghost step = record_step(r0.rest(), t0)->Ok_0;
        if !rec.tag.is_counted() {
            proof {
                lemma_run_stops(r0.rest(), t0, counts);
            }
            return Ok(Report { header, lines: out, counts });
        }
        proof {
            lemma_run_counted_step(r0.rest(), t0, counts);
        }
        match rec.tag {
            RecordTag::Utf8String => counts.strings = counts.strings + 1,
            RecordTag::LoadClass => counts.loads = counts.loads + 1,
            RecordTag::UnloadClass => counts.unloads = counts.unloads + 1,
            RecordTag::StackFrame => counts.frames = counts.frames + 1,
            _ => counts.traces = counts.traces + 1,
        }
        proof {
            assert(reader.rest() =~= from(r0.rest(), step.consumed as int));
            lemma_after_after(o0, step.lines, run(reader.rest(), tables@, counts));
        }
    }
}

/// A record of a counted kind takes at least its envelope and no more than
/// what is there, and the rest of the run goes on after it.
proof fn lemma_run_counted_step(s: Seq<u8>, t: TablesView, c: RecordCounts)
    requires
        s.len() > 0,
        record_step(s, t) is Ok,
        spec_is_counted(record_step(s, t)->Ok_0.record.tag),
    ensures
        ({
            let step = record_step(s, t)->Ok_0;
            &&& 9 <= step.consumed <= s.len()
            &&& run(s, t, c) == after(
                step.lines,
                run(from(s, step.consumed as int), step.tables, bumped(c, step.record.tag)),
            )
        }),
{
    lemma_step_bounds(s, t);
}

/// A run ends at the end of input, at a record that fails, or at one that
/// is not counted.
proof fn lemma_run_stops(s: Seq<u8>, t: TablesView, c: RecordCounts)
    ensures
        s.len() == 0 ==> run(s, t, c) == Ok::<_, HprofError>((c, Seq::<Seq<char>>::empty())),
        s.len() > 0 && 
        record_step(s, t) is Err ==> run(s, t, c) == Err::<(RecordCounts, Seq<Seq<char>>), _>(
            record_step(s, t)->Err_0,
        ),
        s.len() > 0 && record_step(s, t) is Ok && !spec_is_counted(record_step(s, t)->Ok_0.record.tag) ==> run(
            s,
            t,
            c,
        ) == Ok::<_, HprofError>((c, record_step(s, t)->Ok_0.lines)),
{
}

proof fn lemma_after_after(
    a: Seq<Seq<char>>,
    b: Seq<Seq<char>>,
    r: Result<(RecordCounts, Seq<Seq<char>>), HprofError>,
)
    ensures
        after(a, after(b, r)) == after(a + b, r),
{
    match r {
        Ok((c, l)) => {
            assert(a + (b + l) =~= (a + b) + l);
        },
        Err(_) => {},
    }
}

/// The closing tally line.
pub fn summary_line(c: &RecordCounts) -> (r: String)
    ensures
        r@ == "entries: "@ + decimal(c.strings as int) + " string "@ + decimal(c.loads as int)
            + " load "@ + decimal(c.unloads as int) + " unload "@ + decimal(c.frames as int)
            + " frame "@ + decimal(c.traces as int) + " trace"@,
{
    String::from_str("entries: ").concat(u64_text(c.strings).as_str()).concat(" string ").concat(
        u64_text(c.loads).as_str(),
    ).concat(" load ").concat(u64_text(c.unloads).as_str()).concat(" unload ").concat(
        u64_text(c.frames).as_str(),
    ).concat(" frame ").concat(u64_text(c.traces).as_str()).concat(" trace")
}

} // verus!
