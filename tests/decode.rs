use hprof::bytes::ByteReader;
use hprof::driver::{parse_hprof, parse_record, summary_line, RecordCounts, Report};
use hprof::error::HprofError;
use hprof::records::{
    parse_header, parse_load_class_record, parse_stack_frame_record, parse_stack_trace_record,
    parse_unload_class_record, parse_utf8_string_record, StackFrameRecord, StackTraceRecord,
};
use hprof::resolve::{dump_frame, render_frame, resolve_stack_trace};
use hprof::tables::SymbolTables;
use hprof::tag::RecordTag;

fn header_bytes() -> Vec<u8> {
    let mut v = b"JAVA PROFILE 1.0.1\0".to_vec();
    v.extend_from_slice(&8u32.to_be_bytes());
    v.extend_from_slice(&0u32.to_be_bytes());
    v.extend_from_slice(&0u32.to_be_bytes());
    v
}

fn envelope(v: &mut Vec<u8>, tag: u8, bytes: u32) {
    v.push(tag);
    v.extend_from_slice(&0u32.to_be_bytes());
    v.extend_from_slice(&bytes.to_be_bytes());
}

fn string_record(v: &mut Vec<u8>, id: u64, text: &[u8]) {
    envelope(v, 0x01, 8 + text.len() as u32);
    v.extend_from_slice(&id.to_be_bytes());
    v.extend_from_slice(text);
}

fn load_class_record(v: &mut Vec<u8>, serial: u32, strname_id: u64) {
    envelope(v, 0x02, 24);
    v.extend_from_slice(&serial.to_be_bytes());
    v.extend_from_slice(&0x77u64.to_be_bytes());
    v.extend_from_slice(&0u32.to_be_bytes());
    v.extend_from_slice(&strname_id.to_be_bytes());
}

fn stack_frame_record(v: &mut Vec<u8>, frame_id: u64, method: u64, source: u64, class: u32, line: i32) {
    envelope(v, 0x04, 40);
    v.extend_from_slice(&frame_id.to_be_bytes());
    v.extend_from_slice(&method.to_be_bytes());
    v.extend_from_slice(&0u64.to_be_bytes());
    v.extend_from_slice(&source.to_be_bytes());
    v.extend_from_slice(&class.to_be_bytes());
    v.extend_from_slice(&line.to_be_bytes());
}

fn stack_trace_record(v: &mut Vec<u8>, serial: u32, thread: u32, ids: &[u64]) {
    envelope(v, 0x05, 12 + 8 * ids.len() as u32);
    v.extend_from_slice(&serial.to_be_bytes());
    v.extend_from_slice(&thread.to_be_bytes());
    v.extend_from_slice(&(ids.len() as u32).to_be_bytes());
    for id in ids {
        v.extend_from_slice(&id.to_be_bytes());
    }
}

fn report(r: Result<Report, HprofError>) -> Report {
    match r {
        Ok(rep) => rep,
        Err(e) => panic!("decode failed: {:?}", e),
    }
}

fn frame(source: u64, line: i32) -> StackFrameRecord {
    StackFrameRecord {
        frame_id: 3,
        method_name_id: 4,
        method_sign_id: 5,
        source_name_id: source,
        class_serial_num: 6,
        line_num: line,
    }
}

#[test]
fn scenario_single_trace() {
    let mut v = header_bytes();
    string_record(&mut v, 1, b"Main");
    load_class_record(&mut v, 1, 1);
    stack_frame_record(&mut v, 1, 1, 0, 1, -1);
    stack_trace_record(&mut v, 1, 1, &[1]);
    let rep = report(parse_hprof(v));
    assert_eq!(rep.lines, vec!["Thread 1:".to_string(), "\tMain.Main() [Unknown]".to_string(), String::new()]);
    assert_eq!(
        rep.counts,
        RecordCounts { strings: 1, loads: 1, unloads: 0, frames: 1, traces: 1 }
    );
    assert_eq!(summary_line(&rep.counts), "entries: 1 string 1 load 0 unload 1 frame 1 trace");
    assert_eq!(rep.header.format, "JAVA PROFILE 1.0.1\0");
    assert_eq!(rep.header.identifier_size, 8);
}

#[test]
fn scenario_heap_dump_stops_stream() {
    let mut v = header_bytes();
    envelope(&mut v, 0x0C, 5);
    v.extend_from_slice(&[0x01, 0x02, 0xFF, 0x00, 0x7F]);
    let rep = report(parse_hprof(v));
    assert_eq!(rep.lines, vec!["tag: HeapDump of size 5 bytes".to_string()]);
    assert_eq!(rep.counts, RecordCounts { strings: 0, loads: 0, unloads: 0, frames: 0, traces: 0 });
    assert_eq!(summary_line(&rep.counts), "entries: 0 string 0 load 0 unload 0 frame 0 trace");
}

#[test]
fn scenario_truncated_header() {
    let v = header_bytes()[..20].to_vec();
    assert!(matches!(parse_hprof(v), Err(HprofError::TruncatedInput)));
}

#[test]
fn header_of_thirty_bytes_is_truncated() {
    let v = header_bytes()[..30].to_vec();
    assert!(matches!(parse_hprof(v), Err(HprofError::TruncatedInput)));
}

#[test]
fn header_consumes_exactly_thirty_one_bytes() {
    let mut v = b"JAVA PROFILE 1.0.2\0".to_vec();
    v.extend_from_slice(&4u32.to_be_bytes());
    v.extend_from_slice(&0x0102_0304u32.to_be_bytes());
    v.extend_from_slice(&0xA0B0_C0D0u32.to_be_bytes());
    v.extend_from_slice(&[9, 9, 9]);
    let mut r = ByteReader::new(v);
    let h = parse_header(&mut r).unwrap();
    assert_eq!(h.format, "JAVA PROFILE 1.0.2\0");
    assert_eq!(h.identifier_size, 4);
    assert_eq!(h.high_word_ms, 0x0102_0304);
    assert_eq!(h.low_word_ms, 0xA0B0_C0D0);
    assert_eq!(r.remaining(), 3);
}

#[test]
fn header_only_stream_ends_cleanly() {
    let rep = report(parse_hprof(header_bytes()));
    assert!(rep.lines.is_empty());
    assert_eq!(rep.counts, RecordCounts { strings: 0, loads: 0, unloads: 0, frames: 0, traces: 0 });
}

#[test]
fn unknown_tag_aborts() {
    let mut v = header_bytes();
    string_record(&mut v, 1, b"a");
    envelope(&mut v, 0x99, 0);
    assert!(matches!(parse_hprof(v), Err(HprofError::UnknownTag(0x99))));
}

#[test]
fn short_string_payload_is_malformed() {
    let mut v = header_bytes();
    envelope(&mut v, 0x01, 4);
    v.extend_from_slice(&[0, 0, 0, 1, 0, 0, 0, 0]);
    assert!(matches!(parse_hprof(v), Err(HprofError::MalformedRecord)));
}

#[test]
fn record_cut_short_is_truncated() {
    let mut v = header_bytes();
    string_record(&mut v, 1, b"abc");
    envelope(&mut v, 0x02, 24);
    v.extend_from_slice(&[0, 0, 0, 1]);
    assert!(matches!(parse_hprof(v), Err(HprofError::TruncatedInput)));
}

#[test]
fn missing_frame_is_dangling() {
    let mut v = header_bytes();
    string_record(&mut v, 1, b"Main");
    load_class_record(&mut v, 1, 1);
    stack_frame_record(&mut v, 1, 1, 0, 1, -1);
    stack_trace_record(&mut v, 1, 1, &[1, 2]);
    assert!(matches!(parse_hprof(v), Err(HprofError::DanglingReference)));
}

#[test]
fn missing_class_is_dangling() {
    let mut v = header_bytes();
    string_record(&mut v, 1, b"Main");
    stack_frame_record(&mut v, 1, 1, 0, 7, -1);
    stack_trace_record(&mut v, 1, 1, &[1]);
    assert!(matches!(parse_hprof(v), Err(HprofError::DanglingReference)));
}

#[test]
fn missing_source_name_is_dangling() {
    let mut v = header_bytes();
    string_record(&mut v, 1, b"Main");
    load_class_record(&mut v, 1, 1);
    stack_frame_record(&mut v, 1, 1, 9, 1, 10);
    stack_trace_record(&mut v, 1, 1, &[1]);
    assert!(matches!(parse_hprof(v), Err(HprofError::DanglingReference)));
}

#[test]
fn resolver_rejects_absent_frame_id() {
    let tables = SymbolTables::new();
    let rec = StackTraceRecord { serial_num: 1, thread_serial_num: 2, nframes: 1, frame_ids: vec![42] };
    assert!(matches!(resolve_stack_trace(&rec, &tables), Err(HprofError::DanglingReference)));
}

#[test]
fn class_name_slashes_become_dots_and_source_line_shown() {
    let mut v = header_bytes();
    string_record(&mut v, 10, b"java/lang/Thread");
    string_record(&mut v, 11, b"run");
    string_record(&mut v, 12, b"Thread.java");
    load_class_record(&mut v, 3, 10);
    stack_frame_record(&mut v, 20, 11, 12, 3, 834);
    stack_trace_record(&mut v, 1, 7, &[20, 20]);
    envelope(&mut v, 0x2C, 0);
    let rep = report(parse_hprof(v));
    assert_eq!(
        rep.lines,
        vec![
            "Thread 7:".to_string(),
            "\tjava.lang.Thread.run() [Thread.java:834]".to_string(),
            "\tjava.lang.Thread.run() [Thread.java:834]".to_string(),
            String::new(),
            "tag: HeapDumpEnd of size 0 bytes".to_string(),
        ]
    );
    assert_eq!(rep.counts, RecordCounts { strings: 3, loads: 1, unloads: 0, frames: 1, traces: 1 });
}

#[test]
fn source_rule_precedes_unknown_sentinel() {
    let lines = render_frame(&frame(8, -1), "a.B", "m", "B.java");
    assert_eq!(lines, vec!["\ta.B.m() [B.java:-1]".to_string()]);
}

#[test]
fn source_rule_precedes_compiled_and_native() {
    assert_eq!(render_frame(&frame(8, -2), "C", "m", "C.java"), vec!["\tC.m() [C.java:-2]".to_string()]);
    assert_eq!(render_frame(&frame(8, -3), "C", "m", "C.java"), vec!["\tC.m() [C.java:-3]".to_string()]);
}

#[test]
fn compiled_frame_is_one_line() {
    assert_eq!(render_frame(&frame(0, -2), "C", "m", "ignored"), vec!["\tC.m() [Compiled]".to_string()]);
}

#[test]
fn native_frame_is_one_line() {
    assert_eq!(render_frame(&frame(0, -3), "C", "m", ""), vec!["\tC.m() [Native]".to_string()]);
}

#[test]
fn compiled_and_native_frames_in_stream() {
    let mut v = header_bytes();
    string_record(&mut v, 1, b"a/B");
    string_record(&mut v, 2, b"go");
    load_class_record(&mut v, 1, 1);
    stack_frame_record(&mut v, 5, 2, 0, 1, -2);
    stack_frame_record(&mut v, 6, 2, 0, 1, -3);
    stack_trace_record(&mut v, 1, 3, &[5, 6]);
    let rep = report(parse_hprof(v));
    assert_eq!(
        rep.lines,
        vec![
            "Thread 3:".to_string(),
            "\ta.B.go() [Compiled]".to_string(),
            "\ta.B.go() [Native]".to_string(),
            String::new(),
        ]
    );
}

#[test]
fn failed_record_leaves_tables_and_output_alone() {
    let mut v = Vec::new();
    string_record(&mut v, 1, b"Main");
    load_class_record(&mut v, 1, 1);
    stack_frame_record(&mut v, 1, 1, 0, 1, -1);
    stack_trace_record(&mut v, 1, 1, &[1, 99]);
    let mut r = ByteReader::new(v);
    let mut tables = SymbolTables::new();
    let mut out = vec!["earlier".to_string()];
    for _ in 0..3 {
        parse_record(&mut r, &mut tables, &mut out).unwrap();
    }
    assert!(matches!(parse_record(&mut r, &mut tables, &mut out), Err(HprofError::DanglingReference)));
    assert_eq!(out, vec!["earlier".to_string()]);
    assert_eq!(tables.strings.len(), 1);
    assert_eq!(tables.frames.len(), 1);
    assert_eq!(tables.classes.len(), 1);
}

#[test]
fn failed_decoders_leave_reader_alone() {
    let mut r = ByteReader::new(vec![0; 10]);
    assert!(matches!(parse_utf8_string_record(&mut r, 4), Err(HprofError::MalformedRecord)));
    assert_eq!(r.remaining(), 10);
    assert!(matches!(parse_utf8_string_record(&mut r, 20), Err(HprofError::TruncatedInput)));
    assert_eq!(r.remaining(), 10);
    assert!(matches!(parse_header(&mut r), Err(HprofError::TruncatedInput)));
    assert!(matches!(parse_load_class_record(&mut r), Err(HprofError::TruncatedInput)));
    assert!(matches!(parse_stack_frame_record(&mut r), Err(HprofError::TruncatedInput)));
    assert_eq!(r.remaining(), 10);
    let mut v = Vec::new();
    stack_trace_record(&mut v, 1, 1, &[1, 2]);
    let mut r = ByteReader::new(v[9..v.len() - 1].to_vec());
    assert!(matches!(parse_stack_trace_record(&mut r), Err(HprofError::TruncatedInput)));
    assert_eq!(r.remaining(), 12 + 15);
}

#[test]
fn unrecognized_sentinel_shows_dump_only() {
    let lines = render_frame(&frame(0, -7), "C", "m", "");
    assert_eq!(
        lines,
        vec!["StackFrameRecord { frame_id: 3, method_name_id: 4, method_sign_id: 5, source_name_id: 0, class_serial_num: 6, line_num: -7 }".to_string()]
    );
    assert_eq!(lines[0], dump_frame(&frame(0, -7)));
}

#[test]
fn unknown_frame_ignores_source_text() {
    assert_eq!(render_frame(&frame(0, -1), "C", "m", "x"), render_frame(&frame(0, -1), "C", "m", "y"));
    assert_eq!(render_frame(&frame(0, -1), "C", "m", "x"), vec!["\tC.m() [Unknown]".to_string()]);
}

#[test]
fn string_round_trip_valid_utf8() {
    let text = "h\u{e9}llo \u{4e16}\u{754c}";
    let mut v = Vec::new();
    string_record(&mut v, 0x0102_0304_0506_0708, text.as_bytes());
    let mut r = ByteReader::new(v);
    let mut tables = SymbolTables::new();
    let mut out = Vec::new();
    let rec = parse_record(&mut r, &mut tables, &mut out).unwrap();
    assert_eq!(rec.tag, RecordTag::Utf8String);
    assert_eq!(rec.bytes, 8 + text.len() as u32);
    assert_eq!(tables.strings.get(&0x0102_0304_0506_0708).unwrap(), text);
    assert!(out.is_empty());
    assert_eq!(r.remaining(), 0);
}

#[test]
fn invalid_utf8_is_replaced() {
    let mut v = Vec::new();
    v.extend_from_slice(&5u64.to_be_bytes());
    v.extend_from_slice(&[b'a', 0xFF, b'b']);
    let mut r = ByteReader::new(v);
    let rec = parse_utf8_string_record(&mut r, 11).unwrap();
    assert_eq!(rec.identifier, 5);
    assert_eq!(rec.value, "a\u{FFFD}b");
}

#[test]
fn later_string_definition_wins() {
    let mut v = header_bytes();
    string_record(&mut v, 1, b"Old");
    string_record(&mut v, 1, b"New");
    load_class_record(&mut v, 1, 1);
    stack_frame_record(&mut v, 1, 1, 0, 1, -1);
    stack_trace_record(&mut v, 1, 1, &[1]);
    let rep = report(parse_hprof(v));
    assert_eq!(rep.lines[1], "\tNew.New() [Unknown]");
}

#[test]
fn unload_class_is_counted_not_stored() {
    let mut v = header_bytes();
    envelope(&mut v, 0x03, 4);
    v.extend_from_slice(&9u32.to_be_bytes());
    let rep = report(parse_hprof(v));
    assert!(rep.lines.is_empty());
    assert_eq!(rep.counts, RecordCounts { strings: 0, loads: 0, unloads: 1, frames: 0, traces: 0 });
}

#[test]
fn body_decoders_read_fields_in_order() {
    let mut v = Vec::new();
    v.extend_from_slice(&7u32.to_be_bytes());
    v.extend_from_slice(&0x1122_3344_5566_7788u64.to_be_bytes());
    v.extend_from_slice(&9u32.to_be_bytes());
    v.extend_from_slice(&0xABu64.to_be_bytes());
    let mut r = ByteReader::new(v);
    let c = parse_load_class_record(&mut r).unwrap();
    assert_eq!((c.serial_num, c.object_id, c.strace_num, c.strname_id), (7, 0x1122_3344_5566_7788, 9, 0xAB));

    let mut r = ByteReader::new(0xDEAD_BEEFu32.to_be_bytes().to_vec());
    assert_eq!(parse_unload_class_record(&mut r).unwrap().serial_num, 0xDEAD_BEEF);

    let mut v = Vec::new();
    stack_frame_record(&mut v, 1, 2, 3, 4, i32::MIN);
    let mut r = ByteReader::new(v[9..].to_vec());
    let f = parse_stack_frame_record(&mut r).unwrap();
    assert_eq!(f, StackFrameRecord { frame_id: 1, method_name_id: 2, method_sign_id: 0, source_name_id: 3, class_serial_num: 4, line_num: i32::MIN });
}

#[test]
fn stack_trace_reads_declared_frame_count() {
    let mut v = Vec::new();
    stack_trace_record(&mut v, 4, 5, &[10, 20, 30]);
    let mut r = ByteReader::new(v[9..].to_vec());
    let t = parse_stack_trace_record(&mut r).unwrap();
    assert_eq!((t.serial_num, t.thread_serial_num, t.nframes), (4, 5, 3));
    assert_eq!(t.frame_ids, vec![10, 20, 30]);

    let mut short = v[9..].to_vec();
    short.truncate(12 + 16);
    let mut r = ByteReader::new(short);
    assert!(matches!(parse_stack_trace_record(&mut r), Err(HprofError::TruncatedInput)));
}

#[test]
fn primitive_reads_are_big_endian() {
    let mut r = ByteReader::new(vec![0xFF, 0xFF, 0xFF, 0xFE, 0x01, 0x02, 0x03, 0x04, 0, 0, 0, 0, 0, 0, 1, 0, 7]);
    assert_eq!(r.read_i32(), Ok(-2));
    assert_eq!(r.read_u32(), Ok(0x0102_0304));
    assert_eq!(r.read_u64(), Ok(256));
    assert_eq!(r.read_u32(), Err(HprofError::TruncatedInput));
    assert_eq!(r.read_u8(), Ok(7));
    assert_eq!(r.read_u8(), Err(HprofError::TruncatedInput));
    assert_eq!(r.read_bytes(1), Err(HprofError::TruncatedInput));
}

#[test]
fn tag_bytes_map_to_kinds() {
    assert_eq!(RecordTag::from_byte(0x01), Some(RecordTag::Utf8String));
    assert_eq!(RecordTag::from_byte(0x0C), Some(RecordTag::HeapDump));
    assert_eq!(RecordTag::from_byte(0x1C), Some(RecordTag::HeapDumpSegment));
    assert_eq!(RecordTag::from_byte(0x2C), Some(RecordTag::HeapDumpEnd));
    assert_eq!(RecordTag::from_byte(0x08), None);
    assert!(RecordTag::StackTrace.is_counted());
    assert!(!RecordTag::HeapDumpSegment.is_counted());
    assert_eq!(RecordTag::ControlSettings.name(), "ControlSettings");
}

#[test]
fn summary_line_counts() {
    let c = RecordCounts { strings: 12, loads: 3, unloads: 0, frames: 40, traces: 1000 };
    assert_eq!(summary_line(&c), "entries: 12 string 3 load 0 unload 40 frame 1000 trace");
}

#[test]
fn extreme_numbers_render_in_decimal() {
    let f = StackFrameRecord {
        frame_id: u64::MAX,
        method_name_id: 0,
        method_sign_id: 10,
        source_name_id: 0,
        class_serial_num: u32::MAX,
        line_num: i32::MIN,
    };
    assert_eq!(render_frame(&StackFrameRecord { source_name_id: 1, ..f }, "x/y", "m", "S.java")[0], "\tx/y.m() [S.java:-2147483648]");
    assert_eq!(
        dump_frame(&f),
        "StackFrameRecord { frame_id: 18446744073709551615, method_name_id: 0, method_sign_id: 10, source_name_id: 0, class_serial_num: 4294967295, line_num: -2147483648 }"
    );
    assert_eq!(dump_frame(&StackFrameRecord { line_num: i32::MAX, ..f }).ends_with("line_num: 2147483647 }"), true);
}
