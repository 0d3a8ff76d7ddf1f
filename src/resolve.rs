use vstd::prelude::*;
use vstd::std_specs::hash::group_hash_axioms;
use vstd::string::StringExecFns;

use crate::error::HprofError;
use crate::records::{StackFrameRecord, StackTraceRecord};
use crate::tables::{SymbolTables, TablesView};
use crate::text::{decimal, dotted, i32_text, slashes_to_dots, u64_text};

verus! {

broadcast use group_hash_axioms;

/// The text of each line.
pub open spec fn texts(v: Seq<String>) -> Seq<Seq<char>> {
    v.map_values(|s: String| s@)
}

/// The raw field dump shown for a frame that has no clean rendering.
pub open spec fn frame_dump(f: StackFrameRecord) -> Seq<char> {
    "StackFrameRecord { frame_id: "@ + decimal(f.frame_id as int) + ", method_name_id: "@
        + decimal(f.method_name_id as int) + ", method_sign_id: "@ + decimal(
        f.method_sign_id as int,
    ) + ", source_name_id: "@ + decimal(f.source_name_id as int) + ", class_serial_num: "@
        + decimal(f.class_serial_num as int) + ", line_num: "@ + decimal(f.line_num as int)
        + " }"@
}

/// `\t<class>.<method>()`
pub open spec fn frame_head(class_name: Seq<char>, method: Seq<char>) -> Seq<char> {
    "\t"@ + class_name + "."@ + method + "()"@
}

/// The lines that render frame `f`, given its resolved class name (dotted),
/// method name and source file name, by the first rule that applies.
pub open spec fn frame_lines(
    f: StackFrameRecord,
    class_name: Seq<char>,
    method: Seq<char>,
    source: Seq<char>,
) -> Seq<Seq<char>> {
    let head = frame_head(class_name, method);
    if f.source_name_id != 0 {
        seq![head + " ["@ + source + ":"@ + decimal(f.line_num as int) + "]"@]
    } else if f.line_num == -1 {
        seq![head + " [Unknown]"@]
    } else if f.line_num == -2 {
        seq![head + " [Compiled]"@]
    } else if f.line_num == -3 {
        seq![head + " [Native]"@]
    } else {
        seq![frame_dump(f)]
    }
}

/// Every lookup that rendering frame `id` makes finds an entry.
pub open spec fn frame_resolvable(t: TablesView, id: u64) -> bool {
    &&& t.frames.contains_key(id)
    &&& t.classes.contains_key(t.frames[id].class_serial_num)
    &&& t.strings.contains_key(t.classes[t.frames[id].class_serial_num].strname_id)
    &&& t.strings.contains_key(t.frames[id].method_name_id)
    &&& t.frames[id].source_name_id != 0 ==> t.strings.contains_key(t.frames[id].source_name_id)
}

/// The lines for frame `id`, resolved against `t`.
pub open spec fn rendered_frame(t: TablesView, id: u64) -> Seq<Seq<char>> {
    let f = t.frames[id];
    frame_lines(
        f,
        dotted(t.strings[t.classes[f.class_serial_num].strname_id]),
        t.strings[f.method_name_id],
        t.strings[f.source_name_id],
    )
}

pub open spec fn all_resolvable(t: TablesView, ids: Seq<u64>) -> bool {
    forall|i: int| 0 <= i < ids.len() ==> frame_resolvable(t, #[trigger] ids[i])
}

/// The lines of all frames in `ids`, in order.
pub open spec fn rendered_frames(t: TablesView, ids: Seq<u64>) -> Seq<Seq<char>>
    decreases ids.len(),
{
    if ids.len() == 0 {
        seq![]
    } else {
        rendered_frames(t, ids.drop_last()) + rendered_frame(t, ids.last())
    }
}

/// The block printed for a stack trace: a thread line, one rendering per
/// frame, and a blank line.
pub open spec fn trace_lines(t: TablesView, thread: u32, ids: Seq<u64>) -> Seq<Seq<char>> {
    seq!["Thread "@ + decimal(thread as int) + ":"@] + rendered_frames(t, ids) + seq![
        Seq::<char>::empty(),
    ]
}

/// Builds the raw field dump of a frame.
pub fn dump_frame(f: &StackFrameRecord) -> (r: String)
    ensures
        r@ == frame_dump(*f),
{
    let s = String::from_str("StackFrameRecord { frame_id: ");
    let s = s.concat(u64_text(f.frame_id).as_str());
    let s = s.concat(", method_name_id: ");
    let s = s.concat(u64_text(f.method_name_id).as_str());
    let s = s.concat(", method_sign_id: ");
    let s = s.concat(u64_text(f.method_sign_id).as_str());
    let s = s.concat(", source_name_id: ");
    let s = s.concat(u64_text(f.source_name_id).as_str());
    let s = s.concat(", class_serial_num: ");
    let s = s.concat(u64_text(f.class_serial_num as u64).as_str());
    let s = s.concat(", line_num: ");
    let s = s.concat(i32_text(f.line_num).as_str());
    s.concat(" }")
}

/// Renders frame `f` by the first rule that applies: a source position when
/// it names a source file, else the unknown, compiled and native sentinels,
/// else the raw field dump.
pub fn render_frame(f: &StackFrameRecord, class_name: &str, method: &str, source: &str) -> (r:
    Vec<String>)
    ensures
        texts(r@) == frame_lines(*f, class_name@, method@, source@),
{
    let head = String::from_str("\t").concat(class_name).concat(".").concat(method).concat("()");
    let mut out: Vec<String> = Vec::new();
    if f.source_name_id != 0 {
        let line = head.concat(" [").concat(source).concat(":").concat(
            i32_text(f.line_num).as_str(),
        ).concat("]");
        out.push(line);
    } else if f.line_num == -1 {
        out.push(head.concat(" [Unknown]"));
    } else if f.line_num == -2 {
        out.push(head.concat(" [Compiled]"));
    } else if f.line_num == -3 {
        out.push(head.concat(" [Native]"));
    } else {
        out.push(dump_frame(f));
    }
    assert(texts(out@) =~= frame_lines(*f, class_name@, method@, source@));
    out
}

/// Looks up frame `id`, its class, the class name and the method name (and
/// the source file name when there is one), and appends the frame's lines
/// to `out`; fails with `DanglingReference` on any miss.
pub fn resolve_frame(tables: &SymbolTables, id: u64, out: &mut Vec<String>) -> (r: Result<
    (),
    HprofError,
>)
    ensures
        r is Ok <==> frame_resolvable(tables@, id),
        r is Ok ==> texts(final(out)@) == texts(old(out)@) + rendered_frame(tables@, id),
        r is Err ==> r == Err::<(), HprofError>(HprofError::DanglingReference)
            && final(out)@ == old(out)@,
{
    let frame = match tables.frames.get(&id) {
        Some(f) => f,
        None => return Err(HprofError::DanglingReference),
    };
    let class = match tables.classes.get(&frame.class_serial_num) {
        Some(c) => c,
        None => return Err(HprofError::DanglingReference),
    };
    let raw_class_name = match tables.strings.get(&class.strname_id) {
        Some(s) => s,
        None => return Err(HprofError::DanglingReference),
    };
    let method = match tables.strings.get(&frame.method_name_id) {
        Some(s) => s,
        None => return Err(HprofError::DanglingReference),
    };
    let class_name = slashes_to_dots(raw_class_name.as_str());
    let mut lines = if frame.source_name_id != 0 {
        let source = match tables.strings.get(&frame.source_name_id) {
            Some(s) => s,
            None => return Err(HprofError::DanglingReference),
        };
        render_frame(frame, class_name.as_str(), method.as_str(), source.as_str())
    } else {
        let lines = render_frame(frame, class_name.as_str(), method.as_str(), "");
        proof {
            let t = tables@;
            let f = t.frames[id];
            let c = dotted(t.strings[t.classes[f.class_serial_num].strname_id]);
            lemma_sentinels_ignore_source(f, c, t.strings[f.method_name_id], ""@, t.strings[f.source_name_id]);
        }
        lines
    };
    let ghost before = out@;
    let ghost added = lines@;
    out.append(&mut lines);
    assert(texts(out@) =~= texts(before) + texts(added));
    Ok(())
}

/// Renders a stack-trace record against the tables: a `Thread` line, the
/// lines of each frame in order, and a blank line. Fails with
/// `DanglingReference` if any lookup misses; no frame is skipped.
pub fn resolve_stack_trace(rec: &StackTraceRecord, tables: &SymbolTables) -> (r: Result<
    Vec<String>,
    HprofError,
>)
    ensures
        r is Ok <==> all_resolvable(tables@, rec.frame_ids@),
        match r {
            Ok(lines) => texts(lines@) == trace_lines(tables@, rec.thread_serial_num, rec.frame_ids@),
            Err(e) => e == HprofError::DanglingReference,
        },
{
    let mut out: Vec<String> = Vec::new();
    out.push(String::from_str("Thread ").concat(u64_text(rec.thread_serial_num as u64).as_str()).concat(":"));
    let ghost first = texts(out@);
    let mut i: usize = 0;
    while i < rec.frame_ids.len()
        invariant
            i <= rec.frame_ids@.len(),
            all_resolvable(tables@, rec.frame_ids@.subrange(0, i as int)),
            texts(out@) == first + rendered_frames(tables@, rec.frame_ids@.subrange(0, i as int)),
        decreases rec.frame_ids@.len() - i,
    {
        let id = rec.frame_ids[i];
        let res = resolve_frame(tables, id, &mut out);
        if res.is_err() {
            return Err(HprofError::DanglingReference);
        }
        proof {
            let ids = rec.frame_ids@.subrange(0, i + 1);
            assert(ids.drop_last() =~= rec.frame_ids@.subrange(0, i as int));
            assert(ids.last() == id);
            assert forall|j: int| 0 <= j < ids.len() implies frame_resolvable(tables@, #[trigger] ids[j]) by {
                if j < i {
                    assert(ids[j] == rec.frame_ids@.subrange(0, i as int)[j]);
                }
            }
        }
        i = i + 1;
    }
    proof {
        assert(rec.frame_ids@.subrange(0, i as int) =~= rec.frame_ids@);
    }
    let ghost mid = out@;
    out.push(String::new());
    proof {
        assert(first =~= seq!["Thread "@ + decimal(rec.thread_serial_num as int) + ":"@]);
        assert(texts(out@) =~= texts(mid).push(Seq::<char>::empty()));
        assert(texts(out@) =~= trace_lines(tables@, rec.thread_serial_num, rec.frame_ids@));
    }
    Ok(out)
}

/// A frame that names no source file renders the same whatever its source
/// name would resolve to: the sentinels never read it.
pub proof fn lemma_sentinels_ignore_source(
    f: StackFrameRecord,
    class_name: Seq<char>,
    method: Seq<char>,
    s1: Seq<char>,
    s2: Seq<char>,
)
    requires
        f.source_name_id == 0,
    ensures
        frame_lines(f, class_name, method, s1) == frame_lines(f, class_name, method, s2),
{
}

} // verus!
