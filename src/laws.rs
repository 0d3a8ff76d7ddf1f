use vstd::prelude::*;
use vstd::utf8::{decode_utf8, valid_utf8};

use crate::bytes::{be_u32, be_u64};
use crate::driver::{record_step, Step};
use crate::error::HprofError;
use crate::records::{frame_ids_of, from, StackFrameRecord};
use crate::resolve::{all_resolvable, frame_head, frame_lines, rendered_frame, rendered_frames, trace_lines};
use crate::tables::TablesView;
use crate::text::{decimal, dotted};

verus! {

/// A string record whose declared length covers its identifier and text,
/// and whose text is valid UTF-8, defines its identifier as exactly that
/// text: looking the identifier up right after the record gives the text back.
pub proof fn lemma_string_record_round_trip(s: Seq<u8>, t: TablesView)
    requires
        s.len() >= 9,
        s[0] == 1,
        be_u32(from(s, 5)) >= 8,
        s.len() >= 9 + be_u32(from(s, 5)),
        valid_utf8(from(s, 9).subrange(8, be_u32(from(s, 5)) as int)),
    ensures
        record_step(s, t) is Ok,
        record_step(s, t)->Ok_0.consumed == 9 + be_u32(from(s, 5)),
        record_step(s, t)->Ok_0.tables.strings[be_u64(from(s, 9))] == decode_utf8(
            from(s, 9).subrange(8, be_u32(from(s, 5)) as int),
        ),
{
    reveal(record_step);
}

/// A frame that names a source file renders as its source position, whatever
/// its line number, the unknown, compiled and native sentinels included.
pub proof fn lemma_source_rule_first(
    f: StackFrameRecord,
    class_name: Seq<char>,
    method: Seq<char>,
    source: Seq<char>,
)
    requires
        f.source_name_id != 0,
    ensures
        frame_lines(f, class_name, method, source) == seq![
            frame_head(class_name, method) + " ["@ + source + ":"@ + decimal(f.line_num as int)
                + "]"@,
        ],
{
}

/// A stack trace that lists a frame id with no entry in the frame table
/// cannot be resolved.
pub proof fn lemma_missing_frame_dangles(t: TablesView, ids: Seq<u64>, i: int)
    requires
        0 <= i < ids.len(),
        !t.frames.contains_key(ids[i]),
    ensures
        !all_resolvable(t, ids),
{
}

/// In a stream, a stack-trace record that lists a frame id with no entry in
/// the frame table stops the decode with `DanglingReference`.
pub proof fn lemma_stream_missing_frame_dangles(s: Seq<u8>, t: TablesView, i: int)
    requires
        s.len() >= 21,
        s[0] == 5,
        s.len() >= 21 + 8 * be_u32(from(s, 17)),
        0 <= i < be_u32(from(s, 17)),
        !t.frames.contains_key(be_u64(from(s, 21 + 8 * i))),
    ensures
        record_step(s, t) == Err::<Step, _>(HprofError::DanglingReference),
{
    reveal(record_step);
    let body = from(s, 9);
    assert(from(body, 8) =~= from(s, 17));
    assert(from(body, 12 + 8 * i) =~= from(s, 21 + 8 * i));
    let ids = frame_ids_of(body, be_u32(from(body, 8)) as nat);
    assert(ids[i] == be_u64(from(s, 21 + 8 * i)));
    lemma_missing_frame_dangles(t, ids, i);
}

/// Every frame renders as exactly one line, whichever rule applies.
pub proof fn lemma_one_line_per_frame(
    f: StackFrameRecord,
    class_name: Seq<char>,
    method: Seq<char>,
    source: Seq<char>,
)
    ensures
        frame_lines(f, class_name, method, source).len() == 1,
{
}

/// The frames of a stack trace render as one line per frame id, in the
/// order of the ids, none skipped.
pub proof fn lemma_frames_one_line_each(t: TablesView, ids: Seq<u64>)
    ensures
        rendered_frames(t, ids).len() == ids.len(),
        forall|i: int| 0 <= i < ids.len() ==> #[trigger] rendered_frames(t, ids)[i] == rendered_frame(
            t,
            ids[i],
        )[0],
    decreases ids.len(),
{
    if ids.len() > 0 {
        let f = t.frames[ids.last()];
        lemma_one_line_per_frame(
            f,
            dotted(t.strings[t.classes[f.class_serial_num].strname_id]),
            t.strings[f.method_name_id],
            t.strings[f.source_name_id],
        );
        lemma_frames_one_line_each(t, ids.drop_last());
        assert forall|i: int| 0 <= i < ids.len() implies #[trigger] rendered_frames(t, ids)[i]
            == rendered_frame(t, ids[i])[0] by {
            if i < ids.len() - 1 {
                assert(ids.drop_last()[i] == ids[i]);
            }
        }
    }
}

/// A stack-trace block is the thread line, one line per frame id, and a blank line.
pub proof fn lemma_trace_block_lines(t: TablesView, thread: u32, ids: Seq<u64>)
    ensures
        trace_lines(t, thread, ids).len() == ids.len() + 2,
        trace_lines(t, thread, ids)[0] == "Thread "@ + decimal(thread as int) + ":"@,
        trace_lines(t, thread, ids)[ids.len() as int + 1] == Seq::<char>::empty(),
        forall|i: int| 0 <= i < ids.len() ==> #[trigger] trace_lines(t, thread, ids)[i + 1]
            == rendered_frame(t, ids[i])[0],
{
    lemma_frames_one_line_each(t, ids);
    assert forall|i: int| 0 <= i < ids.len() implies #[trigger] trace_lines(t, thread, ids)[i + 1]
        == rendered_frame(t, ids[i])[0] by {
        assert(trace_lines(t, thread, ids)[i + 1] == rendered_frames(t, ids)[i]);
    }
}

} // verus!
