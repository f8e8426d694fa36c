use vstd::prelude::*;
use vstd::string::*;
use vstd::utf8::*;

use crate::text::{decimal, push_decimal};

verus! {

broadcast use vstd::utf8::group_utf8_lib;

/// The text that whisper segments add up to: the segments that were read, in order;
/// a segment that could not be read adds nothing.
pub open spec fn joined_segments(segments: Seq<Option<String>>) -> Seq<char>
    decreases segments.len(),
{
    if segments.len() == 0 {
        Seq::empty()
    } else {
        joined_segments(segments.drop_last()) + match segments.last() {
            Some(text) => text@,
            None => Seq::<char>::empty(),
        }
    }
}

/// Puts a transcript together from its segments, in order, skipping those that
/// could not be read.
pub fn assemble_transcript(segments: &[Option<String>]) -> (transcript: String)
    ensures
        transcript@ == joined_segments(segments@),
{
    let mut out = String::new();
    let n = segments.len();
    let mut i: usize = 0;
    while i < n
        invariant
            n == segments@.len(),
            i <= n,
            out@ == joined_segments(segments@.take(i as int)),
        decreases n - i,
    {
        assert(segments@.take(i + 1).drop_last() =~= segments@.take(i as int));
        assert(segments@.take(i + 1).last() == segments@[i as int]);
        match &segments[i] {
            Some(text) => {
                out.append(text.as_str());
            },
            None => {},
        }
        i = i + 1;
    }
    assert(segments@.take(n as int) =~= segments@);
    out
}

/// How many bytes of the transcript go into the stand-in summary: at most one hundred.
pub open spec fn summary_head_len(transcript_bytes: nat) -> nat {
    if transcript_bytes < 100 {
        transcript_bytes
    } else {
        100
    }
}

/// The stand-in summary of a transcript: a fixed lead followed by the
/// transcript's first hundred bytes (all of it when it is shorter).
pub open spec fn spec_summary_text(transcript: &str) -> Seq<char> {
    "Summary of the meeting: "@ + decode_utf8(
        transcript.spec_bytes().subrange(0, summary_head_len(transcript.spec_bytes().len()) as int),
    )
}

/// Builds the stand-in summary. The cut after a hundred bytes must fall
/// between two characters.
pub fn summary_text(transcript: &str) -> (summary: String)
    requires
        transcript.spec_bytes().len() <= 100 || is_char_boundary(transcript.spec_bytes(), 100),
    ensures
        summary@ == spec_summary_text(transcript),
{
    let len = transcript.as_bytes().len();
    let cut: usize = if len < 100 { len } else { 100 };
    proof {
        vstd::utf8::encode_utf8_valid_utf8(transcript@);
        is_char_boundary_start_end_of_seq(transcript.spec_bytes());
        assert(len == transcript.spec_bytes().len());
        assert(is_char_boundary(transcript.spec_bytes(), cut as int));
    }
    let (head, _tail) = transcript.split_at(cut);
    proof {
        encode_utf8_decode_utf8(head@);
        assert(head.spec_bytes() =~= transcript.spec_bytes().subrange(0, cut as int));
        assert(decode_utf8(head.spec_bytes()) == head@);
        assert(cut == summary_head_len(transcript.spec_bytes().len()));
    }
    let mut summary = String::new();
    summary.append("Summary of the meeting: ");
    summary.append(head);
    assert(summary@ =~= "Summary of the meeting: "@ + head@);
    summary
}

/// The markdown note of a meeting: a YAML front matter block with the date,
/// the duration in seconds and the application that was recorded, then a
/// title, the transcript and the summary, each under its own heading.
pub open spec fn spec_meeting_markdown(
    date: Seq<char>,
    duration_secs: nat,
    application: Seq<char>,
    transcript: Seq<char>,
    summary: Seq<char>,
) -> Seq<char> {
    "---\ndate: "@ + date + "\nduration: "@ + decimal(duration_secs) + "s\napplication: "@
        + application + "\n---\n\n# Meeting Summary\n\n## Transcript\n"@ + transcript
        + "\n\n## Summary\n"@ + summary
}

/// Writes the markdown note of a meeting.
pub fn meeting_markdown(
    date: &str,
    duration_secs: u64,
    application: &str,
    transcript: &str,
    summary: &str,
) -> (note: String)
    ensures
        note@ == spec_meeting_markdown(
            date@,
            duration_secs as nat,
            application@,
            transcript@,
            summary@,
        ),
{
    let mut note = String::new();
    note.append("---\ndate: ");
    note.append(date);
    note.append("\nduration: ");
    push_decimal(&mut note, duration_secs);
    note.append("s\napplication: ");
    note.append(application);
    note.append("\n---\n\n# Meeting Summary\n\n## Transcript\n");
    note.append(transcript);
    note.append("\n\n## Summary\n");
    note.append(summary);
    assert(note@ =~= spec_meeting_markdown(
        date@,
        duration_secs as nat,
        application@,
        transcript@,
        summary@,
    ));
    note
}

/// The note opens with its front matter: its first line is "---" and its
/// second line gives the date.
pub proof fn lemma_note_opens_with_front_matter(
    date: Seq<char>,
    duration_secs: nat,
    application: Seq<char>,
    transcript: Seq<char>,
    summary: Seq<char>,
)
    ensures
        spec_meeting_markdown(date, duration_secs, application, transcript, summary).subrange(0, 10)
            == "---\ndate: "@,
{
    reveal_strlit("---\ndate: ");
    let note = spec_meeting_markdown(date, duration_secs, application, transcript, summary);
    assert(note.subrange(0, 10) =~= "---\ndate: "@);
}

/// A segment that could not be read adds nothing to the transcript.
pub proof fn lemma_unreadable_segment_adds_nothing(segments: Seq<Option<String>>)
    ensures
        joined_segments(segments.push(None)) == joined_segments(segments),
{
    assert(segments.push(None).drop_last() =~= segments);
    assert(joined_segments(segments) + Seq::<char>::empty() =~= joined_segments(segments));
}

/// A transcript of at most a hundred bytes goes into the stand-in summary whole;
/// a longer one contributes exactly its first hundred bytes.
pub proof fn lemma_summary_keeps_at_most_one_hundred_bytes(transcript: &str)
    ensures
        transcript.spec_bytes().len() <= 100 ==> spec_summary_text(transcript)
            == "Summary of the meeting: "@ + transcript@,
        transcript.spec_bytes().len() > 100 ==> summary_head_len(transcript.spec_bytes().len())
            == 100,
{
    if transcript.spec_bytes().len() <= 100 {
        assert(transcript.spec_bytes().subrange(0, transcript.spec_bytes().len() as int)
            =~= transcript.spec_bytes());
        encode_utf8_decode_utf8(transcript@);
    }
}

/// Appending a segment that was read appends its text; appending one that was
/// not read appends nothing. Whisper's segments are taken in order, however many.
pub proof fn lemma_segment_appends_its_text(segments: Seq<Option<String>>, text: String)
    ensures
        joined_segments(segments.push(Some(text))) == joined_segments(segments) + text@,
        joined_segments(segments.push(None)) == joined_segments(segments),
        joined_segments(Seq::<Option<String>>::empty()) == Seq::<char>::empty(),
{
    assert(segments.push(Some(text)).drop_last() =~= segments);
    assert(segments.push(None).drop_last() =~= segments);
    assert(joined_segments(segments) + Seq::<char>::empty() =~= joined_segments(segments));
}

/// The transcript of two runs of segments is the transcript of the first
/// followed by that of the second.
pub proof fn lemma_segments_concatenate(first: Seq<Option<String>>, second: Seq<Option<String>>)
    ensures
        joined_segments(first + second) == joined_segments(first) + joined_segments(second),
    decreases second.len(),
{
    if second.len() == 0 {
        assert(first + second =~= first);
        assert(joined_segments(first) + Seq::<char>::empty() =~= joined_segments(first));
    } else {
        let last = second.last();
        let init = second.drop_last();
        lemma_segments_concatenate(first, init);
        assert((first + second).drop_last() =~= first + init);
        assert((first + second).last() == last);
        let tail: Seq<char> = match last {
            Some(t) => t@,
            None => Seq::<char>::empty(),
        };
        assert(joined_segments(second) == joined_segments(init) + tail);
        assert(joined_segments(first + second) == joined_segments(first + init) + tail);
        assert(joined_segments(first) + joined_segments(init) + tail =~= joined_segments(first) + (
        joined_segments(init) + tail));
    }
}

/// The bytes of a text are the bytes of its parts, one after the other.
pub proof fn lemma_encode_concat(a: Seq<char>, b: Seq<char>)
    ensures
        encode_utf8(a + b) == encode_utf8(a) + encode_utf8(b),
    decreases a.len(),
{
    if a.len() == 0 {
        assert(a + b =~= b);
        assert(Seq::<u8>::empty() + encode_utf8(b) =~= encode_utf8(b));
    } else {
        lemma_encode_concat(a.drop_first(), b);
        assert((a + b)[0] == a[0]);
        assert((a + b).drop_first() =~= a.drop_first() + b);
        assert(encode_scalar(a[0] as u32) + (encode_utf8(a.drop_first()) + encode_utf8(b))
            =~= (encode_scalar(a[0] as u32) + encode_utf8(a.drop_first())) + encode_utf8(b));
    }
}

/// In bytes, the stand-in summary is the lead followed by the transcript's first
/// hundred bytes, or by all of it when it is shorter, whatever its length.
pub proof fn lemma_summary_bytes(transcript: &str)
    requires
        transcript.spec_bytes().len() <= 100 || is_char_boundary(transcript.spec_bytes(), 100),
    ensures
        encode_utf8(spec_summary_text(transcript)) == encode_utf8("Summary of the meeting: "@)
            + transcript.spec_bytes().subrange(
            0,
            if transcript.spec_bytes().len() < 100 {
                transcript.spec_bytes().len() as int
            } else {
                100
            },
        ),
        transcript.spec_bytes().len() >= 100 ==> encode_utf8(spec_summary_text(transcript)).len()
            == encode_utf8("Summary of the meeting: "@).len() + 100,
        transcript.spec_bytes().len() < 100 ==> spec_summary_text(transcript)
            == "Summary of the meeting: "@ + transcript@,
{
    let bytes = transcript.spec_bytes();
    let cut: int = if bytes.len() < 100 { bytes.len() as int } else { 100 };
    encode_utf8_valid_utf8(transcript@);
    is_char_boundary_start_end_of_seq(bytes);
    assert(is_char_boundary(bytes, cut));
    valid_utf8_split(bytes, cut);
    let head = bytes.subrange(0, cut);
    decode_utf8_encode_utf8(head);
    lemma_encode_concat("Summary of the meeting: "@, decode_utf8(head));
    if bytes.len() < 100 {
        assert(head =~= bytes);
        encode_utf8_decode_utf8(transcript@);
    }
}

/// The note ends with the whole transcript under the "## Transcript" heading,
/// then the "## Summary" heading and the whole summary, for texts of any
/// length; it begins with the front matter's opening line and the date.
pub proof fn lemma_note_holds_transcript_and_summary(
    date: Seq<char>,
    duration_secs: nat,
    application: Seq<char>,
    transcript: Seq<char>,
    summary: Seq<char>,
)
    ensures
        ({
            let note = spec_meeting_markdown(date, duration_secs, application, transcript, summary);
            let n = note.len() as int;
            let s_at = n - summary.len();
            let h_at = s_at - 13;
            let t_at = h_at - transcript.len();
            &&& note.subrange(s_at, n) == summary
            &&& note.subrange(h_at, s_at) == "\n\n## Summary\n"@
            &&& note.subrange(t_at, h_at) == transcript
            &&& note.subrange(t_at - 14, t_at) == "## Transcript\n"@
            &&& note.subrange(0, 10) == "---\ndate: "@
            &&& note.subrange(10, 10 + date.len() as int) == date
        }),
{
    reveal_strlit("\n\n## Summary\n");
    reveal_strlit("## Transcript\n");
    reveal_strlit("---\ndate: ");
    reveal_strlit("\n---\n\n# Meeting Summary\n\n## Transcript\n");
    let note = spec_meeting_markdown(date, duration_secs, application, transcript, summary);
    let head = "---\ndate: "@ + date + "\nduration: "@ + decimal(duration_secs) + "s\napplication: "@
        + application + "\n---\n\n# Meeting Summary\n\n## Transcript\n"@;
    assert(note == head + transcript + "\n\n## Summary\n"@ + summary);
    let n = note.len() as int;
    let s_at = n - summary.len();
    let h_at = s_at - 13;
    let t_at = h_at - transcript.len();
    assert(t_at == head.len());
    assert(note.subrange(s_at, n) =~= summary);
    assert(note.subrange(h_at, s_at) =~= "\n\n## Summary\n"@);
    assert(note.subrange(t_at, h_at) =~= transcript);
    assert(note.subrange(t_at - 14, t_at) =~= "## Transcript\n"@);
    assert(note.subrange(0, 10) =~= "---\ndate: "@);
    assert(note.subrange(10, 10 + date.len() as int) =~= date);
}

} // verus!
