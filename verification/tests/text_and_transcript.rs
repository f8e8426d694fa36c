use meeting_assistant::text::{decimal_string, joined_text, same_text};
use meeting_assistant::transcript::{assemble_transcript, meeting_markdown, summary_text};

#[test]
fn decimal_of_zero_is_a_single_digit() {
    assert_eq!(decimal_string(0), "0");
}

#[test]
fn decimal_of_typical_timestamps() {
    assert_eq!(decimal_string(7), "7");
    assert_eq!(decimal_string(10), "10");
    assert_eq!(decimal_string(1700000000), "1700000000");
    assert_eq!(decimal_string(u64::MAX), "18446744073709551615");
}

#[test]
fn decimal_of_different_numbers_differ() {
    assert_ne!(decimal_string(12), decimal_string(120));
    assert_ne!(decimal_string(1), decimal_string(10));
}

#[test]
fn same_text_compares_characters() {
    assert!(same_text("whisper", "whisper"));
    assert!(!same_text("whisper", "whispers"));
    assert!(!same_text("gemma", "Gemma"));
    assert!(same_text("", ""));
    assert!(same_text("é✓", "é✓"));
}

#[test]
fn joined_text_puts_second_after_first() {
    assert_eq!(joined_text("Bearer ", "abc"), "Bearer abc");
    assert_eq!(joined_text("", ""), "");
}

#[test]
fn transcript_joins_segments_in_order() {
    let segments = vec![Some(" Hello".to_string()), Some(" world".to_string())];
    assert_eq!(assemble_transcript(&segments), " Hello world");
}

#[test]
fn transcript_skips_unreadable_segments() {
    let segments = vec![Some("a".to_string()), None, Some("b".to_string()), None];
    assert_eq!(assemble_transcript(&segments), "ab");
    assert_eq!(assemble_transcript(&[]), "");
    assert_eq!(assemble_transcript(&[None, None]), "");
}

#[test]
fn short_transcript_is_summarized_whole() {
    assert_eq!(summary_text("we agreed"), "Summary of the meeting: we agreed");
    assert_eq!(summary_text(""), "Summary of the meeting: ");
}

#[test]
fn long_transcript_is_cut_after_one_hundred_bytes() {
    let transcript = "x".repeat(150);
    let summary = summary_text(&transcript);
    assert_eq!(summary, format!("Summary of the meeting: {}", "x".repeat(100)));
}

#[test]
fn transcript_of_exactly_one_hundred_bytes_is_kept() {
    let transcript = "y".repeat(100);
    assert_eq!(summary_text(&transcript), format!("Summary of the meeting: {}", transcript));
}

#[test]
fn multibyte_transcript_cut_on_a_character_boundary() {
    // 98 ASCII bytes, then "é" (2 bytes) ends exactly at byte 100.
    let transcript = format!("{}é and more", "a".repeat(98));
    assert!(transcript.is_char_boundary(100));
    assert_eq!(summary_text(&transcript), format!("Summary of the meeting: {}é", "a".repeat(98)));
}

#[test]
fn markdown_note_has_both_sections() {
    assert_eq!(
        meeting_markdown("2024-02-29", 61, "Zoom", "hello all", "a greeting"),
        "---\ndate: 2024-02-29\nduration: 61s\napplication: Zoom\n---\n\n\
         # Meeting Summary\n\n## Transcript\nhello all\n\n## Summary\na greeting"
    );
    assert!(meeting_markdown("d", 0, "a", "t", "s").starts_with("---\ndate: "));
}
