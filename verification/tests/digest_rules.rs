use news_wizard::digest::{
    is_digest_source, is_txt_file, keep_source_file, llm_reply_or_fallback, message_in_window,
    sanitize_file_stem, should_delete_empty, should_record, str_eq, ChatKind, LOOKBACK_SECONDS,
};

#[test]
fn only_channels_feed_the_digest() {
    assert!(is_digest_source(ChatKind::Channel));
    assert!(!is_digest_source(ChatKind::Group));
    assert!(!is_digest_source(ChatKind::User));
}

#[test]
fn window_cuts_off_after_nine_hours() {
    let now = 1_700_000_000;
    assert_eq!(LOOKBACK_SECONDS, 9 * 3600);
    assert!(message_in_window(now, now));
    assert!(message_in_window(now - 9 * 3600, now));
    assert!(!message_in_window(now - 9 * 3600 - 1, now));
    assert!(message_in_window(now + 5, now));
}

#[test]
fn empty_texts_are_skipped() {
    assert!(!should_record(""));
    assert!(should_record("x"));
    assert!(should_record(" "));
}

#[test]
fn txt_extension_is_recognized() {
    assert!(is_txt_file("updates.txt"));
    assert!(is_txt_file("a.txt"));
    assert!(is_txt_file(".txt"));
    assert!(!is_txt_file("txt"));
    assert!(!is_txt_file("notes.md"));
    assert!(!is_txt_file("archive.txt.gz"));
    assert!(!is_txt_file(""));
}

#[test]
fn source_files_exclude_the_updates_record() {
    assert!(keep_source_file("some_channel.txt"));
    assert!(!keep_source_file("updates.txt"));
    assert!(!keep_source_file("podcast.mp3"));
}

#[test]
fn empty_leftovers_are_deleted_but_never_the_record() {
    assert!(should_delete_empty("dead_channel.txt", 0));
    assert!(!should_delete_empty("dead_channel.txt", 1));
    assert!(!should_delete_empty("updates.txt", 0));
    assert!(!should_delete_empty("audio.mp3", 0));
}

#[test]
fn chat_names_become_safe_file_stems() {
    assert_eq!(sanitize_file_stem("Tech News / Daily"), "Tech_News___Daily");
    assert_eq!(sanitize_file_stem("plain"), "plain");
    assert_eq!(sanitize_file_stem(""), "");
    assert_eq!(sanitize_file_stem("Новости дня"), "Новости_дня");
}

#[test]
fn string_equality_is_by_characters() {
    assert!(str_eq("abc", "abc"));
    assert!(!str_eq("abc", "abd"));
    assert!(!str_eq("abc", "ab"));
    assert!(str_eq("", ""));
    assert!(str_eq("ключ", "ключ"));
}

#[test]
fn llm_fallback_stands_in_for_missing_content() {
    assert_eq!(llm_reply_or_fallback(Some("42".to_string())), "42");
    assert_eq!(
        llm_reply_or_fallback(None),
        "Извини, я не смог понять твой вопрос. Пожалуйста, попробуй снова."
    );
}
