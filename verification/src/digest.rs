//! Decision rules of the digest pipeline.
//!
//! The pipeline itself — listing dialogs, reading messages, summarizing,
//! synthesizing speech, sending the file — is a linear chain of external
//! calls made by the surrounding program. What stands here are the rules that
//! chain applies: which dialogs feed the digest, which messages fall inside
//! the lookback window, which files in a user's working directory are
//! snapshots to collect or leftovers to delete, and how a chat's name becomes
//! a file name.

use vstd::prelude::*;

verus! {

/// How far back messages are collected on each run, in seconds: nine hours.
pub const LOOKBACK_SECONDS: i64 = 32400;

/// The kind of dialog a chat list holds.
#[derive(PartialEq, Eq, Structural, Clone, Copy, Debug)]
pub enum ChatKind {
    /// A group chat.
    Group,
    /// A broadcast channel.
    Channel,
    /// A private chat with a user.
    User,
}

/// Whether a dialog feeds the digest: only broadcast channels do; groups and
/// private chats are listed but not read.
pub fn is_digest_source(kind: ChatKind) -> (chosen: bool)
    ensures
        chosen == (kind is Channel),
{
    kind == ChatKind::Channel
}

/// Whether a message, by its timestamp, falls inside the lookback window
/// ending at `now`: messages older than nine hours are cut off.
pub fn message_in_window(message_time: i64, now: i64) -> (inside: bool)
    requires
        now as int - 32400 >= i64::MIN,
    ensures
        inside == (message_time as int >= now as int - 32400),
{
    message_time >= now - LOOKBACK_SECONDS
}

/// Whether a message's text is worth recording: empty texts are skipped.
pub fn should_record(text: &str) -> (recorded: bool)
    ensures
        recorded == (text@.len() > 0),
{
    !text.is_empty()
}

/// Whether a file name carries the snapshot extension `.txt`.
pub open spec fn spec_is_txt(name: Seq<char>) -> bool {
    name.len() >= 4 && name.subrange(name.len() - 4, name.len() as int) == ".txt"@
}

/// Tests a file name for the snapshot extension `.txt`.
pub fn is_txt_file(name: &str) -> (txt: bool)
    ensures
        txt == spec_is_txt(name@),
{
    let length = name.unicode_len();
    proof {
        reveal_strlit(".txt");
    }
    if length < 4 {
        return false;
    }
    let matches = name.get_char(length - 4) == '.' && name.get_char(length - 3) == 't'
        && name.get_char(length - 2) == 'x' && name.get_char(length - 1) == 't';
    proof {
        if matches {
            assert(name@.subrange(name@.len() - 4, name@.len() as int) =~= ".txt"@);
        } else {
            if name@.subrange(name@.len() - 4, name@.len() as int) == ".txt"@ {
                assert(name@.subrange(name@.len() - 4, name@.len() as int)[0] == '.');
                assert(name@.subrange(name@.len() - 4, name@.len() as int)[1] == 't');
                assert(name@.subrange(name@.len() - 4, name@.len() as int)[2] == 'x');
                assert(name@.subrange(name@.len() - 4, name@.len() as int)[3] == 't');
            }
        }
    }
    matches
}

/// Character-by-character equality of two string slices.
pub fn str_eq(left: &str, right: &str) -> (equal: bool)
    ensures
        equal == (left@ == right@),
{
    let left_len = left.unicode_len();
    let right_len = right.unicode_len();
    if left_len != right_len {
        return false;
    }
    let mut i: usize = 0;
    while i < left_len
        invariant
            i <= left_len,
            left_len == left@.len(),
            left@.len() == right@.len(),
            forall|j: int| 0 <= j < i ==> left@[j] == right@[j],
        decreases left_len - i,
    {
        if left.get_char(i) != right.get_char(i) {
            return false;
        }
        i = i + 1;
    }
    proof {
        assert(left@ =~= right@);
    }
    true
}

/// The name of the running updates record in a user's working directory.
pub fn is_updates_file(name: &str) -> (updates: bool)
    ensures
        updates == (name@ == "updates.txt"@),
{
    str_eq(name, "updates.txt")
}

/// Whether a file in the user's working directory is a source snapshot to
/// collect into the updates record: a `.txt` file other than the record
/// itself.
pub fn keep_source_file(name: &str) -> (kept: bool)
    ensures
        kept == (spec_is_txt(name@) && name@ != "updates.txt"@),
{
    is_txt_file(name) && !is_updates_file(name)
}

/// Whether a file is an empty leftover to delete before collecting: a `.txt`
/// file of size zero, never the updates record itself.
pub fn should_delete_empty(name: &str, size: u64) -> (deleted: bool)
    ensures
        deleted == (name@ != "updates.txt"@ && spec_is_txt(name@) && size == 0),
{
    !is_updates_file(name) && is_txt_file(name) && size == 0
}

/// A chat's name turned into a file stem: spaces and path separators become
/// underscores, every other character stays.
pub open spec fn spec_sanitize(name: Seq<char>) -> Seq<char> {
    Seq::new(
        name.len(),
        |i: int|
            if name[i] == ' ' || name[i] == '/' {
                '_'
            } else {
                name[i]
            },
    )
}

/// Sanitizes a chat name into the stem of its snapshot file.
pub fn sanitize_file_stem(name: &str) -> (stem: String)
    ensures
        stem@ == spec_sanitize(name@),
{
    let length = name.unicode_len();
    let mut stem = String::new();
    let mut i: usize = 0;
    proof {
        reveal_strlit("_");
        assert(stem@ =~= spec_sanitize(name@).subrange(0, 0));
    }
    while i < length
        invariant
            i <= length,
            length == name@.len(),
            stem@ == spec_sanitize(name@).subrange(0, i as int),
        decreases length - i,
    {
        let symbol = name.get_char(i);
        if symbol == ' ' || symbol == '/' {
            stem.append("_");
            proof {
                reveal_strlit("_");
                assert("_"@.len() == 1 && "_"@[0] == '_');
            }
        } else {
            let piece = name.substring_char(i, i + 1);
            stem.append(piece);
            proof {
                assert(piece@ =~= seq![name@[i as int]]);
            }
        }
        proof {
            assert(stem@ =~= spec_sanitize(name@).subrange(0, i + 1));
        }
        i = i + 1;
    }
    proof {
        assert(spec_sanitize(name@).subrange(0, length as int) =~= spec_sanitize(name@));
    }
    stem
}

/// The text-understanding step's reply, or the fixed apology where the call
/// produced no content at all.
pub fn llm_reply_or_fallback(content: Option<String>) -> (reply: String)
    ensures
        match content {
            Some(text) => reply@ == text@,
            None => reply@ == "Извини, я не смог понять твой вопрос. Пожалуйста, попробуй снова."@,
        },
{
    match content {
        Some(text) => text,
        None => String::from_str(
            "Извини, я не смог понять твой вопрос. Пожалуйста, попробуй снова.",
        ),
    }
}

} // verus!
