//! Localized outbound replies.
//!
//! Every handled event is answered with at most one reply, named after the
//! state transition it reports. The reply's text is chosen from a message
//! table — the parsed localization file of the user's language — keyed by
//! transition name. A lookup that finds no entry falls back to a fixed
//! default string instead of failing the request.
//!
//! The second-factor demand carries the provider's hint, spliced into the
//! localized template in place of its `{}` marker; when the provider gave no
//! hint, a localized placeholder stands in, so the shown hint is never
//! empty.

use vstd::prelude::*;
use crate::auth::{Reply, ReplyView};

verus! {

/// The resolved language of a user's replies.
#[derive(PartialEq, Eq, Structural, Clone, Copy, Debug)]
pub enum Language {
    Ru,
    En,
}

/// The names a message table is keyed by, one per reply the handshake can
/// owe the user.
#[derive(PartialEq, Eq, Structural, Clone, Copy, Debug)]
pub enum MessageKey {
    /// The stored session already reported itself authorized at entry.
    EntryAuthorized,
    /// The user must now send their phone number.
    AwaitingPhone,
    /// The user must now enter the code they received.
    AwaitingPasscode,
    /// The handshake ended with the account authorized.
    Authorized,
    /// Template of the second-factor demand; its `{}` marker is replaced by
    /// the hint.
    TwoFaRequired,
    /// Placeholder hint shown when the provider supplied none.
    HintNotAvailable,
    /// The second factor was accepted.
    TwoFaSuccess,
}

/// A localized message table: transition names paired with their texts, in
/// lookup order.
pub type MessageTable = Vec<(MessageKey, String)>;

/// The text the table holds for a key: the first entry with that key, if
/// any.
pub open spec fn spec_lookup(table: Seq<(MessageKey, String)>, key: MessageKey) -> Option<
    Seq<char>,
>
    decreases table.len(),
{
    if table.len() == 0 {
        None
    } else if table[0].0 == key {
        Some(table[0].1@)
    } else {
        spec_lookup(table.subrange(1, table.len() as int), key)
    }
}

/// A found text, or the given fallback where the table has no entry.
pub open spec fn spec_or_default(found: Option<Seq<char>>, fallback: Seq<char>) -> Seq<char> {
    match found {
        Some(text) => text,
        None => fallback,
    }
}

/// Every occurrence of the two-character marker `{}`, scanned left to
/// right, replaced by the value.
pub open spec fn spec_replace(template: Seq<char>, value: Seq<char>) -> Seq<char>
    decreases template.len(),
{
    if template.len() < 2 {
        template
    } else if template[0] == '{' && template[1] == '}' {
        value + spec_replace(template.subrange(2, template.len() as int), value)
    } else {
        seq![template[0]] + spec_replace(template.subrange(1, template.len() as int), value)
    }
}

/// The hint text shown with a second-factor demand: the provider's hint, or
/// the localized placeholder where it gave none.
pub open spec fn spec_hint_text(
    hint: Option<Seq<char>>,
    table: Seq<(MessageKey, String)>,
) -> Seq<char> {
    match hint {
        Some(text) => text,
        None => spec_or_default(
            spec_lookup(table, MessageKey::HintNotAvailable),
            "No hint available"@,
        ),
    }
}

/// The full text of the second-factor demand: the localized template with
/// the hint spliced in for its `{}` marker.
pub open spec fn spec_two_fa_message(
    hint: Option<Seq<char>>,
    table: Seq<(MessageKey, String)>,
) -> Seq<char> {
    spec_replace(
        spec_or_default(
            spec_lookup(table, MessageKey::TwoFaRequired),
            "You have 2FA authorization enabled.\nHint: {}.\n\nPlease enter your 2FA password:"@,
        ),
        spec_hint_text(hint, table),
    )
}

/// The text a reply renders to, from the given message table.
pub open spec fn spec_render(reply: ReplyView, table: Seq<(MessageKey, String)>) -> Seq<char> {
    match reply {
        ReplyView::EntryAuthorized => spec_or_default(
            spec_lookup(table, MessageKey::EntryAuthorized),
            "Default message"@,
        ),
        ReplyView::AwaitingPhone => spec_or_default(
            spec_lookup(table, MessageKey::AwaitingPhone),
            "Default message"@,
        ),
        ReplyView::AwaitingPasscode => spec_or_default(
            spec_lookup(table, MessageKey::AwaitingPasscode),
            "Default message"@,
        ),
        ReplyView::Authorized => spec_or_default(
            spec_lookup(table, MessageKey::Authorized),
            "Default message"@,
        ),
        ReplyView::TwoFaRequired { hint } => spec_two_fa_message(hint, table),
        ReplyView::TwoFaSuccess => spec_or_default(
            spec_lookup(table, MessageKey::TwoFaSuccess),
            "Default message"@,
        ),
        ReplyView::SignInFailed { error } => "Failed to sign in: "@ + error,
        ReplyView::TwoFaFailed { error } => "Failed to authorize with 2FA: "@ + error,
    }
}

/// Looks a key up in the table, falling back to the given default text where
/// no entry carries the key.
pub fn lookup(table: &MessageTable, key: MessageKey, fallback: &str) -> (text: String)
    ensures
        text@ == spec_or_default(spec_lookup(table@, key), fallback@),
{
    let mut i: usize = 0;
    proof {
        assert(table@.subrange(0, table@.len() as int) =~= table@);
    }
    while i < table.len()
        invariant
            i <= table@.len(),
            spec_lookup(table@, key) == spec_lookup(
                table@.subrange(i as int, table@.len() as int),
                key,
            ),
        decreases table@.len() - i,
    {
        proof {
            let rest = table@.subrange(i as int, table@.len() as int);
            assert(rest[0] == table@[i as int]);
            assert(rest.subrange(1, rest.len() as int) =~= table@.subrange(
                i + 1,
                table@.len() as int,
            ));
        }
        if table[i].0 == key {
            return table[i].1.clone();
        }
        i = i + 1;
    }
    proof {
        assert(table@.subrange(i as int, table@.len() as int).len() == 0);
    }
    String::from_str(fallback)
}

/// Replaces every `{}` marker in the template, scanned left to right, by the
/// value.
pub fn replace_braces(template: &str, value: &str) -> (result: String)
    ensures
        result@ == spec_replace(template@, value@),
{
    let length = template.unicode_len();
    let mut result = String::new();
    let mut start: usize = 0;
    let mut i: usize = 0;
    proof {
        assert(template@.subrange(0, length as int) =~= template@);
        assert(result@ + template@.subrange(0, 0) + spec_replace(template@, value@)
            =~= spec_replace(template@, value@));
    }
    while i < length
        invariant
            start <= i <= length,
            length == template@.len(),
            spec_replace(template@, value@) == result@ + template@.subrange(
                start as int,
                i as int,
            ) + spec_replace(template@.subrange(i as int, length as int), value@),
        decreases length - i,
    {
        let ghost rest = template@.subrange(i as int, length as int);
        proof {
            assert(rest[0] == template@[i as int]);
        }
        if i + 1 < length && template.get_char(i) == '{' && template.get_char(i + 1) == '}' {
            proof {
                assert(rest[1] == template@[i + 1]);
                assert(rest.subrange(2, rest.len() as int) =~= template@.subrange(
                    i + 2,
                    length as int,
                ));
            }
            let literal = template.substring_char(start, i);
            result.append(literal);
            result.append(value);
            proof {
                assert(template@.subrange(i + 2, i + 2).len() == 0);
                assert(result@ + template@.subrange(i + 2, i + 2) =~= result@);
            }
            start = i + 2;
            i = i + 2;
        } else {
            proof {
                if i + 1 < length {
                    assert(rest[1] == template@[i + 1]);
                    assert(rest.subrange(1, rest.len() as int) =~= template@.subrange(
                        i + 1,
                        length as int,
                    ));
                } else {
                    assert(rest.len() == 1);
                    assert(spec_replace(
                        template@.subrange(i + 1, length as int),
                        value@,
                    ) == template@.subrange(i + 1, length as int));
                }
                assert(template@.subrange(start as int, i as int) + seq![template@[i as int]]
                    =~= template@.subrange(start as int, i + 1));
            }
            i = i + 1;
        }
    }
    let tail = template.substring_char(start, length);
    result.append(tail);
    proof {
        assert(template@.subrange(i as int, length as int).len() == 0);
        assert(result@ + spec_replace(template@.subrange(i as int, length as int), value@)
            =~= result@);
    }
    result
}

/// Renders a reply to the text shown to the user, from the given message
/// table.
pub fn render(reply: &Reply, table: &MessageTable) -> (text: String)
    ensures
        text@ == spec_render(reply@, table@),
{
    match reply {
        Reply::EntryAuthorized => lookup(table, MessageKey::EntryAuthorized, "Default message"),
        Reply::AwaitingPhone => lookup(table, MessageKey::AwaitingPhone, "Default message"),
        Reply::AwaitingPasscode => lookup(table, MessageKey::AwaitingPasscode, "Default message"),
        Reply::Authorized => lookup(table, MessageKey::Authorized, "Default message"),
        Reply::TwoFaRequired { hint } => {
            let hint_text = match hint {
                Some(text) => text.clone(),
                None => lookup(table, MessageKey::HintNotAvailable, "No hint available"),
            };
            let template = lookup(
                table,
                MessageKey::TwoFaRequired,
                "You have 2FA authorization enabled.\nHint: {}.\n\nPlease enter your 2FA password:",
            );
            replace_braces(template.as_str(), hint_text.as_str())
        },
        Reply::TwoFaSuccess => lookup(table, MessageKey::TwoFaSuccess, "Default message"),
        Reply::SignInFailed { error } => String::from_str("Failed to sign in: ").concat(
            error.as_str(),
        ),
        Reply::TwoFaFailed { error } => String::from_str("Failed to authorize with 2FA: ").concat(
            error.as_str(),
        ),
    }
}

/// The hint shown with a second-factor demand is never empty: the provider's
/// own hint is shown when it gave one, and the placeholder — localized, or
/// the fixed fallback — stands in when it gave none. This holds as long as
/// the provider does not hand over an empty hint and the table does not bind
/// the placeholder key to an empty text.
pub proof fn lemma_second_factor_hint_nonempty(
    hint: Option<Seq<char>>,
    table: Seq<(MessageKey, String)>,
)
    requires
        hint matches Some(text) ==> text.len() > 0,
        spec_lookup(table, MessageKey::HintNotAvailable) matches Some(text) ==> text.len() > 0,
    ensures
        spec_hint_text(hint, table).len() > 0,
{
    reveal_strlit("No hint available");
}

} // verus!
