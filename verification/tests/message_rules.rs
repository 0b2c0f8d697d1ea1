use news_wizard::auth::Reply;
use news_wizard::messages::{lookup, render, replace_braces, MessageKey, MessageTable};

fn table() -> MessageTable {
    vec![
        (MessageKey::EntryAuthorized, "Вы уже авторизованы".to_string()),
        (MessageKey::AwaitingPhone, "Отправьте номер телефона".to_string()),
        (MessageKey::AwaitingPasscode, "Введите код".to_string()),
        (MessageKey::Authorized, "Авторизация успешна".to_string()),
        (
            MessageKey::TwoFaRequired,
            "Включена 2FA.\nПодсказка: {}.\n\nВведите пароль:".to_string(),
        ),
        (MessageKey::HintNotAvailable, "Подсказка недоступна".to_string()),
        (MessageKey::TwoFaSuccess, "2FA пройдена".to_string()),
    ]
}

#[test]
fn lookup_finds_the_entry() {
    assert_eq!(lookup(&table(), MessageKey::AwaitingPasscode, "Default message"), "Введите код");
}

#[test]
fn lookup_falls_back_when_key_is_missing() {
    let sparse: MessageTable = vec![(MessageKey::Authorized, "ok".to_string())];
    assert_eq!(lookup(&sparse, MessageKey::AwaitingPhone, "Default message"), "Default message");
}

#[test]
fn lookup_takes_the_first_of_duplicate_keys() {
    let doubled: MessageTable = vec![
        (MessageKey::Authorized, "first".to_string()),
        (MessageKey::Authorized, "second".to_string()),
    ];
    assert_eq!(lookup(&doubled, MessageKey::Authorized, "Default message"), "first");
}

#[test]
fn replace_substitutes_the_marker() {
    assert_eq!(replace_braces("Hint: {}.", "color"), "Hint: color.");
}

#[test]
fn replace_handles_no_marker_and_many_markers() {
    assert_eq!(replace_braces("no marker here", "x"), "no marker here");
    assert_eq!(replace_braces("{} and {}", "y"), "y and y");
    assert_eq!(replace_braces("{}{}", "ab"), "abab");
    assert_eq!(replace_braces("", "z"), "");
    assert_eq!(replace_braces("{", "z"), "{");
    assert_eq!(replace_braces("{}", ""), "");
    assert_eq!(replace_braces("a{ }b", "z"), "a{ }b");
}

#[test]
fn render_uses_the_localized_texts() {
    let t = table();
    assert_eq!(render(&Reply::EntryAuthorized, &t), "Вы уже авторизованы");
    assert_eq!(render(&Reply::AwaitingPhone, &t), "Отправьте номер телефона");
    assert_eq!(render(&Reply::AwaitingPasscode, &t), "Введите код");
    assert_eq!(render(&Reply::Authorized, &t), "Авторизация успешна");
    assert_eq!(render(&Reply::TwoFaSuccess, &t), "2FA пройдена");
}

#[test]
fn render_splices_the_hint_into_the_template() {
    let reply = Reply::TwoFaRequired { hint: Some("кличка кота".to_string()) };
    assert_eq!(
        render(&reply, &table()),
        "Включена 2FA.\nПодсказка: кличка кота.\n\nВведите пароль:"
    );
}

#[test]
fn render_uses_the_placeholder_when_the_provider_gave_no_hint() {
    // The shown hint is never empty: the localized placeholder stands in.
    let reply = Reply::TwoFaRequired { hint: None };
    assert_eq!(
        render(&reply, &table()),
        "Включена 2FA.\nПодсказка: Подсказка недоступна.\n\nВведите пароль:"
    );
}

#[test]
fn render_falls_back_to_fixed_defaults_on_an_empty_table() {
    let empty: MessageTable = vec![];
    assert_eq!(render(&Reply::Authorized, &empty), "Default message");
    let reply = Reply::TwoFaRequired { hint: None };
    assert_eq!(
        render(&reply, &empty),
        "You have 2FA authorization enabled.\nHint: No hint available.\n\nPlease enter your 2FA password:"
    );
}

#[test]
fn render_uses_the_fixed_placeholder_when_the_table_lacks_one() {
    let partial: MessageTable = vec![(MessageKey::TwoFaRequired, "Hint: {}".to_string())];
    let reply = Reply::TwoFaRequired { hint: None };
    assert_eq!(render(&reply, &partial), "Hint: No hint available");
}

#[test]
fn render_prefixes_provider_errors() {
    let sign_in = Reply::SignInFailed { error: "code expired".to_string() };
    assert_eq!(render(&sign_in, &table()), "Failed to sign in: code expired");
    let two_fa = Reply::TwoFaFailed { error: "wrong password".to_string() };
    assert_eq!(render(&two_fa, &table()), "Failed to authorize with 2FA: wrong password");
}
