use passrat::date::Date;
use passrat::models::{
    Account, Applicator, ContactInfo, SecurityQuestion, Service, Shortcut, Target,
};
use passrat::modes::edit::Input;
use passrat::record_text::{quoted_text, target_text_of};

fn day(y: i32, m: u32, d: u32) -> Date {
    Date::from_ymd(y, m, d).unwrap()
}

#[test]
fn quoted_strings_match_debug() {
    for s in ["plain", "it's", "say \"hi\"", "back\\slash", "tab\tnew\nline", "é", "e\u{301}", "zero\u{200b}width", "\u{0}", ""] {
        assert_eq!(quoted_text(s), format!("{s:?}"));
    }
}

#[test]
fn service_and_question_text() {
    let s = Service { id: Some(4), name: "Git\"Hub".to_string(), url: None };
    assert_eq!(
        target_text_of(&Target::Service(s)),
        "Service(Service { id: Some(4), name: \"Git\\\"Hub\", url: None })"
    );
    let q = SecurityQuestion { id: None, account_id: 2, question: "Pet?".to_string(), answer: "Rex".to_string() };
    assert_eq!(
        target_text_of(&Target::SecurityQuestion(q)),
        "SecurityQuestion(SecurityQuestion { id: None, account_id: 2, question: \"Pet?\", answer: \"Rex\" })"
    );
    let c = Shortcut { id: Some(1), account_id: 3, field: "Password".to_string(), sequence: "ctrl-p".to_string() };
    assert_eq!(
        target_text_of(&Target::Shortcut(c)),
        "Shortcut(Shortcut { id: Some(1), account_id: 3, field: \"Password\", sequence: \"ctrl-p\" })"
    );
}

#[test]
fn account_text_writes_dates_as_chrono_debug() {
    let a = Account {
        id: Some(5),
        service_id: 2,
        contact: ContactInfo::Both("me@x.org".to_string(), "me".to_string()),
        last_change: day(2024, 1, 5),
        creation_date: day(-1, 12, 31),
        password: Some("pw".to_string()),
        access_token: None,
        pin: Some(12),
        passcode: None,
    };
    let expected = format!(
        "Account(Account {{ id: Some(5), service_id: 2, contact: Both(\"me@x.org\", \"me\"), last_change: {:?}, creation_date: {:?}, password: Some(\"pw\"), access_token: None, pin: Some(12), passcode: None }})",
        chrono::NaiveDate::from_ymd_opt(2024, 1, 5).unwrap(),
        chrono::NaiveDate::from_ymd_opt(-1, 12, 31).unwrap(),
    );
    let text = target_text_of(&Target::Account(a.duplicate()));
    assert_eq!(text, expected);
    assert!(text.contains("last_change: 2024-01-05"));
    let mut t = Target::Account(a);
    let e = Applicator::ServiceName.apply(&mut t, "x").unwrap_err();
    assert_eq!(e, format!("Cannot apply ServiceName to {expected}"));
}

#[test]
fn cursor_past_the_end_is_left_alone_by_delete() {
    let mut i = Input { index: 9, value: "ab".to_string() };
    i.delete();
    assert_eq!((i.value.as_str(), i.index), ("ab", 9));
}
