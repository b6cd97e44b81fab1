use passrat::applicators::{
    apply_account_access_token, apply_account_creation_date, apply_account_email,
    apply_account_last_change, apply_account_passcode, apply_account_password, apply_account_pin,
    apply_account_username, apply_service_name, apply_service_url, apply_shortcut_sequence,
    apply_sq_answer, apply_sq_question,
};
use passrat::date::Date;
use passrat::models::{
    Account, Applicator, ContactInfo, Field, SecurityQuestion, Service, Shortcut, Target,
};

fn day(y: i32, m: u32, d: u32) -> Date {
    Date::from_ymd(y, m, d).unwrap()
}

fn account(contact: ContactInfo) -> Account {
    Account {
        id: None,
        service_id: 1,
        contact,
        last_change: day(2025, 3, 3),
        creation_date: day(2024, 8, 1),
        password: Some("old".to_string()),
        access_token: None,
        pin: Some(1),
        passcode: None,
    }
}

fn contact_parts(c: &ContactInfo) -> (Option<&str>, Option<&str>) {
    match c {
        ContactInfo::Email(e) => (Some(e.as_str()), None),
        ContactInfo::Username(u) => (None, Some(u.as_str())),
        ContactInfo::Both(e, u) => (Some(e.as_str()), Some(u.as_str())),
    }
}

#[test]
fn service_name_and_url() {
    let mut s = Service { id: Some(4), name: "Old".to_string(), url: None };
    apply_service_name(&mut s, "New");
    apply_service_url(&mut s, "https://new.example");
    assert_eq!(s.name, "New");
    assert_eq!(s.url.as_deref(), Some("https://new.example"));
    assert_eq!(s.id, Some(4));
}

#[test]
fn username_keeps_the_email() {
    let mut a = account(ContactInfo::Email("me@x.org".to_string()));
    apply_account_username(&mut a, "me");
    assert_eq!(contact_parts(&a.contact), (Some("me@x.org"), Some("me")));
    let mut a = account(ContactInfo::Username("old".to_string()));
    apply_account_username(&mut a, "new");
    assert_eq!(contact_parts(&a.contact), (None, Some("new")));
    let mut a = account(ContactInfo::Both("e@x.org".to_string(), "old".to_string()));
    apply_account_username(&mut a, "new");
    assert_eq!(contact_parts(&a.contact), (Some("e@x.org"), Some("new")));
}

#[test]
fn email_keeps_the_username() {
    let mut a = account(ContactInfo::Username("me".to_string()));
    apply_account_email(&mut a, "me@x.org");
    assert_eq!(contact_parts(&a.contact), (Some("me@x.org"), Some("me")));
    let mut a = account(ContactInfo::Email("old@x.org".to_string()));
    apply_account_email(&mut a, "new@x.org");
    assert_eq!(contact_parts(&a.contact), (Some("new@x.org"), None));
}

#[test]
fn blank_secrets_are_removed() {
    let mut a = account(ContactInfo::Username("me".to_string()));
    apply_account_password(&mut a, "  ");
    assert_eq!(a.password, None);
    apply_account_password(&mut a, " pass word ");
    assert_eq!(a.password.as_deref(), Some(" pass word "));
    apply_account_access_token(&mut a, "tok");
    assert_eq!(a.access_token.as_deref(), Some("tok"));
    apply_account_access_token(&mut a, "");
    assert_eq!(a.access_token, None);
}

#[test]
fn numbers_are_read_from_trimmed_text() {
    let mut a = account(ContactInfo::Username("me".to_string()));
    apply_account_pin(&mut a, " 4321 ");
    assert_eq!(a.pin, Some(4321));
    apply_account_pin(&mut a, "12ab");
    assert_eq!(a.pin, None);
    apply_account_passcode(&mut a, "007");
    assert_eq!(a.passcode, Some(7));
    apply_account_passcode(&mut a, "");
    assert_eq!(a.passcode, None);
}

#[test]
fn dates_are_read_by_jiff() {
    let mut a = account(ContactInfo::Username("me".to_string()));
    assert_eq!(apply_account_last_change(&mut a, "2023-05-06"), Ok(()));
    assert_eq!(a.last_change, day(2023, 5, 6));
    assert_eq!(apply_account_creation_date(&mut a, "2020-01-31"), Ok(()));
    assert_eq!(a.creation_date, day(2020, 1, 31));
}

#[test]
fn unreadable_dates_leave_the_account_alone() {
    let mut a = account(ContactInfo::Username("me".to_string()));
    let r = apply_account_last_change(&mut a, "2023-02-30");
    let e = r.unwrap_err();
    assert!(e.starts_with("Invalid date format: "));
    let jiff_error = "2023-02-30".parse::<jiff::civil::Date>().unwrap_err().to_string();
    assert_eq!(e, format!("Invalid date format: {jiff_error}"));
    assert_eq!(a.last_change, day(2025, 3, 3));
    let e = apply_account_creation_date(&mut a, "yesterday").unwrap_err();
    assert!(e.starts_with("Invalid date format: "));
    assert_eq!(a.creation_date, day(2024, 8, 1));
}

#[test]
fn question_answer_and_sequence() {
    let mut q = SecurityQuestion { id: None, account_id: 1, question: "".to_string(), answer: "".to_string() };
    apply_sq_question(&mut q, "Pet?");
    apply_sq_answer(&mut q, "Rex");
    assert_eq!((q.question.as_str(), q.answer.as_str()), ("Pet?", "Rex"));
    let mut s = Shortcut { id: None, account_id: 1, field: "Password".to_string(), sequence: "".to_string() };
    apply_shortcut_sequence(&mut s, "ctrl-p");
    assert_eq!(s.sequence, "ctrl-p");
    assert_eq!(s.field, "Password");
}

#[test]
fn applicator_writes_its_field() {
    let mut t = Target::Account(account(ContactInfo::Username("me".to_string())));
    assert_eq!(Applicator::AccountPIN.apply(&mut t, "99"), Ok(()));
    match &t {
        Target::Account(a) => assert_eq!(a.pin, Some(99)),
        _ => panic!("kind changed"),
    }
    let f = Field {
        label: "Email".to_string(),
        value: "me@x.org".to_string(),
        error: None,
        validator: None,
        applicator: Applicator::AccountEmail,
    };
    assert_eq!(f.apply(&mut t), Ok(()));
    match &t {
        Target::Account(a) => assert_eq!(contact_parts(&a.contact), (Some("me@x.org"), Some("me"))),
        _ => panic!("kind changed"),
    }
}

#[test]
fn applying_twice_is_applying_once() {
    let mut t = Target::Service(Service { id: None, name: "a".to_string(), url: None });
    Applicator::ServiceUrl.apply(&mut t, "https://a.example").unwrap();
    let once = format!("{t:?}");
    Applicator::ServiceUrl.apply(&mut t, "https://a.example").unwrap();
    assert_eq!(format!("{t:?}"), once);
}

#[test]
fn a_field_of_another_kind_is_refused() {
    let mut t = Target::Service(Service { id: None, name: "GitHub".to_string(), url: None });
    let before = format!("{t:?}");
    let e = Applicator::AccountPIN.apply(&mut t, "1").unwrap_err();
    assert_eq!(e, format!("Cannot apply AccountPIN to {before}"));
    assert_eq!(format!("{t:?}"), before);
    let mut t = Target::Shortcut(Shortcut { id: None, account_id: 1, field: "f".to_string(), sequence: "s".to_string() });
    let e = Applicator::SqAnswer.apply(&mut t, "x").unwrap_err();
    assert!(e.starts_with("Cannot apply SqAnswer to Shortcut("));
}
