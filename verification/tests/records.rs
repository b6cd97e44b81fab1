use passrat::date::Date;
use passrat::forms::Fields;
use passrat::helpers::{
    construct_detail_list, format_detail_field, format_hidden_detail_field, validate_account,
    validate_security_question, validate_service, validate_shortcut,
};
use passrat::models::{
    Account, Applicator, ContactInfo, SecurityQuestion, Service, Shortcut, Target,
};
use passrat::validators::{
    validate_date, validate_email, validate_no_whitespace, validate_non_empty, validate_numeric,
    validate_url, Validator,
};

fn day(y: i32, m: u32, d: u32) -> Date {
    Date::from_ymd(y, m, d).unwrap()
}

fn account(contact: ContactInfo) -> Account {
    Account {
        id: Some(7),
        service_id: 3,
        contact,
        last_change: day(2025, 3, 3),
        creation_date: day(2024, 8, 1),
        password: None,
        access_token: None,
        pin: None,
        passcode: None,
    }
}

fn err(s: &str) -> Result<(), String> {
    Err(s.to_string())
}

#[test]
fn email_check() {
    assert_eq!(validate_email("user@example.com"), Ok(()));
    assert_eq!(validate_email("  user@example.com \n"), Ok(()));
    assert_eq!(validate_email("not an email"), err("Enter a valid email address."));
    assert_eq!(validate_email(""), err("Enter a valid email address."));
}

#[test]
fn url_check() {
    assert_eq!(validate_url("https://github.com"), Ok(()));
    assert_eq!(validate_url(" https://github.com/login "), Ok(()));
    assert_eq!(validate_url("http://github.com"), err("Please use https for the URL."));
    assert_eq!(validate_url("github"), err("Enter a valid URL."));
    assert_eq!(validate_url(""), err("Enter a valid URL."));
}

#[test]
fn date_check() {
    assert_eq!(validate_date("2024-02-29"), Ok(()));
    assert_eq!(validate_date(" 2025-03-03 "), Ok(()));
    assert_eq!(validate_date("2023-02-29"), err("Incorrect date format - use YYYY-MM-DD."));
    assert_eq!(validate_date("03/03/2025"), err("Incorrect date format - use YYYY-MM-DD."));
}

#[test]
fn numeric_check() {
    assert_eq!(validate_numeric(""), Ok(()));
    assert_eq!(validate_numeric("1234"), Ok(()));
    assert_eq!(validate_numeric(" 1234 "), Ok(()));
    assert_eq!(validate_numeric(" "), err("Enter a valid string of digits."));
    assert_eq!(validate_numeric("12a4"), err("Enter a valid string of digits."));
    assert_eq!(validate_numeric("-5"), err("Enter a valid string of digits."));
    assert_eq!(validate_numeric("99999999999"), err("Enter a valid string of digits."));
}

#[test]
fn non_empty_and_white_space_checks() {
    assert_eq!(validate_non_empty("x"), Ok(()));
    assert_eq!(validate_non_empty(" \t"), err("This value must not be empty."));
    assert_eq!(validate_no_whitespace("s3cret!"), Ok(()));
    assert_eq!(validate_no_whitespace("two words"), err("This value must not contain whitespace."));
}

#[test]
fn validator_dispatches_to_its_check() {
    assert_eq!(Validator::Email.validate("a@b.co"), validate_email("a@b.co"));
    assert_eq!(Validator::Url.validate("http://x.org"), err("Please use https for the URL."));
    assert_eq!(Validator::Date.validate("2025-1-1x"), err("Incorrect date format - use YYYY-MM-DD."));
    assert_eq!(Validator::Numeric.validate("abc"), err("Enter a valid string of digits."));
    assert_eq!(Validator::NonEmpty.validate(""), err("This value must not be empty."));
    assert_eq!(Validator::NoWhitespace.validate("a b"), err("This value must not contain whitespace."));
}

#[test]
fn service_needs_a_name() {
    let s = Service { id: None, name: " ".to_string(), url: None };
    assert_eq!(validate_service(&s), err("The service must have a name."));
    let s = Service { id: None, name: "GitHub".to_string(), url: None };
    assert_eq!(validate_service(&s), Ok(()));
}

#[test]
fn account_needs_an_email_or_a_username() {
    let a = account(ContactInfo::Username("  ".to_string()));
    assert_eq!(validate_account(&a), err("Please submit either an email or a username."));
    let a = account(ContactInfo::Email("".to_string()));
    assert_eq!(validate_account(&a), err("Please submit either an email or a username."));
    let a = account(ContactInfo::Both("".to_string(), " ".to_string()));
    assert_eq!(validate_account(&a), err("Please submit either an email or a username."));
    let a = account(ContactInfo::Both("".to_string(), "me".to_string()));
    assert_eq!(validate_account(&a), Ok(()));
    let a = account(ContactInfo::Email("me@example.com".to_string()));
    assert_eq!(validate_account(&a), Ok(()));
}

#[test]
fn security_question_needs_both_parts() {
    let q = |question: &str, answer: &str| SecurityQuestion {
        id: None,
        account_id: 1,
        question: question.to_string(),
        answer: answer.to_string(),
    };
    assert_eq!(
        validate_security_question(&q("", " ")),
        err("This form is empty - please complete all fields.")
    );
    assert_eq!(validate_security_question(&q("", "blue")), err("Please fill out the question field."));
    assert_eq!(validate_security_question(&q("Colour?", "")), err("Please fill out the answer field."));
    assert_eq!(validate_security_question(&q("Colour?", "blue")), Ok(()));
}

#[test]
fn shortcut_needs_both_parts() {
    let s = |field: &str, sequence: &str| Shortcut {
        id: None,
        account_id: 1,
        field: field.to_string(),
        sequence: sequence.to_string(),
    };
    assert_eq!(validate_shortcut(&s("", "")), err("This form is empty - please complete all fields."));
    assert_eq!(validate_shortcut(&s("", "ctrl-p")), err("Please fill out the target field."));
    assert_eq!(validate_shortcut(&s("Password", "")), err("Please fill out the sequence field."));
    assert_eq!(validate_shortcut(&s("Password", "ctrl-p")), Ok(()));
}

#[test]
fn target_validation_and_newness() {
    let t = Target::Service(Service { id: None, name: "".to_string(), url: None });
    assert_eq!(t.validate(), err("The service must have a name."));
    assert!(t.is_new());
    let t = Target::Account(account(ContactInfo::Username("me".to_string())));
    assert_eq!(t.validate(), Ok(()));
    assert!(!t.is_new());
}

#[test]
fn details_of_an_account_in_order() {
    let mut a = account(ContactInfo::Both("me@example.com".to_string(), "me".to_string()));
    a.password = Some("hunter2".to_string());
    a.pin = Some(1234);
    let details = construct_detail_list(&a);
    let rows: Vec<(&str, &str, bool)> =
        details.iter().map(|d| (d.label.as_str(), d.value.as_str(), d.hidden)).collect();
    assert_eq!(
        rows,
        vec![
            ("Username", "me", false),
            ("Email", "me@example.com", false),
            ("Password", "hunter2", true),
            ("PIN", "1234", true),
            ("Last Change", "Monday, March 3rd, 2025", false),
            ("Account Created", "Thursday, August 1st, 2024", false),
        ]
    );
}

#[test]
fn details_of_a_bare_account() {
    let mut a = account(ContactInfo::Email("x@y.org".to_string()));
    a.access_token = Some("tok".to_string());
    a.passcode = Some(42);
    let details = construct_detail_list(&a);
    let labels: Vec<&str> = details.iter().map(|d| d.label.as_str()).collect();
    assert_eq!(labels, vec!["Email", "Access Token", "Passcode", "Last Change", "Account Created"]);
    assert_eq!(details[2].value, "42");
}

#[test]
fn detail_columns() {
    let a = account(ContactInfo::Username("me".to_string()));
    let details = construct_detail_list(&a);
    let (label, value) = format_detail_field(&details[0], 12);
    assert_eq!(label, "Username    ");
    assert_eq!(value, "me");
    let (label, value) = format_hidden_detail_field(&details[0], 3);
    assert_eq!(label, "Username");
    assert_eq!(value, "[*]");
}

fn summary(fields: &[passrat::models::Field]) -> Vec<(String, String, Option<Validator>, Applicator)> {
    fields
        .iter()
        .map(|f| (f.label.clone(), f.value.clone(), f.validator, f.applicator))
        .collect()
}

#[test]
fn service_form() {
    let s = Service { id: Some(1), name: "GitHub".to_string(), url: None };
    let f = s.fields();
    assert_eq!(
        summary(&f),
        vec![
            ("Service Name".to_string(), "GitHub".to_string(), Some(Validator::NonEmpty), Applicator::ServiceName),
            ("Url".to_string(), "".to_string(), Some(Validator::Url), Applicator::ServiceUrl),
        ]
    );
    assert!(f.iter().all(|x| x.error.is_none()));
}

#[test]
fn account_form() {
    let mut a = account(ContactInfo::Email("me@example.com".to_string()));
    a.pin = Some(7);
    let f = a.fields();
    let labels: Vec<&str> = f.iter().map(|x| x.label.as_str()).collect();
    assert_eq!(
        labels,
        vec!["Username", "Email", "Password", "Access Token", "PIN", "Passcode", "Last Change", "Account Created"]
    );
    let values: Vec<&str> = f.iter().map(|x| x.value.as_str()).collect();
    assert_eq!(values, vec!["", "me@example.com", "", "", "7", "", "2025-03-03", "2024-08-01"]);
    assert_eq!(f[0].validator, None);
    assert_eq!(f[2].validator, Some(Validator::NoWhitespace));
    assert_eq!(f[6].validator, Some(Validator::Date));
    assert_eq!(f[7].applicator, Applicator::AccountCreationDate);
}

#[test]
fn question_and_shortcut_forms() {
    let q = SecurityQuestion { id: None, account_id: 2, question: "Q".to_string(), answer: "A".to_string() };
    let f = q.fields();
    assert_eq!(
        summary(&f),
        vec![
            ("Question".to_string(), "Q".to_string(), Some(Validator::NonEmpty), Applicator::SqQuestion),
            ("Answer".to_string(), "A".to_string(), Some(Validator::NonEmpty), Applicator::SqAnswer),
        ]
    );
    let s = Shortcut { id: None, account_id: 2, field: "Password".to_string(), sequence: "ctrl-p".to_string() };
    let f = s.fields();
    assert_eq!(
        summary(&f),
        vec![("Sequence".to_string(), "ctrl-p".to_string(), Some(Validator::NonEmpty), Applicator::ShortcutSequence)]
    );
}
