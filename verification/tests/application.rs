use passrat::forms::Fields;
use passrat::modes::edit::Edit;
use passrat::app::{after_submit, App, LoginOutcome, Mode, Request};
use passrat::confirm_modal::Modal;
use passrat::date::Date;
use passrat::db::{AccountColumns, ServiceColumns};
use passrat::keys::Key;
use passrat::list_state::ListState;
use passrat::models::{Account, ContactInfo, SecurityQuestion, Service, Target};

fn service(id: Option<u32>, name: &str) -> Service {
    Service { id, name: name.to_string(), url: Some("https://x.example".to_string()) }
}

fn day(y: i32, m: u32, d: u32) -> Date {
    Date::from_ymd(y, m, d).unwrap()
}

fn account(contact: ContactInfo) -> Account {
    Account {
        id: Some(5),
        service_id: 2,
        contact,
        last_change: day(2025, 3, 3),
        creation_date: day(2024, 8, 1),
        password: Some("pw".to_string()),
        access_token: None,
        pin: Some(12),
        passcode: None,
    }
}

fn logged_in(list: Vec<Service>) -> App {
    let mut app = App::new();
    app.login_result(LoginOutcome::Opened(list));
    app
}

#[test]
fn lock_screen_submits_the_passphrase() {
    let mut app = App::new();
    assert!(matches!(app.mode, Mode::Lock(_)));
    for c in "s3cret".chars() {
        assert!(matches!(app.handle_key_events(Key::Char(c)), Request::Nothing));
    }
    app.handle_key_events(Key::Backspace);
    match app.handle_key_events(Key::Enter) {
        Request::SubmitPassword(p) => assert_eq!(p, "s3cre"),
        other => panic!("unexpected {other:?}"),
    }
    assert!(!app.exit);
    app.handle_key_events(Key::Esc);
    assert!(app.exit);
}

#[test]
fn login_outcomes() {
    let mut app = App::new();
    app.login_result(LoginOutcome::WrongPassword);
    match &app.mode {
        Mode::Lock(l) => assert_eq!((l.input.as_str(), l.alert.as_str()), ("", "Incorrect password - please try again.")),
        other => panic!("unexpected {other:?}"),
    }
    assert!(app.should_clear);
    let mut app = App::new();
    app.login_result(LoginOutcome::ListFailed);
    match &app.mode {
        Mode::Lock(l) => assert_eq!(l.alert, "Login error - please try again"),
        other => panic!("unexpected {other:?}"),
    }
    assert!(!app.should_clear);
    app.login_result(LoginOutcome::Created);
    match &app.mode {
        Mode::Lock(l) => assert_eq!(l.alert, "Database created - please enter passphrase again."),
        other => panic!("unexpected {other:?}"),
    }
    let app = logged_in(vec![service(Some(1), "GitHub")]);
    match &app.mode {
        Mode::Home(h) => assert_eq!(h.services.list.len(), 1),
        other => panic!("unexpected {other:?}"),
    }
}

#[test]
fn opening_a_service_asks_for_its_accounts() {
    let mut app = logged_in(vec![service(Some(1), "GitHub"), service(None, "Local")]);
    match app.handle_key_events(Key::Enter) {
        Request::OpenService(s, id) => assert_eq!((s.name.as_str(), id), ("GitHub", 1)),
        other => panic!("unexpected {other:?}"),
    }
    app.handle_key_events(Key::Down);
    match app.handle_key_events(Key::Char('l')) {
        Request::Fail(m) => {
            assert_eq!(m, "Unable to get service's account list without a row id for the service.")
        }
        other => panic!("unexpected {other:?}"),
    }
}

#[test]
fn a_selection_past_the_list_fails() {
    let mut app = logged_in(vec![service(Some(1), "GitHub")]);
    if let Mode::Home(h) = &mut app.mode {
        h.services.state.selected = Some(4);
    }
    match app.handle_key_events(Key::Char('e')) {
        Request::Fail(m) => assert_eq!(m, "Index not found in list"),
        other => panic!("unexpected {other:?}"),
    }
    assert!(matches!(app.mode, Mode::Home(_)));
}

#[test]
fn editing_a_new_service_and_going_back() {
    let mut app = logged_in(vec![]);
    assert!(matches!(app.handle_key_events(Key::Char('n')), Request::Nothing));
    match &app.mode {
        Mode::Edit(e) => {
            assert!(matches!(&e.target, Target::Service(s) if s.id.is_none()));
            assert_eq!(e.list.len(), 2);
            assert_eq!(e.state.selected, Some(0));
        }
        other => panic!("unexpected {other:?}"),
    }
    assert!(matches!(app.handle_key_events(Key::Char('p')), Request::Paste));
    app.paste("Pasted".to_string());
    match &app.mode {
        Mode::Edit(e) => assert_eq!(e.input.as_ref().map(|i| i.value.as_str()), Some("Pasted")),
        other => panic!("unexpected {other:?}"),
    }
    app.handle_key_events(Key::Enter);
    match app.handle_key_events(Key::Enter) {
        Request::Submit(Target::Service(s)) => assert_eq!(s.name, "Pasted"),
        other => panic!("unexpected {other:?}"),
    }
    assert!(app.submit_failed("UNIQUE constraint failed".to_string()));
    match &app.mode {
        Mode::Edit(e) => assert_eq!(e.error.as_deref(), Some("UNIQUE constraint failed")),
        other => panic!("unexpected {other:?}"),
    }
    assert!(matches!(app.handle_key_events(Key::Char('q')), Request::ShowServices));
}

#[test]
fn view_mode_through_the_application() {
    let mut app = logged_in(vec![service(Some(2), "GitHub")]);
    let s = service(Some(2), "GitHub");
    app.enter_view(&s, vec![account(ContactInfo::Username("me".to_string()))]);
    match app.handle_key_events(Key::Char('y')) {
        Request::Copy(t) => assert_eq!(t, "me"),
        other => panic!("unexpected {other:?}"),
    }
    match app.handle_key_events(Key::Delete) {
        Request::DeleteAccount(a) => assert_eq!(a.id, Some(5)),
        other => panic!("unexpected {other:?}"),
    }
    app.handle_key_events(Key::Char('e'));
    match &app.mode {
        Mode::Edit(e) => {
            assert!(matches!(&e.target, Target::Account(a) if a.id == Some(5)));
            assert_eq!(e.list.len(), 8);
            assert_eq!(e.list[4].value, "12");
        }
        other => panic!("unexpected {other:?}"),
    }
    app.enter_view(&service(None, "Local"), vec![]);
    match app.handle_key_events(Key::Char('n')) {
        Request::Fail(m) => assert_eq!(m, "No service id found"),
        other => panic!("unexpected {other:?}"),
    }
    assert!(matches!(app.handle_key_events(Key::Esc), Request::ShowServices));
}

#[test]
fn help_screen_keys() {
    let mut app = logged_in(vec![]);
    app.handle_key_events(Key::Char('?'));
    assert!(matches!(app.mode, Mode::Help));
    assert!(matches!(app.handle_key_events(Key::Char('x')), Request::Nothing));
    assert!(matches!(app.handle_key_events(Key::Esc), Request::ShowServices));
    assert!(!app.exit);
    app.handle_key_events(Key::Char('q'));
    assert!(app.exit);
}

#[test]
fn what_to_load_after_a_save() {
    assert!(matches!(
        after_submit(&Target::Service(service(Some(3), "A"))),
        Request::OpenService(s, 3) if s.name == "A"
    ));
    assert!(matches!(after_submit(&Target::Service(service(None, "A"))), Request::ShowServices));
    assert!(matches!(
        after_submit(&Target::Account(account(ContactInfo::Username("u".to_string())))),
        Request::OpenServiceById(2)
    ));
    let q = SecurityQuestion { id: None, account_id: 1, question: "q".to_string(), answer: "a".to_string() };
    assert!(matches!(after_submit(&Target::SecurityQuestion(q)), Request::ShowServices));
}

#[test]
fn submit_failure_outside_edit_mode() {
    let mut app = logged_in(vec![]);
    assert!(!app.submit_failed("x".to_string()));
    assert!(matches!(app.mode, Mode::Home(_)));
}

#[test]
fn list_state_moves() {
    let mut s = ListState::default();
    assert_eq!(s.selected(), None);
    s.select_next();
    assert_eq!(s.selected(), Some(0));
    s.select_next();
    s.select_previous();
    s.select_previous();
    assert_eq!(s.selected(), Some(0));
    s.select(None);
    s.select_previous();
    assert_eq!(s.selected(), Some(usize::MAX));
    s.select_next();
    assert_eq!(s.selected(), Some(usize::MAX));
    s.select_first();
    assert_eq!(s.selected(), Some(0));
}

#[test]
fn empty_confirmation_box() {
    assert_eq!(Modal::default().text(), "");
}

#[test]
fn service_row_round_trip() {
    let s = service(Some(8), "GitHub");
    let back = Service::from_columns(s.to_columns());
    assert_eq!((back.id, back.name.as_str(), back.url.as_deref()), (Some(8), "GitHub", Some("https://x.example")));
    let cols = ServiceColumns { id: Some(1), name: "n".to_string(), url: Some("".to_string()) };
    assert_eq!(Service::from_columns(cols).url, None);
}

#[test]
fn account_row_round_trip() {
    let a = account(ContactInfo::Both("me@x.org".to_string(), "me".to_string()));
    let cols = a.to_columns();
    assert_eq!(cols.username.as_deref(), Some("me"));
    assert_eq!(cols.email.as_deref(), Some("me@x.org"));
    assert_eq!(cols.last_change, "2025-03-03");
    let back = Account::from_columns(cols).unwrap();
    assert_eq!(format!("{back:?}"), format!("{a:?}"));
}

#[test]
fn account_row_with_empty_texts() {
    let cols = AccountColumns {
        id: Some(1),
        service_id: 2,
        username: Some("me".to_string()),
        email: Some("".to_string()),
        password: Some("".to_string()),
        access_token: None,
        last_change: "2024-01-02".to_string(),
        creation_date: "2023-12-31".to_string(),
        pin: None,
        passcode: Some(77),
    };
    let a = Account::from_columns(cols).unwrap();
    assert!(matches!(&a.contact, ContactInfo::Username(u) if u == "me"));
    assert_eq!(a.password, None);
    assert_eq!(a.last_change, day(2024, 1, 2));
    assert_eq!(a.creation_date, day(2023, 12, 31));
    assert_eq!(a.passcode, Some(77));
}

#[test]
fn account_row_with_a_bad_date() {
    let cols = AccountColumns {
        id: None,
        service_id: 2,
        username: None,
        email: None,
        password: None,
        access_token: None,
        last_change: "2024-01-02".to_string(),
        creation_date: "12/31/2023".to_string(),
        pin: None,
        passcode: None,
    };
    let e = Account::from_columns(cols).unwrap_err();
    assert_eq!(e.column, 7);
    assert!(!e.message.is_empty());
    let (u, em) = ContactInfo::Email("e@x.org".to_string()).to_columns();
    assert_eq!((u.as_str(), em.as_str()), ("", "e@x.org"));
}

#[test]
fn contact_from_options() {
    assert!(matches!(
        ContactInfo::from_options(Some("e".to_string()), Some("u".to_string())),
        ContactInfo::Both(e, u) if e == "e" && u == "u"
    ));
    assert!(matches!(ContactInfo::from_options(Some("e".to_string()), None), ContactInfo::Email(e) if e == "e"));
    assert!(matches!(ContactInfo::from_options(None, Some("u".to_string())), ContactInfo::Username(u) if u == "u"));
    assert!(matches!(ContactInfo::from_options(None, None), ContactInfo::Username(u) if u.is_empty()));
}

#[test]
fn new_account_is_dated_today() {
    let a = Account::new(4);
    let today = chrono::Local::now().date_naive();
    let d = Date::from_ymd(
        chrono::Datelike::year(&today),
        chrono::Datelike::month(&today),
        chrono::Datelike::day(&today),
    )
    .unwrap();
    assert_eq!((a.service_id, a.id, a.last_change, a.creation_date), (4, None, d, d));
    assert!(matches!(&a.contact, ContactInfo::Username(u) if u.is_empty()));
}

#[test]
fn account_row_round_trip_with_a_year_before_zero() {
    let mut a = account(ContactInfo::Username("me".to_string()));
    a.last_change = day(-1, 2, 3);
    a.creation_date = day(9999, 12, 31);
    let cols = a.to_columns();
    assert_eq!(cols.last_change, "-0001-02-03");
    let back = Account::from_columns(cols).unwrap();
    assert_eq!(format!("{back:?}"), format!("{a:?}"));
}

#[test]
fn account_form_round_trip() {
    let mut a = account(ContactInfo::Both("me@x.org".to_string(), "me".to_string()));
    a.access_token = Some("tok".to_string());
    a.passcode = Some(9);
    let e = Edit::new(Target::Account(a.duplicate()), a.fields());
    let back = e.apply_fields().unwrap();
    assert_eq!(format!("{back:?}"), format!("{:?}", Target::Account(a)));
}
