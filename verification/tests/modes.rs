use passrat::date::Date;
use passrat::forms::Fields;
use passrat::keys::Key;
use passrat::models::{Account, ContactInfo, Service, Target};
use passrat::modes::edit::{Edit, EditAction, Input};
use passrat::modes::home::{Home, HomeAction};
use passrat::modes::lock::{Lock, LockAction};
use passrat::modes::view::{account_label, Pane, ShowHiddenFields, View, ViewAction};

fn service(id: Option<u32>, name: &str) -> Service {
    Service { id, name: name.to_string(), url: None }
}

fn day(y: i32, m: u32, d: u32) -> Date {
    Date::from_ymd(y, m, d).unwrap()
}

fn account(contact: ContactInfo) -> Account {
    Account {
        id: Some(1),
        service_id: 9,
        contact,
        last_change: day(2025, 3, 3),
        creation_date: day(2024, 8, 1),
        password: Some("hunter2".to_string()),
        access_token: None,
        pin: None,
        passcode: None,
    }
}

fn type_text(edit: &mut Edit, text: &str) {
    for c in text.chars() {
        assert!(edit.can_handle(Key::Char(c)));
        assert!(matches!(edit.handle_inputs(Key::Char(c)), EditAction::Nothing));
    }
}

#[test]
fn input_cursor_moves_and_edits() {
    let mut i = Input::from("abc".to_string());
    assert_eq!(i.index, 3);
    i.forward();
    assert_eq!(i.index, 3);
    i.backward();
    i.insert('X');
    assert_eq!((i.value.as_str(), i.index), ("abXc", 3));
    i.backspace();
    assert_eq!((i.value.as_str(), i.index), ("abc", 2));
    i.delete();
    assert_eq!((i.value.as_str(), i.index), ("ab", 2));
    i.delete();
    assert_eq!((i.value.as_str(), i.index), ("ab", 2));
    i.backward();
    i.backward();
    i.backward();
    assert_eq!(i.index, 0);
    i.backspace();
    assert_eq!((i.value.as_str(), i.index), ("ab", 0));
}

#[test]
fn input_cursor_counts_bytes() {
    let mut i = Input::from("héllo".to_string());
    assert_eq!(i.index, 6);
    for _ in 0..5 {
        i.backward();
    }
    assert_eq!(i.index, 1);
    i.delete();
    assert_eq!((i.value.as_str(), i.index), ("hllo", 1));
    i.insert('é');
    assert_eq!((i.value.as_str(), i.index), ("héllo", 2));
    i.backspace();
    assert_eq!((i.value.as_str(), i.index), ("hllo", 1));
    let mut j = Input::from("né".to_string());
    j.forward();
    assert_eq!(j.index, 3);
}

#[test]
fn typing_a_wide_character_then_backspace_gives_the_text_back() {
    let mut i = Input::from("ab".to_string());
    i.backward();
    i.insert('€');
    assert_eq!((i.value.as_str(), i.index), ("a€b", 2));
    i.backspace();
    assert_eq!((i.value.as_str(), i.index), ("ab", 1));
}

#[test]
fn edit_refuses_keys_inside_a_character() {
    let s = Service { id: None, name: "é".to_string(), url: None };
    let fields = s.fields();
    let mut e = Edit::new(Target::Service(s), fields);
    e.handle_inputs(Key::Char('e'));
    assert_eq!(e.input.as_ref().map(|i| i.index), Some(2));
    assert!(!e.can_handle(Key::Backspace));
    e.handle_inputs(Key::Left);
    assert!(!e.can_handle(Key::Char('x')));
    assert!(!e.can_handle(Key::Delete));
    assert!(e.can_handle(Key::Left));
    e.handle_inputs(Key::Left);
    assert!(e.can_handle(Key::Delete));
    e.handle_inputs(Key::Delete);
    assert_eq!(e.input.as_ref().map(|i| (i.value.as_str(), i.index)), Some(("", 0)));
}

#[test]
fn typing_then_backspace_gives_the_text_back() {
    let mut i = Input::from("pass".to_string());
    i.backward();
    let before = (i.value.clone(), i.index);
    i.insert('!');
    i.backspace();
    assert_eq!((i.value.clone(), i.index), before);
}

#[test]
fn default_input_is_empty() {
    let i = Input::default();
    assert_eq!((i.value.as_str(), i.index), ("", 0));
}

#[test]
fn lock_screen_keys() {
    let mut l = Lock::new(String::new(), "hello".to_string());
    assert_eq!(l.handle_inputs(Key::Char('p')), LockAction::Nothing);
    assert_eq!(l.handle_inputs(Key::Char('w')), LockAction::Nothing);
    assert_eq!(l.handle_inputs(Key::Char('x')), LockAction::Nothing);
    assert_eq!(l.handle_inputs(Key::Backspace), LockAction::Nothing);
    assert_eq!(l.input, "pw");
    assert_eq!(l.masked_input(), "**");
    assert_eq!(l.handle_inputs(Key::Up), LockAction::Nothing);
    assert_eq!(l.handle_inputs(Key::Enter), LockAction::SubmitPassword);
    assert_eq!(l.handle_inputs(Key::Esc), LockAction::Quit);
    assert_eq!(l.input, "pw");
    assert_eq!(l.alert, "hello");
    assert_eq!(Lock::new("é".to_string(), String::new()).masked_input(), "**");
    let mut empty = Lock::default();
    assert_eq!(empty.handle_inputs(Key::Backspace), LockAction::Nothing);
    assert_eq!(empty.input, "");
}

fn three_services() -> Vec<Service> {
    vec![service(Some(1), "GitHub"), service(Some(2), "gitlab"), service(Some(3), "Amazon")]
}

fn names(h: &Home) -> Vec<String> {
    h.shown_names()
}

#[test]
fn home_filter_is_case_insensitive() {
    let mut h = Home::new(three_services());
    assert!(!h.shows_filter());
    assert!(matches!(h.handle_inputs(Key::Char('/')), HomeAction::Nothing));
    assert!(h.set_filter);
    for c in "GIT".chars() {
        h.handle_inputs(Key::Char(c));
    }
    assert_eq!(names(&h), vec!["GitHub".to_string(), "gitlab".to_string()]);
    h.handle_inputs(Key::Backspace);
    assert_eq!(h.filter, "GI");
    h.handle_inputs(Key::Enter);
    assert!(!h.set_filter);
    assert!(h.shows_filter());
    assert_eq!(names(&h), vec!["GitHub".to_string(), "gitlab".to_string()]);
    assert!(matches!(h.handle_inputs(Key::Char('j')), HomeAction::Nothing));
    match h.handle_inputs(Key::Enter) {
        HomeAction::View(s) => assert_eq!(s.name, "gitlab"),
        other => panic!("unexpected {other:?}"),
    }
    assert!(matches!(h.handle_inputs(Key::Esc), HomeAction::Nothing));
    assert_eq!(h.filter, "");
    assert_eq!(names(&h).len(), 3);
    assert!(matches!(h.handle_inputs(Key::Esc), HomeAction::Quit));
}

#[test]
fn home_escape_while_filtering_clears_it() {
    let mut h = Home::new(three_services());
    h.handle_inputs(Key::Char('/'));
    h.handle_inputs(Key::Char('a'));
    h.handle_inputs(Key::Esc);
    assert_eq!(h.filter, "");
    assert!(!h.set_filter);
}

#[test]
fn empty_filter_shows_every_service() {
    let h = Home::new(three_services());
    assert_eq!(h.shown_services().len(), 3);
}

#[test]
fn home_actions_on_the_selected_service() {
    let mut h = Home::new(three_services());
    match h.handle_inputs(Key::Char('y')) {
        HomeAction::Copy(t) => assert_eq!(t, "GitHub"),
        other => panic!("unexpected {other:?}"),
    }
    h.handle_inputs(Key::Down);
    h.handle_inputs(Key::Down);
    match h.handle_inputs(Key::Char('e')) {
        HomeAction::Edit(s) => assert_eq!((s.id, s.name.as_str()), (Some(3), "Amazon")),
        other => panic!("unexpected {other:?}"),
    }
    match h.handle_inputs(Key::Delete) {
        HomeAction::Delete(s) => assert_eq!(s.name, "Amazon"),
        other => panic!("unexpected {other:?}"),
    }
    match h.handle_inputs(Key::Char('n')) {
        HomeAction::Edit(s) => assert_eq!((s.id, s.name.as_str(), s.url.is_none()), (None, "", true)),
        other => panic!("unexpected {other:?}"),
    }
    h.handle_inputs(Key::Up);
    assert_eq!(h.services.state.selected, Some(1));
    assert!(matches!(h.handle_inputs(Key::Char('?')), HomeAction::Help));
    assert!(matches!(h.handle_inputs(Key::Char('h')), HomeAction::Help));
    assert!(matches!(h.handle_inputs(Key::Char('q')), HomeAction::Quit));
}

#[test]
fn home_with_no_services() {
    let mut h = Home::new(vec![]);
    assert!(matches!(h.handle_inputs(Key::Char('/')), HomeAction::Nothing));
    assert!(!h.set_filter);
    assert!(matches!(h.handle_inputs(Key::Enter), HomeAction::Nothing));
    assert!(matches!(h.handle_inputs(Key::Char('e')), HomeAction::Nothing));
    assert!(!h.can_handle(Key::Delete));
}

#[test]
fn home_refuses_a_selection_past_the_list() {
    let mut h = Home::new(three_services());
    h.services.state.selected = Some(7);
    assert!(!h.can_handle(Key::Enter));
    assert!(!h.can_handle(Key::Char('y')));
    assert!(h.can_handle(Key::Char('j')));
}

#[test]
fn show_hidden_fields_cycles() {
    let s = ShowHiddenFields::default();
    assert_eq!(s, ShowHiddenFields::Never);
    assert_eq!(s.next(), ShowHiddenFields::WhenSelected);
    assert_eq!(s.next().next(), ShowHiddenFields::Always);
    assert_eq!(s.next().next().next(), s);
    assert_eq!(ShowHiddenFields::WhenSelected.status_text(), "When Selected");
}

#[test]
fn account_labels() {
    assert_eq!(account_label(&account(ContactInfo::Email("e@x.org".to_string()))), "e@x.org");
    assert_eq!(account_label(&account(ContactInfo::Both("e@x.org".to_string(), "me".to_string()))), "me");
}

fn github_view() -> View {
    let s = Service { id: Some(9), name: "GitHub".to_string(), url: Some("https://github.com".to_string()) };
    View::new(
        &s,
        vec![
            account(ContactInfo::Both("me@x.org".to_string(), "me".to_string())),
            account(ContactInfo::Email("work@x.org".to_string())),
        ],
    )
}

#[test]
fn view_accounts_pane() {
    let mut v = github_view();
    assert_eq!(v.selected, Pane::Left);
    assert_eq!(v.header_lines(), (" GitHub ".to_string(), " https://github.com ".to_string()));
    match v.handle_inputs(Key::Char('y')) {
        ViewAction::Copy(t) => assert_eq!(t, "me"),
        other => panic!("unexpected {other:?}"),
    }
    v.handle_inputs(Key::Char('j'));
    match v.handle_inputs(Key::Char('y')) {
        ViewAction::Copy(t) => assert_eq!(t, "work@x.org"),
        other => panic!("unexpected {other:?}"),
    }
    match v.handle_inputs(Key::Char('n')) {
        ViewAction::Edit(a) => {
            assert_eq!((a.id, a.service_id), (None, 9));
            assert!(a.password.is_none());
        }
        other => panic!("unexpected {other:?}"),
    }
    match v.handle_inputs(Key::Delete) {
        ViewAction::Delete(a) => assert_eq!(account_label(&a), "work@x.org"),
        other => panic!("unexpected {other:?}"),
    }
    assert!(matches!(v.handle_inputs(Key::Esc), ViewAction::Return));
    assert!(matches!(v.handle_inputs(Key::Char('?')), ViewAction::Help));
}

#[test]
fn view_details_pane_and_secrets() {
    let mut v = github_view();
    v.refresh_details();
    assert_eq!(v.status_line(), " Show Hidden Fields: Never");
    let rows = v.detail_rows();
    assert_eq!(rows[0], (format!("{:<19}", "Username"), "me".to_string()));
    assert_eq!(rows[2], (format!("{:<19}", "Password"), "[*]".to_string()));
    v.handle_inputs(Key::Tab);
    assert_eq!(v.selected, Pane::Right);
    assert_eq!(v.details.state.selected, Some(0));
    v.handle_inputs(Key::Enter);
    assert_eq!(v.hide_sensitive, ShowHiddenFields::WhenSelected);
    assert_eq!(v.detail_rows()[2].1, "[*]");
    v.handle_inputs(Key::Down);
    v.handle_inputs(Key::Down);
    assert_eq!(v.detail_rows()[2].1, "hunter2");
    match v.handle_inputs(Key::Char('y')) {
        ViewAction::Copy(t) => assert_eq!(t, "hunter2"),
        other => panic!("unexpected {other:?}"),
    }
    v.handle_inputs(Key::Enter);
    assert_eq!(v.hide_sensitive, ShowHiddenFields::Always);
    v.handle_inputs(Key::Up);
    assert_eq!(v.detail_rows()[2].1, "hunter2");
    v.handle_inputs(Key::Left);
    assert_eq!(v.selected, Pane::Left);
    assert_eq!(v.details.state.selected, None);
}

#[test]
fn view_refuses_new_account_without_service_id() {
    let s = service(None, "Local");
    let v = View::new(&s, vec![]);
    assert!(!v.can_handle(Key::Char('n')));
    assert!(v.can_handle(Key::Char('q')));
}

#[test]
fn editing_a_service_name() {
    let s = service(Some(4), "GitHub");
    let fields = s.fields();
    let mut e = Edit::new(Target::Service(s), fields);
    assert!(matches!(e.handle_inputs(Key::Char('e')), EditAction::Nothing));
    assert_eq!(e.input.as_ref().map(|i| (i.value.as_str(), i.index)), Some(("GitHub", 6)));
    for _ in 0..6 {
        e.handle_inputs(Key::Backspace);
    }
    type_text(&mut e, "  ");
    e.handle_inputs(Key::Enter);
    assert_eq!(e.list[0].error.as_deref(), Some("This value must not be empty."));
    assert!(e.input.is_some());
    type_text(&mut e, "Forge ");
    e.handle_inputs(Key::Enter);
    assert!(e.input.is_none());
    assert_eq!(e.list[0].value, "Forge");
    assert_eq!(e.list[0].error, None);
    match e.handle_inputs(Key::Char('y')) {
        EditAction::Copy(t) => assert_eq!(t, "Forge"),
        other => panic!("unexpected {other:?}"),
    }
    match e.handle_inputs(Key::Enter) {
        EditAction::Submit(Target::Service(t)) => {
            assert_eq!((t.id, t.name.as_str()), (Some(4), "Forge"));
            assert_eq!(t.url.as_deref(), Some(""));
        }
        other => panic!("unexpected {other:?}"),
    }
    assert!(matches!(e.handle_inputs(Key::Esc), EditAction::Return));
}

#[test]
fn an_invalid_url_is_shown_on_its_field() {
    let s = service(None, "Site");
    let fields = s.fields();
    let mut e = Edit::new(Target::Service(s), fields);
    e.handle_inputs(Key::Down);
    e.handle_inputs(Key::Char('i'));
    type_text(&mut e, "http://site.example");
    e.handle_inputs(Key::Enter);
    assert_eq!(e.list[1].error.as_deref(), Some("Please use https for the URL."));
    e.handle_inputs(Key::Esc);
    assert!(e.input.is_none());
    assert_eq!(e.list[1].error, None);
    assert_eq!(e.list[1].value, "");
}

#[test]
fn submitting_a_blank_service_shows_the_record_error() {
    let s = service(None, "");
    let fields = s.fields();
    let mut e = Edit::new(Target::Service(s), fields);
    assert!(matches!(e.handle_inputs(Key::Enter), EditAction::Nothing));
    assert_eq!(e.error.as_deref(), Some("The service must have a name."));
}

#[test]
fn submitting_an_account_sets_today_as_last_change() {
    let a = account(ContactInfo::Username("me".to_string()));
    let fields = a.fields();
    let mut e = Edit::new(Target::Account(a), fields);
    match e.handle_inputs(Key::Enter) {
        EditAction::Submit(Target::Account(t)) => {
            let today = jiff::Zoned::now().date();
            assert_eq!(
                (t.last_change.year, t.last_change.month, t.last_change.day),
                (today.year() as i32, today.month() as u32, today.day() as u32)
            );
            assert_eq!(t.creation_date, day(2024, 8, 1));
            assert_eq!(t.password.as_deref(), Some("hunter2"));
        }
        other => panic!("unexpected {other:?}"),
    }
}

#[test]
fn paste_key_starts_an_empty_input_and_generated_password_fills_it() {
    let a = account(ContactInfo::Username("me".to_string()));
    let fields = a.fields();
    let mut e = Edit::new(Target::Account(a), fields);
    assert!(matches!(e.handle_inputs(Key::Char('p')), EditAction::Paste));
    assert_eq!(e.input.as_ref().map(|i| i.value.as_str()), Some(""));
    e.paste("pasted".to_string());
    assert_eq!(e.input.as_ref().map(|i| i.value.as_str()), Some("pasted"));
    e.handle_inputs(Key::Esc);
    e.handle_inputs(Key::Down);
    e.handle_inputs(Key::Down);
    assert_eq!(e.list[2].label, "Password");
    e.handle_inputs(Key::Char('P'));
    match &e.input {
        Some(i) => {
            assert!(!i.value.is_empty());
            assert_eq!(i.index, i.value.len());
        }
        None => assert!(e.error.is_some()),
    }
}

#[test]
fn generating_on_another_field_does_nothing() {
    let a = account(ContactInfo::Username("me".to_string()));
    let fields = a.fields();
    let mut e = Edit::new(Target::Account(a), fields);
    e.handle_inputs(Key::Char('P'));
    assert!(e.input.is_none());
}

#[test]
fn edit_refuses_enter_on_an_unwritable_form() {
    let a = account(ContactInfo::Username("me".to_string()));
    let mut fields = a.fields();
    fields[6].value = "not a date".to_string();
    let e = Edit::new(Target::Account(a), fields);
    assert!(!e.can_handle(Key::Enter));
    let r = e.apply_fields();
    assert!(r.unwrap_err().starts_with("Invalid date format: "));
}
