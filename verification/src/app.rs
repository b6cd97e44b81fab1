//! The application's modes and how a key press moves between them. The work that needs the
//! vault, the clipboard or the terminal is asked of the caller as a `Request`; the caller
//! does it and reports back through the `enter_*`, `paste`, `login_result` and
//! `submit_failed` methods.
use vstd::prelude::*;
use vstd::view::View as _;
use crate::forms::{account_fields, service_fields, Fields};
use crate::keys::Key;
use crate::list_state::ListState;
use crate::models::{fields_view, Account, Service, Target};
use crate::modes::edit::{edit_step, Edit, EditAction};
use crate::modes::home::{home_step, Home, HomeAction};
use crate::modes::lock::{Lock, LockAction};
use crate::modes::view::{view_step, Pane, ShowHiddenFields, View, ViewAction};
use crate::text::owned;

pub use crate::modes::home::ServiceList;

verus! {

/// The screen the application shows.
#[derive(Debug)]
pub enum Mode {
    Lock(Lock),
    Home(Home),
    View(View),
    Edit(Edit),
    Help,
    Cuts,
}

/// The application: whether it is to stop, the screen it shows, the services, and whether
/// the terminal is to be cleared before the next draw.
#[derive(Debug)]
pub struct App {
    pub exit: bool,
    pub mode: Mode,
    pub services: ServiceList,
    pub should_clear: bool,
}

/// The work that a key press leaves to the caller.
#[derive(Debug)]
pub enum Request {
    /// Nothing more to do.
    Nothing,
    /// Open the vault with this passphrase and report with `login_result`.
    SubmitPassword(String),
    /// Load the accounts of this service (with this row id) and call `enter_view`.
    OpenService(Service, u32),
    /// Load the service with this row id and its accounts and call `enter_view`.
    OpenServiceById(u32),
    /// Load the services and call `enter_home`.
    ShowServices,
    /// Delete this service (ignoring a failure), then load the services and call `enter_home`.
    DeleteService(Service),
    /// Delete this account (ignoring a failure), then load its service and the service's
    /// accounts and call `enter_view`.
    DeleteAccount(Account),
    /// Put this text on the clipboard.
    Copy(String),
    /// Read the clipboard and call `paste` with its text.
    Paste,
    /// Save this record; on failure call `submit_failed`, on success do what
    /// `after_submit` says.
    Submit(Target),
    /// The state does not allow the key (a selection that points past its list, a service
    /// without a row id, a form that cannot be written): stop with this message.
    Fail(String),
}

/// How opening the vault went.
#[derive(Debug)]
pub enum LoginOutcome {
    /// The vault opened and holds these services.
    Opened(Vec<Service>),
    /// The vault opened but its services could not be read.
    ListFailed,
    /// The vault did not open with that passphrase.
    WrongPassword,
    /// There was no vault; a new one was created.
    Created,
}

/// The mode after a login: the home screen over the services, or the lock screen with an
/// empty passphrase and a message.
pub open spec fn login_mode(outcome: LoginOutcome, mode: Mode) -> bool {
    match outcome {
        LoginOutcome::Opened(list) => mode matches Mode::Home(h) && h.services.list == list
            && h.services.state == (ListState { offset: 0, selected: Some(0usize) })
            && h.filter@.len() == 0 && !h.set_filter,
        LoginOutcome::ListFailed => mode matches Mode::Lock(l) && l.input@.len() == 0 && l.alert@
            == "Login error - please try again"@,
        LoginOutcome::WrongPassword => mode matches Mode::Lock(l) && l.input@.len() == 0
            && l.alert@ == "Incorrect password - please try again."@,
        LoginOutcome::Created => mode matches Mode::Lock(l) && l.input@.len() == 0 && l.alert@
            == "Database created - please enter passphrase again."@,
    }
}

/// Whether the current mode accepts the key (see each mode's `accepts`).
pub open spec fn mode_accepts(mode: Mode, key: Key) -> bool {
    match mode {
        Mode::Home(h) => h.accepts(key),
        Mode::View(v) => v.accepts(key),
        Mode::Edit(e) => e.accepts(key),
        _ => true,
    }
}

impl App {
    /// The application at start: the lock screen, nothing loaded.
    pub fn new() -> (r: Self)
        ensures
            !r.exit,
            r.mode matches Mode::Lock(l) && l.input@.len() == 0 && l.alert@.len() == 0,
            r.services.list@.len() == 0,
            r.services.state == (ListState { offset: 0, selected: None }),
            !r.should_clear,
    {
        Self {
            exit: false,
            mode: Mode::Lock(Lock::default()),
            services: ServiceList { list: Vec::new(), state: ListState::default() },
            should_clear: false,
        }
    }

    /// Shows the home screen over `list`.
    pub fn enter_home(&mut self, list: Vec<Service>)
        ensures
            final(self).mode matches Mode::Home(h) && h.services.list == list
                && h.services.state == (ListState { offset: 0, selected: Some(0usize) })
                && h.filter@.len() == 0 && !h.set_filter,
            final(self).exit == old(self).exit,
            final(self).should_clear == old(self).should_clear,
    {
        self.mode = Mode::Home(Home::new(list));
    }

    /// Shows view mode over `service` and its accounts `list`.
    pub fn enter_view(&mut self, service: &Service, list: Vec<Account>)
        ensures
            final(self).mode matches Mode::View(v) && v.service == *service && v.accounts.list
                == list && v.accounts.state == (ListState { offset: 0, selected: Some(0usize) })
                && v.details.list@.len() == 0 && v.details.state == (ListState {
                offset: 0,
                selected: None,
            }) && v.selected == Pane::Left && v.hide_sensitive == ShowHiddenFields::Never,
            final(self).exit == old(self).exit,
            final(self).should_clear == old(self).should_clear,
    {
        self.mode = Mode::View(View::new(service, list));
    }

    /// Puts pasted text into the field being typed, in edit mode.
    pub fn paste(&mut self, text: String)
        ensures
            final(self).exit == old(self).exit,
            match old(self).mode {
                Mode::Edit(e) => final(self).mode matches Mode::Edit(n) && n.list == e.list
                    && n.target == e.target && n.error == e.error && n.state == e.state
                    && match e.input {
                    Some(i) => n.input matches Some(j) && j.value == text && j.index == i.index,
                    None => n.input is None,
                },
                _ => final(self).mode == old(self).mode,
            },
    {
        if let Mode::Edit(edit) = &mut self.mode {
            edit.paste(text);
        }
    }

    /// Records how opening the vault went (see `login_mode`); a wrong passphrase also has
    /// the terminal cleared.
    pub fn login_result(&mut self, outcome: LoginOutcome)
        ensures
            login_mode(outcome, final(self).mode),
            final(self).exit == old(self).exit,
            final(self).should_clear == (old(self).should_clear || outcome is WrongPassword),
    {
        match outcome {
            LoginOutcome::Opened(list) => {
                self.mode = Mode::Home(Home::new(list));
            },
            LoginOutcome::ListFailed => {
                self.mode = Mode::Lock(
                    Lock::new(String::new(), owned("Login error - please try again")),
                );
            },
            LoginOutcome::WrongPassword => {
                self.mode = Mode::Lock(
                    Lock::new(String::new(), owned("Incorrect password - please try again.")),
                );
                self.should_clear = true;
            },
            LoginOutcome::Created => {
                self.mode = Mode::Lock(
                    Lock::new(
                        String::new(),
                        owned("Database created - please enter passphrase again."),
                    ),
                );
            },
        }
    }

    /// Shows a failed save in the edit form; `false` where the application is no longer in
    /// edit mode (the caller then goes on as after a save).
    pub fn submit_failed(&mut self, message: String) -> (r: bool)
        ensures
            r == (old(self).mode is Edit),
            final(self).exit == old(self).exit,
            match old(self).mode {
                Mode::Edit(e) => final(self).mode matches Mode::Edit(n) && n.error == Some(message)
                    && n.list == e.list && n.target == e.target && n.input == e.input && n.state
                    == e.state,
                _ => final(self).mode == old(self).mode,
            },
    {
        if let Mode::Edit(edit) = &mut self.mode {
            edit.error = Some(message);
            true
        } else {
            false
        }
    }

    /// Handles a key press: the current mode reacts, and what it asks for is either done
    /// here (changing mode, quitting) or handed back as a `Request` (see `key_step`).
    pub fn handle_key_events(&mut self, event: Key) -> (r: Request)
        ensures
            key_step(*old(self), event, *final(self), r),
    {
        match &mut self.mode {
            Mode::Lock(lock) => {
                match lock.handle_inputs(event) {
                    LockAction::Quit => {
                        self.exit = true;
                        Request::Nothing
                    },
                    LockAction::SubmitPassword => Request::SubmitPassword(lock.input.clone()),
                    LockAction::Nothing => Request::Nothing,
                }
            },
            Mode::Home(home) => {
                if !home.can_handle(event) {
                    return Request::Fail(
                        if home.services.state.selected.is_none() {
                            owned("No service is selected.")
                        } else {
                            owned("Index not found in list")
                        },
                    );
                }
                match home.handle_inputs(event) {
                    HomeAction::View(service) => match service.id {
                        Some(id) => Request::OpenService(service, id),
                        None => Request::Fail(
                            owned(
                                "Unable to get service's account list without a row id for the service.",
                            ),
                        ),
                    },
                    HomeAction::Edit(service) => {
                        let fields = service.fields();
                        self.mode = Mode::Edit(Edit::new(Target::Service(service), fields));
                        Request::Nothing
                    },
                    HomeAction::Copy(text) => Request::Copy(text),
                    HomeAction::Quit => {
                        self.exit = true;
                        Request::Nothing
                    },
                    HomeAction::Help => {
                        self.mode = Mode::Help;
                        Request::Nothing
                    },
                    HomeAction::Delete(service) => Request::DeleteService(service),
                    HomeAction::Nothing => Request::Nothing,
                }
            },
            Mode::View(view) => {
                if !view.can_handle(event) {
                    return Request::Fail(
                        if event == Key::Char('n') && view.selected == Pane::Left {
                            owned("No service id found")
                        } else if view.selected == Pane::Right && event == Key::Char('y') {
                            if view.details.state.selected.is_none() {
                                owned("Failed to get selected detail.")
                            } else {
                                owned("Index out of range.")
                            }
                        } else {
                            owned("Index is out of range.")
                        },
                    );
                }
                match view.handle_inputs(event) {
                    ViewAction::Edit(account) => {
                        let fields = account.fields();
                        self.mode = Mode::Edit(Edit::new(Target::Account(account), fields));
                        Request::Nothing
                    },
                    ViewAction::Return => Request::ShowServices,
                    ViewAction::Copy(text) => Request::Copy(text),
                    ViewAction::Help => {
                        self.mode = Mode::Help;
                        Request::Nothing
                    },
                    ViewAction::Quit => {
                        self.exit = true;
                        Request::Nothing
                    },
                    ViewAction::Delete(account) => Request::DeleteAccount(account),
                    ViewAction::Nothing => Request::Nothing,
                }
            },
            Mode::Edit(edit) => {
                if !edit.can_handle(event) {
                    return Request::Fail(
                        if edit.input.is_none() && event == Key::Enter {
                            owned("Failed to apply fields.")
                        } else if edit.input.is_some() && event == Key::Enter {
                            owned("Failed to access field.")
                        } else if edit.input.is_some() && event != Key::Esc {
                            owned("Input cursor is outside the text or inside a character.")
                        } else if edit.input.is_none() && event == Key::Char('y') {
                            owned("Failed to index into list of fields.")
                        } else {
                            owned("Failed to index into list.")
                        },
                    );
                }
                match edit.handle_inputs(event) {
                    EditAction::Return => Request::ShowServices,
                    EditAction::Paste => Request::Paste,
                    EditAction::Quit => {
                        self.exit = true;
                        Request::Nothing
                    },
                    EditAction::Help => {
                        self.mode = Mode::Help;
                        Request::Nothing
                    },
                    EditAction::Copy(text) => Request::Copy(text),
                    EditAction::Nothing => Request::Nothing,
                    EditAction::Submit(target) => Request::Submit(target),
                }
            },
            Mode::Help => self.handle_help_inputs(event),
            Mode::Cuts => self.handle_shortcut_inputs(event),
        }
    }

    fn handle_help_inputs(&mut self, event: Key) -> (r: Request)
        ensures
            final(self).mode == old(self).mode,
            final(self).services == old(self).services,
            final(self).should_clear == old(self).should_clear,
            final(self).exit == (old(self).exit || event == Key::Char('q')),
            r is ShowServices <==> event == Key::Esc,
            r is Nothing <==> event != Key::Esc,
    {
        match event {
            Key::Char('q') => {
                self.exit = true;
                Request::Nothing
            },
            Key::Esc => Request::ShowServices,
            _ => Request::Nothing,
        }
    }

    fn handle_shortcut_inputs(&mut self, event: Key) -> (r: Request)
        ensures
            final(self).mode == old(self).mode,
            final(self).services == old(self).services,
            final(self).should_clear == old(self).should_clear,
            final(self).exit == (old(self).exit || event == Key::Char('q')),
            r is ShowServices <==> event == Key::Esc,
            r is Nothing <==> event != Key::Esc,
    {
        match event {
            Key::Char('q') => {
                self.exit = true;
                Request::Nothing
            },
            Key::Esc => Request::ShowServices,
            _ => Request::Nothing,
        }
    }
}

/// What to load after a record was saved: the services for a security question or a
/// shortcut and for a new service; the saved service's accounts for a service that has a row
/// id; the account's service and its accounts for an account.
pub fn after_submit(target: &Target) -> (r: Request)
    ensures
        match target {
            Target::Service(s) => match s.id {
                Some(id) => r matches Request::OpenService(t, i) && t == *s && i == id,
                None => r is ShowServices,
            },
            Target::Account(a) => r matches Request::OpenServiceById(i) && i == a.service_id,
            _ => r is ShowServices,
        },
{
    match target {
        Target::Shortcut(_) | Target::SecurityQuestion(_) => Request::ShowServices,
        Target::Service(service) => match service.id {
            Some(id) => Request::OpenService(service.duplicate(), id),
            None => Request::ShowServices,
        },
        Target::Account(account) => Request::OpenServiceById(account.service_id),
    }
}

/// What the application does with the home screen's action `a`, the home screen being `h`
/// afterwards.
pub open spec fn home_outcome(a: HomeAction, h: Home, exit: bool, after: App, r: Request) -> bool {
    match a {
        HomeAction::View(s) => after.mode == Mode::Home(h) && after.exit == exit && match s.id {
            Some(id) => r == Request::OpenService(s, id),
            None => r is Fail,
        },
        HomeAction::Edit(s) => after.exit == exit && r is Nothing && (after.mode matches Mode::Edit(e)
            && e.target == Target::Service(s) && fields_view(e.list@) == service_fields(s)
            && e.state == (ListState { offset: 0, selected: Some(0usize) }) && e.input is None && e.error is None),
        HomeAction::Copy(t) => after.mode == Mode::Home(h) && after.exit == exit && r
            == Request::Copy(t),
        HomeAction::Quit => after.mode == Mode::Home(h) && after.exit && r is Nothing,
        HomeAction::Help => after.mode == Mode::Help && after.exit == exit && r is Nothing,
        HomeAction::Delete(s) => after.mode == Mode::Home(h) && after.exit == exit && r
            == Request::DeleteService(s),
        HomeAction::Nothing => after.mode == Mode::Home(h) && after.exit == exit && r is Nothing,
    }
}

/// What the application does with view mode's action `a`, view mode being `v` afterwards.
pub open spec fn view_outcome(a: ViewAction, v: View, exit: bool, after: App, r: Request) -> bool {
    match a {
        ViewAction::Edit(acc) => after.exit == exit && r is Nothing && (after.mode matches Mode::Edit(
            e,
        ) && e.target == Target::Account(acc) && fields_view(e.list@) == account_fields(acc)
            && e.state == (ListState { offset: 0, selected: Some(0usize) }) && e.input is None && e.error is None),
        ViewAction::Return => after.mode == Mode::View(v) && after.exit == exit && r is ShowServices,
        ViewAction::Copy(t) => after.mode == Mode::View(v) && after.exit == exit && r
            == Request::Copy(t),
        ViewAction::Help => after.mode == Mode::Help && after.exit == exit && r is Nothing,
        ViewAction::Quit => after.mode == Mode::View(v) && after.exit && r is Nothing,
        ViewAction::Delete(acc) => after.mode == Mode::View(v) && after.exit == exit && r
            == Request::DeleteAccount(acc),
        ViewAction::Nothing => after.mode == Mode::View(v) && after.exit == exit && r is Nothing,
    }
}

/// What the application does with edit mode's action `a`, edit mode being `e` afterwards.
pub open spec fn edit_outcome(a: EditAction, e: Edit, exit: bool, after: App, r: Request) -> bool {
    match a {
        EditAction::Help => after.mode == Mode::Help && after.exit == exit && r is Nothing,
        EditAction::Quit => after.mode == Mode::Edit(e) && after.exit && r is Nothing,
        _ => after.mode == Mode::Edit(e) && after.exit == exit && match a {
            EditAction::Return => r is ShowServices,
            EditAction::Paste => r is Paste,
            EditAction::Copy(t) => r == Request::Copy(t),
            EditAction::Submit(t) => r == Request::Submit(t),
            _ => r is Nothing,
        },
    }
}

/// The application's response to a key.
/// In a mode that does not accept the key the state stays and the request is `Fail`.
/// Otherwise the mode reacts as its own step says (`lock_step`, `home_step`, `view_step`,
/// `edit_step`), and its action is carried out: a quit stops the application; help shows the
/// help screen; editing a service or an account opens an edit form over it with its fields;
/// a submitted passphrase, opening a service, returning, deleting, copying, pasting and
/// saving are handed back as requests. On the help and shortcut screens `q` stops and Esc
/// asks for the services.
pub open spec fn key_step(before: App, key: Key, after: App, r: Request) -> bool {
    &&& after.services == before.services
    &&& after.should_clear == before.should_clear
    &&& if !mode_accepts(before.mode, key) {
        r is Fail && after.mode == before.mode && after.exit == before.exit
    } else {
        match before.mode {
            Mode::Lock(l) => after.mode matches Mode::Lock(n) && n.alert == l.alert && match key {
                Key::Esc => after.exit && r is Nothing && n.input@ == l.input@,
                Key::Enter => after.exit == before.exit && n.input@ == l.input@ && (
                r matches Request::SubmitPassword(p) && p@ == l.input@),
                _ => after.exit == before.exit && r is Nothing && (n.input@, LockAction::Nothing)
                    == crate::modes::lock::lock_step(l.input@, key),
            },
            Mode::Home(h) => exists|h2: Home, a: HomeAction|
                #[trigger] home_step(h, key, h2, a) && h2.services.list == h.services.list
                    && home_outcome(a, h2, before.exit, after, r),
            Mode::View(v) => exists|v2: View, a: ViewAction|
                #[trigger] view_step(v, key, v2, a) && view_outcome(a, v2, before.exit, after, r),
            Mode::Edit(e) => exists|e2: Edit, a: EditAction|
                #[trigger] edit_step(e, key, e2, a) && edit_outcome(a, e2, before.exit, after, r),
            Mode::Help | Mode::Cuts => after.mode == before.mode && after.exit == (before.exit
                || key == Key::Char('q')) && (r is ShowServices <==> key == Key::Esc) && (
            r is Nothing <==> key != Key::Esc),
        }
    }
}

} // verus!
