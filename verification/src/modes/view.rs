//! The view mode: the accounts of one service and the details of the selected account.
use vstd::prelude::*;
use vstd::view::View as _;
use crate::helpers::{account_details, construct_detail_list, details_view, format_detail_field, format_hidden_detail_field};
use crate::keys::Key;
use crate::list_state::ListState;
use crate::models::{Account, ContactInfo, ContactModel, Service};
use crate::text::{concat2, owned, pad_right};

verus! {

/// One line of the account details: its label, its text, and whether it is secret.
#[derive(Debug)]
pub struct Detail {
    pub label: String,
    pub value: String,
    pub hidden: bool,
}

/// A detail line as a mathematical value.
pub struct DetailModel {
    pub label: Seq<char>,
    pub value: Seq<char>,
    pub hidden: bool,
}

impl vstd::view::View for Detail {
    type V = DetailModel;

    open spec fn view(&self) -> DetailModel {
        DetailModel { label: self.label@, value: self.value@, hidden: self.hidden }
    }
}

/// The view mode: the service, its accounts, the details of the selected account, which
/// pane has the focus, and when secrets are shown.
#[derive(Debug)]
pub struct View {
    pub service: Service,
    pub accounts: AccountList,
    pub details: DetailList,
    pub selected: Pane,
    pub hide_sensitive: ShowHiddenFields,
}

/// The accounts of the service and their selection.
#[derive(Debug)]
pub struct AccountList {
    pub list: Vec<Account>,
    pub state: ListState,
}

/// The detail lines of the selected account and their selection.
#[derive(Debug)]
pub struct DetailList {
    pub list: Vec<Detail>,
    pub state: ListState,
}

/// What view mode asks of the application after a key.
#[derive(Debug)]
pub enum ViewAction {
    Edit(Account),
    Delete(Account),
    Copy(String),
    Return,
    Help,
    Quit,
    Nothing,
}

/// The pane that has the focus: the accounts on the left or the details on the right.
#[derive(Debug, Clone, Copy, PartialEq, Eq, Structural)]
pub enum Pane {
    Left,
    Right,
}

impl Default for Pane {
    fn default() -> (r: Pane)
        ensures
            r == Pane::Left,
    {
        Pane::Left
    }
}

/// When the values of secret details are shown.
#[derive(Debug, Clone, Copy, PartialEq, Eq, Structural)]
pub enum ShowHiddenFields {
    Always,
    WhenSelected,
    Never,
}

impl Default for ShowHiddenFields {
    fn default() -> (r: ShowHiddenFields)
        ensures
            r == ShowHiddenFields::Never,
    {
        ShowHiddenFields::Never
    }
}

/// The setting after the next press of Enter: Never, then When Selected, then Always, then
/// Never again.
pub open spec fn next_setting(s: ShowHiddenFields) -> ShowHiddenFields {
    match s {
        ShowHiddenFields::Never => ShowHiddenFields::WhenSelected,
        ShowHiddenFields::WhenSelected => ShowHiddenFields::Always,
        ShowHiddenFields::Always => ShowHiddenFields::Never,
    }
}

impl ShowHiddenFields {
    /// The next setting in the cycle.
    pub fn next(&self) -> (r: Self)
        ensures
            r == next_setting(*self),
    {
        match self {
            Self::Never => Self::WhenSelected,
            Self::WhenSelected => Self::Always,
            Self::Always => Self::Never,
        }
    }

    /// The setting's name as the status line shows it.
    pub fn status_text(&self) -> (r: String)
        ensures
            r@ == status_name(*self),
    {
        match self {
            Self::Always => owned("Always"),
            Self::WhenSelected => owned("When Selected"),
            Self::Never => owned("Never"),
        }
    }
}

/// The setting's name as the status line shows it.
pub open spec fn status_name(s: ShowHiddenFields) -> Seq<char> {
    match s {
        ShowHiddenFields::Always => "Always"@,
        ShowHiddenFields::WhenSelected => "When Selected"@,
        ShowHiddenFields::Never => "Never"@,
    }
}

/// Pressing Enter three times brings the setting back to where it was.
pub proof fn lemma_next_setting_cycles(s: ShowHiddenFields)
    ensures
        next_setting(next_setting(next_setting(s))) == s,
        next_setting(s) != s,
{
}

/// The text by which an account is listed: its username, or its email where it has none.
pub open spec fn account_label_text(c: ContactModel) -> Seq<char> {
    match c {
        ContactModel::Both(_, u) => u,
        ContactModel::Username(u) => u,
        ContactModel::Email(e) => e,
    }
}

/// The text by which an account is listed in view mode.
pub fn account_label(account: &Account) -> (r: String)
    ensures
        r@ == account_label_text(account.contact@),
{
    match &account.contact {
        ContactInfo::Both(_, username) | ContactInfo::Username(username) => username.clone(),
        ContactInfo::Email(email) => email.clone(),
    }
}

/// The selection moved one down, as `ListState::select_next` moves it.
pub open spec fn next_selected(s: ListState) -> ListState {
    ListState {
        selected: Some(
            match s.selected {
                Some(i) => if i == usize::MAX {
                    i
                } else {
                    (i + 1) as usize
                },
                None => 0,
            },
        ),
        ..s
    }
}

/// The selection moved one up, as `ListState::select_previous` moves it.
pub open spec fn previous_selected(s: ListState) -> ListState {
    ListState {
        selected: Some(
            match s.selected {
                Some(i) => if i == 0 {
                    0
                } else {
                    (i - 1) as usize
                },
                None => usize::MAX,
            },
        ),
        ..s
    }
}

impl View {
    /// The account under the selection, if the selection points at one.
    pub open spec fn selected_account(&self) -> Option<Account> {
        match self.accounts.state.selected {
            Some(i) => if i < self.accounts.list@.len() {
                Some(self.accounts.list@[i as int])
            } else {
                None
            },
            None => None,
        }
    }

    /// The keys that act on the selected account or detail find one where they need it
    /// (as they always do after the lists have been drawn), and `n` knows the service's row id.
    pub open spec fn accepts(&self, key: Key) -> bool {
        let account_ok = self.accounts.state.selected is Some ==> self.selected_account() is Some;
        match self.selected {
            Pane::Left => match key {
                Key::Char(c) => (c == 'e' || c == 'y' ==> account_ok) && (c == 'n'
                    ==> self.service.id is Some),
                Key::Delete => account_ok,
                _ => true,
            },
            Pane::Right => match key {
                Key::Char(c) => (c == 'e' ==> account_ok) && (c == 'y' ==> (
                self.details.list@.len() > 0 ==> (self.details.state.selected matches Some(i)
                    && i < self.details.list@.len()))),
                _ => true,
            },
        }
    }

    /// View mode over a service and its accounts, the first account selected, the focus on
    /// the accounts and secrets hidden.
    pub fn new(service: &Service, list: Vec<Account>) -> (r: Self)
        ensures
            r.service == *service,
            r.accounts.list == list,
            r.accounts.state == (ListState { offset: 0, selected: Some(0usize) }),
            r.details.list@.len() == 0,
            r.details.state == (ListState { offset: 0, selected: None }),
            r.selected == Pane::Left,
            r.hide_sensitive == ShowHiddenFields::Never,
    {
        let mut accounts = AccountList { list, state: ListState::default() };
        accounts.state.select_first();
        Self {
            service: service.duplicate(),
            accounts,
            details: DetailList { list: Vec::new(), state: ListState::default() },
            selected: Pane::default(),
            hide_sensitive: ShowHiddenFields::default(),
        }
    }

    /// Whether `key` may be handled now (see `accepts`).
    pub fn can_handle(&self, key: Key) -> (r: bool)
        ensures
            r == self.accepts(key),
    {
        let account_ok = match self.accounts.state.selected {
            Some(i) => i < self.accounts.list.len(),
            None => true,
        };
        match self.selected {
            Pane::Left => match key {
                Key::Char(c) => (!(c == 'e' || c == 'y') || account_ok) && (c != 'n'
                    || self.service.id.is_some()),
                Key::Delete => account_ok,
                _ => true,
            },
            Pane::Right => match key {
                Key::Char(c) => {
                    let details_ok = self.details.list.len() == 0 || match self.details.state.selected {
                        Some(i) => i < self.details.list.len(),
                        None => false,
                    };
                    (c != 'e' || account_ok) && (c != 'y' || details_ok)
                },
                _ => true,
            },
        }
    }

    fn get_selected_account(&self) -> (r: Account)
        requires
            self.selected_account() is Some,
        ensures
            self.selected_account() == Some(r),
    {
        let i = self.accounts.state.selected.unwrap();
        self.accounts.list[i].duplicate()
    }

    /// Handles a key in view mode (see `view_step`).
    pub fn handle_inputs(&mut self, event: Key) -> (r: ViewAction)
        requires
            old(self).accepts(event),
        ensures
            view_step(*old(self), event, *final(self), r),
    {
        if self.selected == Pane::Right {
            return self.handle_detail_inputs(event);
        }
        match event {
            Key::Char('q') | Key::Esc => ViewAction::Return,
            Key::Char('h') | Key::Char('?') => ViewAction::Help,
            Key::Char('j') | Key::Down => {
                self.accounts.state.select_next();
                ViewAction::Nothing
            },
            Key::Char('k') | Key::Up => {
                self.accounts.state.select_previous();
                ViewAction::Nothing
            },
            Key::Tab | Key::Right | Key::Char('l') => {
                self.selected = Pane::Right;
                self.details.state.select_first();
                ViewAction::Nothing
            },
            Key::Char('e') => {
                if self.accounts.state.selected().is_none() {
                    ViewAction::Nothing
                } else {
                    ViewAction::Edit(self.get_selected_account())
                }
            },
            Key::Char('n') => {
                let id = self.service.id.unwrap();
                ViewAction::Edit(Account::new(id))
            },
            Key::Delete => {
                if self.accounts.state.selected().is_none() {
                    ViewAction::Nothing
                } else {
                    ViewAction::Delete(self.get_selected_account())
                }
            },
            Key::Char('y') => {
                if self.accounts.state.selected().is_none() {
                    ViewAction::Nothing
                } else {
                    let account = self.get_selected_account();
                    match account.contact {
                        ContactInfo::Email(email) => ViewAction::Copy(email),
                        ContactInfo::Both(_, username) | ContactInfo::Username(username) => {
                            ViewAction::Copy(username)
                        },
                    }
                }
            },
            Key::Enter => {
                self.hide_sensitive = self.hide_sensitive.next();
                ViewAction::Nothing
            },
            _ => ViewAction::Nothing,
        }
    }

    fn handle_detail_inputs(&mut self, event: Key) -> (r: ViewAction)
        requires
            old(self).selected == Pane::Right,
            old(self).accepts(event),
        ensures
            view_step(*old(self), event, *final(self), r),
    {
        match event {
            Key::Char('q') | Key::Char('h') | Key::Esc | Key::Right | Key::Left | Key::Tab => {
                self.selected = Pane::Left;
                self.details.state.select(None);
                ViewAction::Nothing
            },
            Key::Char('?') => ViewAction::Help,
            Key::Char('j') | Key::Down => {
                self.details.state.select_next();
                ViewAction::Nothing
            },
            Key::Char('k') | Key::Up => {
                self.details.state.select_previous();
                ViewAction::Nothing
            },
            Key::Char('e') => {
                if self.accounts.state.selected().is_none() {
                    ViewAction::Nothing
                } else {
                    ViewAction::Edit(self.get_selected_account())
                }
            },
            Key::Char('y') => {
                if self.details.list.len() == 0 {
                    ViewAction::Nothing
                } else {
                    let selected = self.details.state.selected().unwrap();
                    ViewAction::Copy(self.details.list[selected].value.clone())
                }
            },
            Key::Enter => {
                self.hide_sensitive = self.hide_sensitive.next();
                ViewAction::Nothing
            },
            _ => ViewAction::Nothing,
        }
    }

    /// Fills the detail lines from the selected account, as drawing the details pane does.
    pub fn refresh_details(&mut self)
        requires
            old(self).selected_account() matches Some(a) && a.last_change.valid()
                && a.creation_date.valid(),
        ensures
            old(self).selected_account() matches Some(a) && details_view(final(self).details.list@)
                == account_details(a),
            final(self).details.state == old(self).details.state,
            final(self).accounts == old(self).accounts,
            final(self).service == old(self).service,
            final(self).selected == old(self).selected,
            final(self).hide_sensitive == old(self).hide_sensitive,
    {
        let i = self.accounts.state.selected.unwrap();
        let list = construct_detail_list(&self.accounts.list[i]);
        self.details.list = list;
    }

    /// The detail lines as drawn: the label column 19 characters wide, and the value, or
    /// `[*]` for a secret that the setting does not show.
    pub fn detail_rows(&self) -> (r: Vec<(String, String)>)
        ensures
            r@.len() == self.details.list@.len(),
            forall|k: int|
                0 <= k < r@.len() ==> ((#[trigger] r@[k]).0@, r@[k].1@) == detail_row(
                    self.details.list@[k]@,
                    self.hide_sensitive,
                    self.details.state.selected == Some(k as usize),
                ),
    {
        let mut rows: Vec<(String, String)> = Vec::new();
        let mut idx: usize = 0;
        while idx < self.details.list.len()
            invariant
                idx <= self.details.list@.len(),
                rows@.len() == idx,
                forall|k: int|
                    0 <= k < idx ==> ((#[trigger] rows@[k]).0@, rows@[k].1@) == detail_row(
                        self.details.list@[k]@,
                        self.hide_sensitive,
                        self.details.state.selected == Some(k as usize),
                    ),
            decreases self.details.list@.len() - idx,
        {
            let detail = &self.details.list[idx];
            let is_selected = match self.details.state.selected {
                Some(s) => s == idx,
                None => false,
            };
            let show = match self.hide_sensitive {
                ShowHiddenFields::Always => true,
                ShowHiddenFields::WhenSelected => is_selected,
                ShowHiddenFields::Never => false,
            };
            let row = if show || !detail.hidden {
                format_detail_field(detail, 19)
            } else {
                format_hidden_detail_field(detail, 19)
            };
            rows.push(row);
            idx = idx + 1;
        }
        rows
    }

    /// The two lines of the service header: the name and the URL (empty where there is
    /// none), each with a space on both sides.
    pub fn header_lines(&self) -> (r: (String, String))
        ensures
            r.0@ == " "@ + self.service.name@ + " "@,
            r.1@ == " "@ + match self.service.url {
                Some(u) => u@,
                None => Seq::<char>::empty(),
            } + " "@,
    {
        let name = concat2(" ", self.service.name.as_str());
        let name = concat2(name.as_str(), " ");
        let url = match &self.service.url {
            Some(u) => concat2(" ", u.as_str()),
            None => owned(" "),
        };
        let url = concat2(url.as_str(), " ");
        proof {
            if self.service.url is None {
                assert(" "@ + Seq::<char>::empty() =~= " "@);
            }
        }
        (name, url)
    }

    /// The status line under the details.
    pub fn status_line(&self) -> (r: String)
        ensures
            r@ == " Show Hidden Fields: "@ + status_name(self.hide_sensitive),
    {
        let s = self.hide_sensitive.status_text();
        concat2(" Show Hidden Fields: ", s.as_str())
    }
}

/// A detail line as drawn: its value shows where the setting is Always, or When Selected and
/// the line is selected, or the line is not secret; otherwise `[*]` stands in its place.
pub open spec fn detail_row(d: DetailModel, setting: ShowHiddenFields, is_selected: bool) -> (
    Seq<char>,
    Seq<char>,
) {
    let show = setting == ShowHiddenFields::Always || (setting == ShowHiddenFields::WhenSelected
        && is_selected);
    (pad_right(d.label, 19), if show || !d.hidden {
        d.value
    } else {
        "[*]"@
    })
}

/// A secret detail shows `[*]` in place of its value while the setting is Never, and while it
/// is When Selected for every line but the selected one.
pub proof fn lemma_secrets_stay_masked(d: DetailModel, is_selected: bool)
    requires
        d.hidden,
    ensures
        detail_row(d, ShowHiddenFields::Never, is_selected).1 == "[*]"@,
        detail_row(d, ShowHiddenFields::WhenSelected, false).1 == "[*]"@,
{
}

/// The text that `y` copies from an account: its email where it has only an email, else
/// its username.
pub open spec fn copied_contact(c: ContactInfo) -> String {
    match c {
        ContactInfo::Email(e) => e,
        ContactInfo::Both(_, u) => u,
        ContactInfo::Username(u) => u,
    }
}

/// The action for `e` (edit) or Delete on the selected account: nothing where no account is
/// selected.
pub open spec fn on_selected(before: View, r: ViewAction, delete: bool) -> bool {
    if before.accounts.state.selected is None {
        r is Nothing
    } else if delete {
        r matches ViewAction::Delete(a) && before.selected_account() == Some(a)
    } else {
        r matches ViewAction::Edit(a) && before.selected_account() == Some(a)
    }
}

/// View mode's response to a key.
/// On the accounts pane: `q`/Esc return, `h`/`?` ask for help, `j`/Down and `k`/Up move the
/// account selection, Tab/Right/`l` move the focus to the details (first one selected), `e`
/// edits and Delete deletes the selected account, `n` edits a new account of the service,
/// `y` copies the account's username (or email), Enter cycles the secrets setting.
/// On the details pane: `q`/`h`/Esc/Right/Left/Tab move the focus back and clear the
/// detail selection, `?` asks for help, `j`/`k` move the detail selection, `e` edits the
/// selected account, `y` copies the selected detail's value, Enter cycles the setting.
pub open spec fn view_step(before: View, key: Key, after: View, r: ViewAction) -> bool {
    &&& after.service == before.service
    &&& after.accounts.list == before.accounts.list
    &&& after.details.list == before.details.list
    &&& after.hide_sensitive == if key == Key::Enter {
        next_setting(before.hide_sensitive)
    } else {
        before.hide_sensitive
    }
    &&& match before.selected {
        Pane::Left => {
            &&& after.accounts.state == match key {
                Key::Char('j') | Key::Down => next_selected(before.accounts.state),
                Key::Char('k') | Key::Up => previous_selected(before.accounts.state),
                _ => before.accounts.state,
            }
            &&& (after.selected, after.details.state) == match key {
                Key::Tab | Key::Right | Key::Char('l') => (
                    Pane::Right,
                    ListState { selected: Some(0usize), ..before.details.state },
                ),
                _ => (before.selected, before.details.state),
            }
            &&& match key {
                Key::Char('q') | Key::Esc => r is Return,
                Key::Char('h') | Key::Char('?') => r is Help,
                Key::Char('e') => on_selected(before, r, false),
                Key::Delete => on_selected(before, r, true),
                Key::Char('n') => r matches ViewAction::Edit(a) && a.id is None && Some(
                    a.service_id,
                ) == before.service.id && a@.contact == ContactModel::Username(Seq::empty())
                    && a.password is None && a.access_token is None && a.pin is None
                    && a.passcode is None && a.last_change.valid() && a.creation_date.valid(),
                Key::Char('y') => if before.accounts.state.selected is None {
                    r is Nothing
                } else {
                    r matches ViewAction::Copy(t) && before.selected_account() matches Some(a)
                        && t == copied_contact(a.contact)
                },
                _ => r is Nothing,
            }
        },
        Pane::Right => {
            &&& after.accounts.state == before.accounts.state
            &&& (after.selected, after.details.state) == match key {
                Key::Char('q') | Key::Char('h') | Key::Esc | Key::Right | Key::Left | Key::Tab => (
                    Pane::Left,
                    ListState { selected: None, offset: 0 },
                ),
                Key::Char('j') | Key::Down => (Pane::Right, next_selected(before.details.state)),
                Key::Char('k') | Key::Up => (Pane::Right, previous_selected(before.details.state)),
                _ => (Pane::Right, before.details.state),
            }
            &&& match key {
                Key::Char('?') => r is Help,
                Key::Char('e') => on_selected(before, r, false),
                Key::Char('y') => if before.details.list@.len() == 0 {
                    r is Nothing
                } else {
                    r matches ViewAction::Copy(t) && before.details.state.selected matches Some(i)
                        && t == before.details.list@[i as int].value
                },
                _ => r is Nothing,
            }
        },
    }
}

} // verus!
