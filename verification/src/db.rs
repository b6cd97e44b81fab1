//! What the vault's tables hold of each record: the columns written for a record and the
//! record read back from its columns.
use vstd::prelude::*;
use crate::date::{date_text, jiff_strptime, jiff_strptime_date, Date};
use crate::models::{
    copy_opt, opt_text, Account, AccountModel, ContactInfo, ContactModel, Service, ServiceModel,
};

verus! {

/// The columns of a row of the `services` table.
#[derive(Debug)]
pub struct ServiceColumns {
    pub id: Option<u32>,
    pub name: String,
    pub url: Option<String>,
}

/// The columns of a row of the `accounts` table, dates as text.
#[derive(Debug)]
pub struct AccountColumns {
    pub id: Option<u32>,
    pub service_id: u32,
    pub username: Option<String>,
    pub email: Option<String>,
    pub password: Option<String>,
    pub access_token: Option<String>,
    pub last_change: String,
    pub creation_date: String,
    pub pin: Option<u32>,
    pub passcode: Option<u32>,
}

/// A date column that could not be read: its position in the row and the reason.
#[derive(Debug)]
pub struct ColumnError {
    pub column: usize,
    pub message: String,
}

/// A text column as read: an empty text counts as no value.
pub open spec fn non_empty(o: Option<Seq<char>>) -> Option<Seq<char>> {
    match o {
        Some(s) => if s.len() == 0 {
            None
        } else {
            Some(s)
        },
        None => None,
    }
}

fn filter_empty(o: Option<String>) -> (r: Option<String>)
    ensures
        opt_text(r) == non_empty(opt_text(o)),
        r matches Some(s) ==> o == Some(s),
{
    match o {
        Some(s) => {
            if s.as_str().is_empty() {
                None
            } else {
                Some(s)
            }
        },
        None => None,
    }
}

/// The contact read from the email and username columns: what is present and not empty.
pub open spec fn contact_from(email: Option<Seq<char>>, username: Option<Seq<char>>) -> ContactModel {
    match (non_empty(email), non_empty(username)) {
        (Some(e), Some(u)) => ContactModel::Both(e, u),
        (Some(e), None) => ContactModel::Email(e),
        (None, Some(u)) => ContactModel::Username(u),
        (None, None) => ContactModel::Username(Seq::empty()),
    }
}

/// The username column written for a contact: the empty text where it has none.
pub open spec fn username_column(c: ContactModel) -> Seq<char> {
    match c {
        ContactModel::Both(_, u) => u,
        ContactModel::Username(u) => u,
        ContactModel::Email(_) => Seq::empty(),
    }
}

/// The email column written for a contact: the empty text where it has none.
pub open spec fn email_column(c: ContactModel) -> Seq<char> {
    match c {
        ContactModel::Both(e, _) => e,
        ContactModel::Email(e) => e,
        ContactModel::Username(_) => Seq::empty(),
    }
}

/// The format of the date columns.
pub open spec fn date_format() -> Seq<char> {
    "%Y-%m-%d"@
}

/// A date column as read by jiff, or the error of the column at `column`.
pub open spec fn date_column(column: int, s: Seq<char>) -> Result<Date, (int, Seq<char>)> {
    match jiff_strptime(date_format(), s) {
        Ok(d) => Ok(d),
        Err(e) => Err((column, e)),
    }
}

/// The account that a row holds: empty texts count as absent; the dates are read with the
/// `%Y-%m-%d` format, the date of last change first (column 6, then column 7).
pub open spec fn account_from(c: AccountColumns) -> Result<AccountModel, (int, Seq<char>)> {
    match date_column(6, c.last_change@) {
        Err(e) => Err(e),
        Ok(last_change) => match date_column(7, c.creation_date@) {
            Err(e) => Err(e),
            Ok(creation_date) => Ok(
                AccountModel {
                    id: c.id,
                    service_id: c.service_id,
                    contact: contact_from(opt_text(c.email), opt_text(c.username)),
                    last_change,
                    creation_date,
                    password: non_empty(opt_text(c.password)),
                    access_token: non_empty(opt_text(c.access_token)),
                    pin: c.pin,
                    passcode: c.passcode,
                },
            ),
        },
    }
}

/// A read outcome as values.
pub open spec fn read_outcome(r: Result<Account, ColumnError>) -> Result<AccountModel, (int, Seq<char>)> {
    match r {
        Ok(a) => Ok(a@),
        Err(e) => Err((e.column as int, e.message@)),
    }
}

/// A date of the years that a date column holds and reads back: -9999 to 9999.
pub open spec fn column_date(d: Date) -> bool {
    d.valid() && -9999 <= d.year <= 9999
}

fn read_date(column: usize, s: &str) -> (r: Result<Date, ColumnError>)
    ensures
        match date_column(column as int, s@) {
            Ok(d) => r == Ok::<Date, ColumnError>(d),
            Err(e) => r matches Err(x) && x.column == column && x.message@ == e.1,
        },
        forall|d: Date| column_date(d) && s@ == #[trigger] date_text(d) ==> (r matches Ok(x) && x
            == d),
{
    match jiff_strptime_date("%Y-%m-%d", s) {
        Ok(d) => Ok(d),
        Err(message) => Err(ColumnError { column, message }),
    }
}

impl Service {
    /// The service that a row holds: an empty URL counts as no URL.
    pub fn from_columns(columns: ServiceColumns) -> (r: Service)
        ensures
            r@ == (ServiceModel {
                id: columns.id,
                name: columns.name@,
                url: non_empty(opt_text(columns.url)),
            }),
    {
        Service { id: columns.id, name: columns.name, url: filter_empty(columns.url) }
    }

    /// The columns written for a service.
    pub fn to_columns(&self) -> (r: ServiceColumns)
        ensures
            r.id == self.id,
            r.name == self.name,
            r.url == self.url,
    {
        ServiceColumns { id: self.id, name: self.name.clone(), url: copy_opt(&self.url) }
    }
}

impl ContactInfo {
    /// The username and email columns written for a contact: an absent one is written as
    /// the empty text.
    pub fn to_columns(&self) -> (r: (String, String))
        ensures
            r.0@ == username_column(self@),
            r.1@ == email_column(self@),
    {
        match self {
            ContactInfo::Both(email, username) => (username.clone(), email.clone()),
            ContactInfo::Email(email) => (String::new(), email.clone()),
            ContactInfo::Username(username) => (username.clone(), String::new()),
        }
    }
}

impl Account {
    /// The account that a row holds, or the first date column that cannot be read.
    pub fn from_columns(columns: AccountColumns) -> (r: Result<Account, ColumnError>)
        ensures
            read_outcome(r) == account_from(columns),
            forall|a: Account|
                #[trigger] written_columns(columns, a) && keeps_texts(a@) && column_date(
                    a.last_change,
                ) && column_date(a.creation_date) ==> reads_back(r, a),
    {
        let last_change = match read_date(6, columns.last_change.as_str()) {
            Ok(d) => d,
            Err(e) => {
                return Err(e);
            },
        };
        let creation_date = match read_date(7, columns.creation_date.as_str()) {
            Ok(d) => d,
            Err(e) => {
                return Err(e);
            },
        };
        let email = filter_empty(columns.email);
        let username = filter_empty(columns.username);
        let contact = ContactInfo::from_options(email, username);
        proof {
            assert forall|a: Account|
                #[trigger] written_columns(columns, a) && keeps_texts(a@) && column_date(
                    a.last_change,
                ) && column_date(a.creation_date) implies account_from(columns) == Ok::<
                AccountModel,
                (int, Seq<char>),
            >(a@) by {
                assert(columns.last_change@ == date_text(a.last_change));
                assert(columns.creation_date@ == date_text(a.creation_date));
                lemma_account_row_round_trip(a, columns);
            }
        }
        Ok(
            Self {
                id: columns.id,
                service_id: columns.service_id,
                contact,
                password: filter_empty(columns.password),
                access_token: filter_empty(columns.access_token),
                last_change,
                creation_date,
                pin: columns.pin,
                passcode: columns.passcode,
            },
        )
    }

    /// The columns written for an account: the contact as two texts and the dates as chrono
    /// writes them.
    pub fn to_columns(&self) -> (r: AccountColumns)
        ensures
            written_columns(r, *self),
    {
        let (username, email) = self.contact.to_columns();
        AccountColumns {
            id: self.id,
            service_id: self.service_id,
            username: Some(username),
            email: Some(email),
            password: copy_opt(&self.password),
            access_token: copy_opt(&self.access_token),
            last_change: self.last_change.to_text(),
            creation_date: self.creation_date.to_text(),
            pin: self.pin,
            passcode: self.passcode,
        }
    }
}


/// The columns written for an account: every field as it is, the contact as its username
/// and email texts, and the dates as chrono writes them.
pub open spec fn written_columns(c: AccountColumns, a: Account) -> bool {
    &&& c.id == a.id
    &&& c.service_id == a.service_id
    &&& opt_text(c.username) == Some(username_column(a.contact@))
    &&& opt_text(c.email) == Some(email_column(a.contact@))
    &&& c.password == a.password
    &&& c.access_token == a.access_token
    &&& c.last_change@ == date_text(a.last_change)
    &&& c.creation_date@ == date_text(a.creation_date)
    &&& c.pin == a.pin
    &&& c.passcode == a.passcode
}

/// A read outcome that is the account `a`.
pub open spec fn reads_back(r: Result<Account, ColumnError>, a: Account) -> bool {
    read_outcome(r) == Ok::<AccountModel, (int, Seq<char>)>(a@)
}

/// The texts of an account that come back as they were written: an email and, beside an
/// email, a username are not empty; a password or access token is not empty.
pub open spec fn keeps_texts(a: AccountModel) -> bool {
    &&& match a.contact {
        ContactModel::Email(e) => e.len() > 0,
        ContactModel::Both(e, u) => e.len() > 0 && u.len() > 0,
        ContactModel::Username(_) => true,
    }
    &&& (a.password matches Some(p) ==> p.len() > 0)
    &&& (a.access_token matches Some(t) ==> t.len() > 0)
}

/// An account written to its row and read back is the same account, where its texts are not
/// empty (an empty one is read back as absent) and jiff reads its dates back from the text
/// that chrono wrote for them. `Account::from_columns` states the same without the last
/// premise, for dates of the years -9999 to 9999, which jiff reads back.
pub proof fn lemma_account_row_round_trip(a: Account, c: AccountColumns)
    requires
        written_columns(c, a),
        keeps_texts(a@),
        jiff_strptime(date_format(), date_text(a.last_change)) == Ok::<Date, Seq<char>>(
            a.last_change,
        ),
        jiff_strptime(date_format(), date_text(a.creation_date)) == Ok::<Date, Seq<char>>(
            a.creation_date,
        ),
    ensures
        account_from(c) == Ok::<AccountModel, (int, Seq<char>)>(a@),
{
    match a@.contact {
        ContactModel::Username(u) => {
            if u.len() == 0 {
                assert(u =~= Seq::<char>::empty());
            }
        },
        _ => {},
    }
    assert(email_column(a@.contact).len() == 0 ==> email_column(a@.contact) =~= Seq::<char>::empty());
    assert(contact_from(opt_text(c.email), opt_text(c.username)) == a@.contact);
}

/// A service written to its row and read back is the same service, where its URL is not
/// empty (an empty one is read back as absent).
pub proof fn lemma_service_row_round_trip(s: Service, c: ServiceColumns)
    requires
        c.id == s.id,
        c.name == s.name,
        c.url == s.url,
        s@.url matches Some(u) ==> u.len() > 0,
    ensures
        (ServiceModel { id: c.id, name: c.name@, url: non_empty(opt_text(c.url)) }) == s@,
{
}
} // verus!
