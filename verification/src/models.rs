//! The records that the vault keeps (services, accounts, security questions, shortcuts),
//! the form fields that edit them, and their models as mathematical values.
use vstd::prelude::*;
use crate::date::{chrono_today, Date};
use crate::helpers::{
    validate_account, validate_security_question, validate_service, validate_shortcut,
    account_problem, security_question_problem, service_problem, shortcut_problem,
};
use crate::validators::Validator;

verus! {

pub type EmailAddress = String;

pub type Username = String;

/// The text of an optional string.
pub open spec fn opt_text(o: Option<String>) -> Option<Seq<char>> {
    match o {
        Some(s) => Some(s@),
        None => None,
    }
}

/// A copy of an optional string.
pub fn copy_opt(o: &Option<String>) -> (r: Option<String>)
    ensures
        r == *o,
{
    match o {
        Some(s) => Some(s.clone()),
        None => None,
    }
}

// ---------------------------------------------------------------------------
// Service
// ---------------------------------------------------------------------------

#[derive(Debug)]
pub struct Service {
    pub id: Option<u32>,
    pub name: String,
    pub url: Option<String>,
}

/// A service as a mathematical value.
pub struct ServiceModel {
    pub id: Option<u32>,
    pub name: Seq<char>,
    pub url: Option<Seq<char>>,
}

impl View for Service {
    type V = ServiceModel;

    open spec fn view(&self) -> ServiceModel {
        ServiceModel { id: self.id, name: self.name@, url: opt_text(self.url) }
    }
}

impl Default for Service {
    fn default() -> (r: Service)
        ensures
            r@ == (ServiceModel { id: None, name: Seq::<char>::empty(), url: None }),
    {
        Service { id: None, name: String::new(), url: None }
    }
}

impl Service {
    /// A copy of the service.
    pub fn duplicate(&self) -> (r: Service)
        ensures
            r == *self,
    {
        Service { id: self.id, name: self.name.clone(), url: copy_opt(&self.url) }
    }
}

// ---------------------------------------------------------------------------
// Contact information
// ---------------------------------------------------------------------------

#[derive(Debug)]
pub enum ContactInfo {
    Email(EmailAddress),
    Username(Username),
    Both(EmailAddress, Username),
}

/// Contact information as a mathematical value.
pub enum ContactModel {
    Email(Seq<char>),
    Username(Seq<char>),
    Both(Seq<char>, Seq<char>),
}

impl View for ContactInfo {
    type V = ContactModel;

    open spec fn view(&self) -> ContactModel {
        match self {
            ContactInfo::Email(e) => ContactModel::Email(e@),
            ContactInfo::Username(u) => ContactModel::Username(u@),
            ContactInfo::Both(e, u) => ContactModel::Both(e@, u@),
        }
    }
}

/// The email address in a contact, if there is one.
pub open spec fn contact_email(c: ContactInfo) -> Option<EmailAddress> {
    match c {
        ContactInfo::Email(e) => Some(e),
        ContactInfo::Both(e, _) => Some(e),
        ContactInfo::Username(_) => None,
    }
}

/// The username in a contact, if there is one.
pub open spec fn contact_username(c: ContactInfo) -> Option<Username> {
    match c {
        ContactInfo::Username(u) => Some(u),
        ContactInfo::Both(_, u) => Some(u),
        ContactInfo::Email(_) => None,
    }
}

/// The email of a contact's value, if it has one.
pub open spec fn email_of(c: ContactModel) -> Option<Seq<char>> {
    match c {
        ContactModel::Email(e) => Some(e),
        ContactModel::Both(e, _) => Some(e),
        ContactModel::Username(_) => None,
    }
}

/// The username of a contact's value, if it has one.
pub open spec fn username_of(c: ContactModel) -> Option<Seq<char>> {
    match c {
        ContactModel::Username(u) => Some(u),
        ContactModel::Both(_, u) => Some(u),
        ContactModel::Email(_) => None,
    }
}

impl Default for ContactInfo {
    fn default() -> (r: ContactInfo)
        ensures
            r@ == ContactModel::Username(Seq::<char>::empty()),
    {
        ContactInfo::Username(String::new())
    }
}

impl ContactInfo {
    /// Contact information from an optional email and an optional username; with neither,
    /// an empty username.
    pub fn from_options(email: Option<EmailAddress>, username: Option<Username>) -> (r: Self)
        ensures
            r == (match (email, username) {
                (Some(e), Some(u)) => ContactInfo::Both(e, u),
                (Some(e), None) => ContactInfo::Email(e),
                (None, Some(u)) => ContactInfo::Username(u),
                (None, None) => r,
            }),
            email is None && username is None ==> r@ == ContactModel::Username(
                Seq::<char>::empty(),
            ),
    {
        match (email, username) {
            (Some(email), Some(username)) => Self::Both(email, username),
            (Some(email), None) => Self::Email(email),
            (None, Some(username)) => Self::Username(username),
            _ => Self::default(),
        }
    }

    /// A copy of the contact information.
    pub fn duplicate(&self) -> (r: ContactInfo)
        ensures
            r == *self,
    {
        match self {
            ContactInfo::Email(e) => ContactInfo::Email(e.clone()),
            ContactInfo::Username(u) => ContactInfo::Username(u.clone()),
            ContactInfo::Both(e, u) => ContactInfo::Both(e.clone(), u.clone()),
        }
    }
}

/// Splitting a contact into its email and its username and joining them again gives
/// the same contact.
pub proof fn lemma_contact_split_join(c: ContactInfo)
    ensures
        (match (contact_email(c), contact_username(c)) {
            (Some(e), Some(u)) => ContactInfo::Both(e, u),
            (Some(e), None) => ContactInfo::Email(e),
            (None, Some(u)) => ContactInfo::Username(u),
            (None, None) => c,
        }) == c,
{
}

// ---------------------------------------------------------------------------
// Account
// ---------------------------------------------------------------------------

#[derive(Debug)]
pub struct Account {
    pub id: Option<u32>,
    pub service_id: u32,
    pub contact: ContactInfo,
    pub last_change: Date,
    pub creation_date: Date,
    pub password: Option<String>,
    pub access_token: Option<String>,
    pub pin: Option<u32>,
    pub passcode: Option<u32>,
}

/// An account as a mathematical value.
pub struct AccountModel {
    pub id: Option<u32>,
    pub service_id: u32,
    pub contact: ContactModel,
    pub last_change: Date,
    pub creation_date: Date,
    pub password: Option<Seq<char>>,
    pub access_token: Option<Seq<char>>,
    pub pin: Option<u32>,
    pub passcode: Option<u32>,
}

impl View for Account {
    type V = AccountModel;

    open spec fn view(&self) -> AccountModel {
        AccountModel {
            id: self.id,
            service_id: self.service_id,
            contact: self.contact@,
            last_change: self.last_change,
            creation_date: self.creation_date,
            password: opt_text(self.password),
            access_token: opt_text(self.access_token),
            pin: self.pin,
            passcode: self.passcode,
        }
    }
}

impl Account {
    /// A new account of a service: no row id, an empty username, nothing secret,
    /// and both dates set to today's local date.
    pub fn new(service_id: u32) -> (r: Self)
        ensures
            r.id is None,
            r.service_id == service_id,
            r.contact@ == ContactModel::Username(Seq::<char>::empty()),
            r.last_change.valid(),
            r.creation_date.valid(),
            r.password is None,
            r.access_token is None,
            r.pin is None,
            r.passcode is None,
    {
        Self {
            id: None,
            service_id,
            contact: ContactInfo::default(),
            last_change: chrono_today(),
            creation_date: chrono_today(),
            password: None,
            access_token: None,
            pin: None,
            passcode: None,
        }
    }

    /// A copy of the account.
    pub fn duplicate(&self) -> (r: Account)
        ensures
            r == *self,
    {
        Account {
            id: self.id,
            service_id: self.service_id,
            contact: self.contact.duplicate(),
            last_change: self.last_change,
            creation_date: self.creation_date,
            password: copy_opt(&self.password),
            access_token: copy_opt(&self.access_token),
            pin: self.pin,
            passcode: self.passcode,
        }
    }
}

// ---------------------------------------------------------------------------
// Security questions and shortcuts
// ---------------------------------------------------------------------------

#[derive(Debug)]
pub struct SecurityQuestion {
    pub id: Option<u32>,
    pub account_id: u32,
    pub question: String,
    pub answer: String,
}

/// A security question as a mathematical value.
pub struct SecurityQuestionModel {
    pub id: Option<u32>,
    pub account_id: u32,
    pub question: Seq<char>,
    pub answer: Seq<char>,
}

impl View for SecurityQuestion {
    type V = SecurityQuestionModel;

    open spec fn view(&self) -> SecurityQuestionModel {
        SecurityQuestionModel {
            id: self.id,
            account_id: self.account_id,
            question: self.question@,
            answer: self.answer@,
        }
    }
}

impl SecurityQuestion {
    /// A copy of the security question.
    pub fn duplicate(&self) -> (r: SecurityQuestion)
        ensures
            r == *self,
    {
        SecurityQuestion {
            id: self.id,
            account_id: self.account_id,
            question: self.question.clone(),
            answer: self.answer.clone(),
        }
    }
}

#[derive(Debug)]
pub struct Shortcut {
    pub id: Option<u32>,
    pub account_id: u32,
    pub field: String,
    pub sequence: String,
}

/// A shortcut as a mathematical value.
pub struct ShortcutModel {
    pub id: Option<u32>,
    pub account_id: u32,
    pub field: Seq<char>,
    pub sequence: Seq<char>,
}

impl View for Shortcut {
    type V = ShortcutModel;

    open spec fn view(&self) -> ShortcutModel {
        ShortcutModel {
            id: self.id,
            account_id: self.account_id,
            field: self.field@,
            sequence: self.sequence@,
        }
    }
}

impl Shortcut {
    /// A copy of the shortcut.
    pub fn duplicate(&self) -> (r: Shortcut)
        ensures
            r == *self,
    {
        Shortcut {
            id: self.id,
            account_id: self.account_id,
            field: self.field.clone(),
            sequence: self.sequence.clone(),
        }
    }
}

// ---------------------------------------------------------------------------
// Targets of the edit form
// ---------------------------------------------------------------------------

/// The record that an edit form works on.
#[derive(Debug)]
pub enum Target {
    Service(Service),
    Account(Account),
    SecurityQuestion(SecurityQuestion),
    Shortcut(Shortcut),
}

/// A target as a mathematical value.
pub enum TargetModel {
    Service(ServiceModel),
    Account(AccountModel),
    SecurityQuestion(SecurityQuestionModel),
    Shortcut(ShortcutModel),
}

impl View for Target {
    type V = TargetModel;

    open spec fn view(&self) -> TargetModel {
        match self {
            Target::Service(s) => TargetModel::Service(s@),
            Target::Account(a) => TargetModel::Account(a@),
            Target::SecurityQuestion(q) => TargetModel::SecurityQuestion(q@),
            Target::Shortcut(s) => TargetModel::Shortcut(s@),
        }
    }
}

/// The message with which a target fails validation, if it does.
pub open spec fn target_problem(t: TargetModel) -> Option<Seq<char>> {
    match t {
        TargetModel::Service(s) => service_problem(s),
        TargetModel::Account(a) => account_problem(a),
        TargetModel::SecurityQuestion(q) => security_question_problem(q),
        TargetModel::Shortcut(s) => shortcut_problem(s),
    }
}

impl Target {
    /// Checks the record as a whole before it is saved.
    pub fn validate(&self) -> (r: Result<(), String>)
        ensures
            r is Ok <==> target_problem(self@) is None,
            r matches Err(e) ==> target_problem(self@) == Some(e@),
    {
        match self {
            Self::Service(service) => validate_service(service),
            Self::Account(account) => validate_account(account),
            Self::Shortcut(shortcut) => validate_shortcut(shortcut),
            Self::SecurityQuestion(security_question) => validate_security_question(
                security_question,
            ),
        }
    }

    /// Whether the record has no row id yet, so that saving it adds a row rather than
    /// updating one.
    pub fn is_new(&self) -> (r: bool)
        ensures
            r == match self {
                Target::Service(s) => s.id is None,
                Target::Account(a) => a.id is None,
                Target::SecurityQuestion(q) => q.id is None,
                Target::Shortcut(s) => s.id is None,
            },
    {
        match self {
            Target::Service(s) => s.id.is_none(),
            Target::Account(a) => a.id.is_none(),
            Target::SecurityQuestion(q) => q.id.is_none(),
            Target::Shortcut(s) => s.id.is_none(),
        }
    }

    /// A copy of the target.
    pub fn duplicate(&self) -> (r: Target)
        ensures
            r == *self,
    {
        match self {
            Target::Service(s) => Target::Service(s.duplicate()),
            Target::Account(a) => Target::Account(a.duplicate()),
            Target::SecurityQuestion(q) => Target::SecurityQuestion(q.duplicate()),
            Target::Shortcut(s) => Target::Shortcut(s.duplicate()),
        }
    }
}

/// Which field of which record a form field writes to.
#[derive(Debug, Clone, Copy, PartialEq, Eq, Structural)]
pub enum Applicator {
    ServiceName,
    ServiceUrl,
    AccountUsername,
    AccountEmail,
    AccountPassword,
    AccountAccessToken,
    AccountPIN,
    AccountPasscode,
    AccountLastChange,
    AccountCreationDate,
    SqQuestion,
    SqAnswer,
    ShortcutSequence,
}

/// One line of an edit form: what it is called, the text in it, the last validation error,
/// how its text is checked, and where it is written on submission.
#[derive(Debug)]
pub struct Field {
    pub label: String,
    pub value: String,
    pub error: Option<String>,
    pub validator: Option<Validator>,
    pub applicator: Applicator,
}

/// A form field as a mathematical value.
pub struct FieldModel {
    pub label: Seq<char>,
    pub value: Seq<char>,
    pub error: Option<Seq<char>>,
    pub validator: Option<Validator>,
    pub applicator: Applicator,
}

impl View for Field {
    type V = FieldModel;

    open spec fn view(&self) -> FieldModel {
        FieldModel {
            label: self.label@,
            value: self.value@,
            error: opt_text(self.error),
            validator: self.validator,
            applicator: self.applicator,
        }
    }
}

/// The values of a list of fields.
pub open spec fn fields_view(v: Seq<Field>) -> Seq<FieldModel> {
    v.map_values(|f: Field| f@)
}

impl Field {
    /// A copy of the field.
    pub fn duplicate(&self) -> (r: Field)
        ensures
            r == *self,
    {
        Field {
            label: self.label.clone(),
            value: self.value.clone(),
            error: copy_opt(&self.error),
            validator: self.validator,
            applicator: self.applicator,
        }
    }
}

} // verus!
