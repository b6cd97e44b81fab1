//! Writing the text of a form field into the record that the form edits.
use vstd::prelude::*;
use crate::date::{date_text, jiff_date_from_str, jiff_parse_date};
use crate::models::{
    email_of, username_of, Account, AccountModel, Applicator, ContactInfo, ContactModel, Field, SecurityQuestion,
    SecurityQuestionModel, Service, ServiceModel, Shortcut, ShortcutModel, Target, TargetModel,
};
use crate::record_text::{target_text, target_text_of};
use crate::text::{concat2, is_blank, push_all, owned, parse_u32, parse_u32_text, trim, trimmed};

verus! {

/// The contact after its username is set: an email stays beside it.
pub open spec fn with_username(c: ContactModel, u: Seq<char>) -> ContactModel {
    match c {
        ContactModel::Both(e, _) => ContactModel::Both(e, u),
        ContactModel::Email(e) => ContactModel::Both(e, u),
        ContactModel::Username(_) => ContactModel::Username(u),
    }
}

/// The contact after its email is set: a username stays beside it.
pub open spec fn with_email(c: ContactModel, e: Seq<char>) -> ContactModel {
    match c {
        ContactModel::Both(_, u) => ContactModel::Both(e, u),
        ContactModel::Username(u) => ContactModel::Both(e, u),
        ContactModel::Email(_) => ContactModel::Email(e),
    }
}

/// A secret field's text as stored: nothing for a blank text, else the text as typed.
pub open spec fn secret(s: Seq<char>) -> Option<Seq<char>> {
    if trim(s).len() == 0 {
        None
    } else {
        Some(s)
    }
}

/// An applicator's name, as its derived `Debug` writes it.
pub open spec fn applicator_name(a: Applicator) -> Seq<char> {
    match a {
        Applicator::ServiceName => "ServiceName"@,
        Applicator::ServiceUrl => "ServiceUrl"@,
        Applicator::AccountUsername => "AccountUsername"@,
        Applicator::AccountEmail => "AccountEmail"@,
        Applicator::AccountPassword => "AccountPassword"@,
        Applicator::AccountAccessToken => "AccountAccessToken"@,
        Applicator::AccountPIN => "AccountPIN"@,
        Applicator::AccountPasscode => "AccountPasscode"@,
        Applicator::AccountLastChange => "AccountLastChange"@,
        Applicator::AccountCreationDate => "AccountCreationDate"@,
        Applicator::SqQuestion => "SqQuestion"@,
        Applicator::SqAnswer => "SqAnswer"@,
        Applicator::ShortcutSequence => "ShortcutSequence"@,
    }
}

impl Applicator {
    /// The applicator's name.
    pub fn name(&self) -> (r: &'static str)
        ensures
            r@ == applicator_name(*self),
    {
        match self {
            Applicator::ServiceName => "ServiceName",
            Applicator::ServiceUrl => "ServiceUrl",
            Applicator::AccountUsername => "AccountUsername",
            Applicator::AccountEmail => "AccountEmail",
            Applicator::AccountPassword => "AccountPassword",
            Applicator::AccountAccessToken => "AccountAccessToken",
            Applicator::AccountPIN => "AccountPIN",
            Applicator::AccountPasscode => "AccountPasscode",
            Applicator::AccountLastChange => "AccountLastChange",
            Applicator::AccountCreationDate => "AccountCreationDate",
            Applicator::SqQuestion => "SqQuestion",
            Applicator::SqAnswer => "SqAnswer",
            Applicator::ShortcutSequence => "ShortcutSequence",
        }
    }
}

/// The message for a field written into a record of another kind.
pub open spec fn mismatch_text(a: Applicator, t: TargetModel) -> Seq<char> {
    "Cannot apply "@ + applicator_name(a) + " to "@ + target_text(t)
}

/// Builds the message for a field written into a record of another kind.
fn mismatch_message(applicator: Applicator, target: &Target) -> (r: String)
    ensures
        r@ == mismatch_text(applicator, target@),
{
    let mut r = concat2("Cannot apply ", applicator.name());
    push_all(&mut r, " to ");
    let t = target_text_of(target);
    push_all(&mut r, t.as_str());
    r
}

/// A date field's text as stored: the date jiff reads from it, or the message
/// `Invalid date format: ` followed by jiff's error.
pub open spec fn date_from_text(v: Seq<char>) -> Result<crate::date::Date, Seq<char>> {
    match jiff_date_from_str(v) {
        Ok(d) => Ok(d),
        Err(e) => Err("Invalid date format: "@ + e),
    }
}

/// jiff reads the text back as the date of the years 0 to 9999 whose text it is.
pub open spec fn reads_back_date(v: Seq<char>) -> bool {
    forall|d: crate::date::Date|
        d.valid() && 0 <= d.year <= 9999 && v == #[trigger] date_text(d) ==> jiff_date_from_str(v)
            == Ok::<crate::date::Date, Seq<char>>(d)
}

/// A field that writes a date into an account.
pub open spec fn writes_account_date(a: Applicator, t: TargetModel) -> bool {
    (a == Applicator::AccountLastChange || a == Applicator::AccountCreationDate)
        && t is Account
}

/// The record after a field's text is written into it, or the error message; a field and a
/// record of different kinds do not go together.
pub open spec fn apply_result(a: Applicator, t: TargetModel, v: Seq<char>) -> Result<
    TargetModel,
    Seq<char>,
> {
    match (a, t) {
        (Applicator::ServiceName, TargetModel::Service(s)) => Ok(
            TargetModel::Service(ServiceModel { name: v, ..s }),
        ),
        (Applicator::ServiceUrl, TargetModel::Service(s)) => Ok(
            TargetModel::Service(ServiceModel { url: Some(v), ..s }),
        ),
        (Applicator::AccountUsername, TargetModel::Account(x)) => Ok(
            TargetModel::Account(AccountModel { contact: with_username(x.contact, v), ..x }),
        ),
        (Applicator::AccountEmail, TargetModel::Account(x)) => Ok(
            TargetModel::Account(AccountModel { contact: with_email(x.contact, v), ..x }),
        ),
        (Applicator::AccountPassword, TargetModel::Account(x)) => Ok(
            TargetModel::Account(AccountModel { password: secret(v), ..x }),
        ),
        (Applicator::AccountAccessToken, TargetModel::Account(x)) => Ok(
            TargetModel::Account(AccountModel { access_token: secret(v), ..x }),
        ),
        (Applicator::AccountPIN, TargetModel::Account(x)) => Ok(
            TargetModel::Account(AccountModel { pin: parse_u32(trim(v)), ..x }),
        ),
        (Applicator::AccountPasscode, TargetModel::Account(x)) => Ok(
            TargetModel::Account(AccountModel { passcode: parse_u32(trim(v)), ..x }),
        ),
        (Applicator::AccountLastChange, TargetModel::Account(x)) => match date_from_text(v) {
            Ok(d) => Ok(TargetModel::Account(AccountModel { last_change: d, ..x })),
            Err(e) => Err(e),
        },
        (Applicator::AccountCreationDate, TargetModel::Account(x)) => match date_from_text(v) {
            Ok(d) => Ok(TargetModel::Account(AccountModel { creation_date: d, ..x })),
            Err(e) => Err(e),
        },
        (Applicator::SqQuestion, TargetModel::SecurityQuestion(q)) => Ok(
            TargetModel::SecurityQuestion(SecurityQuestionModel { question: v, ..q }),
        ),
        (Applicator::SqAnswer, TargetModel::SecurityQuestion(q)) => Ok(
            TargetModel::SecurityQuestion(SecurityQuestionModel { answer: v, ..q }),
        ),
        (Applicator::ShortcutSequence, TargetModel::Shortcut(s)) => Ok(
            TargetModel::Shortcut(ShortcutModel { sequence: v, ..s }),
        ),
        _ => Err(mismatch_text(a, t)),
    }
}

/// The record and the outcome after an apply: on success the new record, on failure the
/// record as it was and the message.
pub open spec fn applied(
    a: Applicator,
    before: TargetModel,
    v: Seq<char>,
    after: TargetModel,
    r: Result<(), String>,
) -> bool {
    match apply_result(a, before, v) {
        Ok(m) => r is Ok && after == m,
        Err(e) => r matches Err(msg) && msg@ == e && after == before,
    }
}

impl Applicator {
    /// Writes `value` into the field of `target` that this applicator stands for.
    pub fn apply(self, target: &mut Target, value: &str) -> (r: Result<(), String>)
        ensures
            applied(self, old(target)@, value@, final(target)@, r),
            writes_account_date(self, old(target)@) ==> reads_back_date(value@),
    {
        match (self, target) {
            (Self::ServiceName, Target::Service(service)) => {
                apply_service_name(service, value);
                Ok(())
            },
            (Self::ServiceUrl, Target::Service(service)) => {
                apply_service_url(service, value);
                Ok(())
            },
            (Self::AccountUsername, Target::Account(account)) => {
                apply_account_username(account, value);
                Ok(())
            },
            (Self::AccountEmail, Target::Account(account)) => {
                apply_account_email(account, value);
                Ok(())
            },
            (Self::AccountPassword, Target::Account(account)) => {
                apply_account_password(account, value);
                Ok(())
            },
            (Self::AccountAccessToken, Target::Account(account)) => {
                apply_account_access_token(account, value);
                Ok(())
            },
            (Self::AccountPIN, Target::Account(account)) => {
                apply_account_pin(account, value);
                Ok(())
            },
            (Self::AccountPasscode, Target::Account(account)) => {
                apply_account_passcode(account, value);
                Ok(())
            },
            (Self::AccountLastChange, Target::Account(account)) => {
                apply_account_last_change(account, value)
            },
            (Self::AccountCreationDate, Target::Account(account)) => {
                apply_account_creation_date(account, value)
            },
            (Self::SqQuestion, Target::SecurityQuestion(question)) => {
                apply_sq_question(question, value);
                Ok(())
            },
            (Self::SqAnswer, Target::SecurityQuestion(question)) => {
                apply_sq_answer(question, value);
                Ok(())
            },
            (Self::ShortcutSequence, Target::Shortcut(shortcut)) => {
                apply_shortcut_sequence(shortcut, value);
                Ok(())
            },
            (applicator, target) => Err(mismatch_message(applicator, target)),
        }
    }
}

impl Field {
    /// Writes the field's text into the record, as its applicator directs.
    pub fn apply(&self, target: &mut Target) -> (r: Result<(), String>)
        ensures
            applied(self.applicator, old(target)@, self.value@, final(target)@, r),
            writes_account_date(self.applicator, old(target)@) ==> reads_back_date(self.value@),
    {
        self.applicator.apply(target, self.value.as_str())
    }
}

/// Sets the service's name.
pub fn apply_service_name(service: &mut Service, name: &str)
    ensures
        final(service)@ == (ServiceModel { name: name@, ..old(service)@ }),
{
    service.name = owned(name);
}

/// Sets the service's URL.
pub fn apply_service_url(service: &mut Service, url: &str)
    ensures
        final(service)@ == (ServiceModel { url: Some(url@), ..old(service)@ }),
{
    service.url = Some(owned(url));
}

/// Sets the account's username, keeping its email if it has one.
pub fn apply_account_username(account: &mut Account, username: &str)
    ensures
        final(account)@ == (AccountModel {
            contact: with_username(old(account)@.contact, username@),
            ..old(account)@
        }),
        username_of(final(account)@.contact) == Some(username@),
        email_of(final(account)@.contact) == email_of(old(account)@.contact),
{
    account.contact = match &account.contact {
        ContactInfo::Both(email, _) | ContactInfo::Email(email) => ContactInfo::Both(
            email.clone(),
            owned(username),
        ),
        ContactInfo::Username(_) => ContactInfo::Username(owned(username)),
    };
}

/// Sets the account's email, keeping its username if it has one.
pub fn apply_account_email(account: &mut Account, email: &str)
    ensures
        final(account)@ == (AccountModel {
            contact: with_email(old(account)@.contact, email@),
            ..old(account)@
        }),
        email_of(final(account)@.contact) == Some(email@),
        username_of(final(account)@.contact) == username_of(old(account)@.contact),
{
    account.contact = match &account.contact {
        ContactInfo::Both(_, username) | ContactInfo::Username(username) => ContactInfo::Both(
            owned(email),
            username.clone(),
        ),
        ContactInfo::Email(_) => ContactInfo::Email(owned(email)),
    };
}

/// Sets the account's password; a blank text removes it.
pub fn apply_account_password(account: &mut Account, password: &str)
    ensures
        final(account)@ == (AccountModel { password: secret(password@), ..old(account)@ }),
{
    if is_blank(password) {
        account.password = None;
    } else {
        account.password = Some(owned(password));
    }
}

/// Sets the account's access token; a blank text removes it.
pub fn apply_account_access_token(account: &mut Account, token: &str)
    ensures
        final(account)@ == (AccountModel { access_token: secret(token@), ..old(account)@ }),
{
    if is_blank(token) {
        account.access_token = None;
    } else {
        account.access_token = Some(owned(token));
    }
}

/// Sets the account's PIN to the number in the text, or removes it where the trimmed text
/// is not a `u32`.
pub fn apply_account_pin(account: &mut Account, pin: &str)
    ensures
        final(account)@ == (AccountModel { pin: parse_u32(trim(pin@)), ..old(account)@ }),
{
    let t = trimmed(pin);
    account.pin = parse_u32_text(t.as_str());
}

/// Sets the account's passcode to the number in the text, or removes it where the trimmed
/// text is not a `u32`.
pub fn apply_account_passcode(account: &mut Account, passcode: &str)
    ensures
        final(account)@ == (AccountModel {
            passcode: parse_u32(trim(passcode@)),
            ..old(account)@
        }),
{
    let t = trimmed(passcode);
    account.passcode = parse_u32_text(t.as_str());
}

/// Sets the date of the last password change to the date that jiff reads from the text;
/// leaves the account alone and reports the error where jiff cannot read it.
pub fn apply_account_last_change(account: &mut Account, date: &str) -> (r: Result<(), String>)
    ensures
        match date_from_text(date@) {
            Ok(d) => r is Ok && final(account)@ == (AccountModel {
                last_change: d,
                ..old(account)@
            }),
            Err(e) => r matches Err(msg) && msg@ == e && final(account)@ == old(account)@,
        },
        reads_back_date(date@),
{
    let parsed = jiff_parse_date(date);
    proof {
        assert forall|d: crate::date::Date|
            d.valid() && 0 <= d.year <= 9999 && date@ == #[trigger] date_text(d) implies jiff_date_from_str(
            date@,
        ) == Ok::<crate::date::Date, Seq<char>>(d) by {
            assert(crate::date::reads_as(parsed, d));
        }
    }
    match parsed {
        Ok(d) => {
            account.last_change = d;
            Ok(())
        },
        Err(error) => Err(concat2("Invalid date format: ", error.as_str())),
    }
}

/// Sets the account's creation date to the date that jiff reads from the text; leaves the
/// account alone and reports the error where jiff cannot read it.
pub fn apply_account_creation_date(account: &mut Account, date: &str) -> (r: Result<(), String>)
    ensures
        match date_from_text(date@) {
            Ok(d) => r is Ok && final(account)@ == (AccountModel {
                creation_date: d,
                ..old(account)@
            }),
            Err(e) => r matches Err(msg) && msg@ == e && final(account)@ == old(account)@,
        },
        reads_back_date(date@),
{
    let parsed = jiff_parse_date(date);
    proof {
        assert forall|d: crate::date::Date|
            d.valid() && 0 <= d.year <= 9999 && date@ == #[trigger] date_text(d) implies jiff_date_from_str(
            date@,
        ) == Ok::<crate::date::Date, Seq<char>>(d) by {
            assert(crate::date::reads_as(parsed, d));
        }
    }
    match parsed {
        Ok(d) => {
            account.creation_date = d;
            Ok(())
        },
        Err(error) => Err(concat2("Invalid date format: ", error.as_str())),
    }
}

/// Sets the security question's question.
pub fn apply_sq_question(sq: &mut SecurityQuestion, question: &str)
    ensures
        final(sq)@ == (SecurityQuestionModel { question: question@, ..old(sq)@ }),
{
    sq.question = owned(question);
}

/// Sets the security question's answer.
pub fn apply_sq_answer(sq: &mut SecurityQuestion, answer: &str)
    ensures
        final(sq)@ == (SecurityQuestionModel { answer: answer@, ..old(sq)@ }),
{
    sq.answer = owned(answer);
}

/// Sets the shortcut's key sequence.
pub fn apply_shortcut_sequence(shortcut: &mut Shortcut, seq: &str)
    ensures
        final(shortcut)@ == (ShortcutModel { sequence: seq@, ..old(shortcut)@ }),
{
    shortcut.sequence = owned(seq);
}


/// Writing the same text into the same field twice leaves the record as writing it once.
pub proof fn lemma_apply_idempotent(a: Applicator, t: TargetModel, v: Seq<char>)
    requires
        apply_result(a, t, v) is Ok,
    ensures
        apply_result(a, apply_result(a, t, v)->Ok_0, v) == apply_result(a, t, v),
{
}

/// A field of one kind of record leaves a record of another kind alone and reports it.
pub proof fn lemma_apply_mismatch(a: Applicator, t: TargetModel, v: Seq<char>)
    requires
        !matches_kind(a, t),
    ensures
        apply_result(a, t, v) == Err::<TargetModel, Seq<char>>(mismatch_text(a, t)),
{
}

/// Whether a field is one of the form of the record's kind.
pub open spec fn matches_kind(a: Applicator, t: TargetModel) -> bool {
    match t {
        TargetModel::Service(_) => a == Applicator::ServiceName || a == Applicator::ServiceUrl,
        TargetModel::Account(_) => a == Applicator::AccountUsername || a == Applicator::AccountEmail
            || a == Applicator::AccountPassword || a == Applicator::AccountAccessToken || a
            == Applicator::AccountPIN || a == Applicator::AccountPasscode || a
            == Applicator::AccountLastChange || a == Applicator::AccountCreationDate,
        TargetModel::SecurityQuestion(_) => a == Applicator::SqQuestion || a == Applicator::SqAnswer,
        TargetModel::Shortcut(_) => a == Applicator::ShortcutSequence,
    }
}
/// Writing the email field of an account makes the text written its email, whatever kind of
/// contact it had, keeps its username (if any), and leaves every other field as it was.
pub proof fn lemma_email_written(x: AccountModel, v: Seq<char>)
    ensures
        apply_result(Applicator::AccountEmail, TargetModel::Account(x), v) matches Ok(
            TargetModel::Account(y),
        ) && email_of(y.contact) == Some(v) && username_of(y.contact) == username_of(x.contact)
            && y == (AccountModel { contact: y.contact, ..x }),
{
}

/// Writing the username field of an account makes the text written its username, whatever
/// kind of contact it had, keeps its email (if any), and leaves every other field as it was.
pub proof fn lemma_username_written(x: AccountModel, v: Seq<char>)
    ensures
        apply_result(Applicator::AccountUsername, TargetModel::Account(x), v) matches Ok(
            TargetModel::Account(y),
        ) && username_of(y.contact) == Some(v) && email_of(y.contact) == email_of(x.contact)
            && y == (AccountModel { contact: y.contact, ..x }),
{
}

} // verus!
