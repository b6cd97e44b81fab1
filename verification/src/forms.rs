//! The edit form of each kind of record: which fields it has, in which order, what they
//! hold at first, how each is checked and where each is written back.
use vstd::prelude::*;
use crate::date::{date_text, jiff_date_from_str, Date};
use crate::applicators::apply_result;
use crate::modes::edit::apply_all;
use crate::models::{
    fields_view, Account, Applicator, ContactInfo, Field, FieldModel, SecurityQuestion, Service,
    Shortcut, TargetModel,
};
use crate::text::{
    decimal, is_digit, is_white_space, lemma_decimal_digits, lemma_parse_decimal, owned, trim,
    trim_end, trim_start, u32_to_decimal,
};
use crate::validators::Validator;

verus! {

/// A form field with no error yet.
pub open spec fn field(
    label: Seq<char>,
    value: Seq<char>,
    validator: Option<Validator>,
    applicator: Applicator,
) -> FieldModel {
    FieldModel { label, value, error: None, validator, applicator }
}

/// An optional text, or the empty text.
pub open spec fn text_or_empty(o: Option<Seq<char>>) -> Seq<char> {
    match o {
        Some(s) => s,
        None => Seq::empty(),
    }
}

/// An optional number in decimal, or the empty text.
pub open spec fn number_or_empty(o: Option<u32>) -> Seq<char> {
    match o {
        Some(n) => decimal(n as nat),
        None => Seq::empty(),
    }
}

/// The form of a service: its name (must not be blank) and its URL (must be https).
pub open spec fn service_fields(s: Service) -> Seq<FieldModel> {
    seq![
        field("Service Name"@, s@.name, Some(Validator::NonEmpty), Applicator::ServiceName),
        field("Url"@, text_or_empty(s@.url), Some(Validator::Url), Applicator::ServiceUrl),
    ]
}

/// The email of a contact, or the empty text.
pub open spec fn email_or_empty(c: ContactInfo) -> Seq<char> {
    match c {
        ContactInfo::Both(e, _) => e@,
        ContactInfo::Email(e) => e@,
        ContactInfo::Username(_) => Seq::empty(),
    }
}

/// The username of a contact, or the empty text.
pub open spec fn username_or_empty(c: ContactInfo) -> Seq<char> {
    match c {
        ContactInfo::Both(_, u) => u@,
        ContactInfo::Email(_) => Seq::empty(),
        ContactInfo::Username(u) => u@,
    }
}

/// The form of an account: username, email, password, access token, PIN, passcode, and
/// the two dates written as `%Y-%m-%d`.
pub open spec fn account_fields(a: Account) -> Seq<FieldModel> {
    seq![
        field("Username"@, username_or_empty(a.contact), None, Applicator::AccountUsername),
        field(
            "Email"@,
            email_or_empty(a.contact),
            Some(Validator::Email),
            Applicator::AccountEmail,
        ),
        field(
            "Password"@,
            text_or_empty(a@.password),
            Some(Validator::NoWhitespace),
            Applicator::AccountPassword,
        ),
        field("Access Token"@, text_or_empty(a@.access_token), None, Applicator::AccountAccessToken),
        field("PIN"@, number_or_empty(a.pin), Some(Validator::Numeric), Applicator::AccountPIN),
        field(
            "Passcode"@,
            number_or_empty(a.passcode),
            Some(Validator::Numeric),
            Applicator::AccountPasscode,
        ),
        field(
            "Last Change"@,
            date_text(a.last_change),
            Some(Validator::Date),
            Applicator::AccountLastChange,
        ),
        field(
            "Account Created"@,
            date_text(a.creation_date),
            Some(Validator::Date),
            Applicator::AccountCreationDate,
        ),
    ]
}

/// The form of a security question: the question and the answer, neither blank.
pub open spec fn security_question_fields(q: SecurityQuestion) -> Seq<FieldModel> {
    seq![
        field("Question"@, q@.question, Some(Validator::NonEmpty), Applicator::SqQuestion),
        field("Answer"@, q@.answer, Some(Validator::NonEmpty), Applicator::SqAnswer),
    ]
}

/// The form of a shortcut: its key sequence, not blank.
pub open spec fn shortcut_fields(s: Shortcut) -> Seq<FieldModel> {
    seq![
        field("Sequence"@, s@.sequence, Some(Validator::NonEmpty), Applicator::ShortcutSequence),
    ]
}

fn new_field(label: &str, value: String, validator: Option<Validator>, applicator: Applicator) -> (r:
    Field)
    ensures
        r@ == field(label@, value@, validator, applicator),
{
    Field { label: owned(label), value, error: None, validator, applicator }
}

fn text_or_new(o: &Option<String>) -> (r: String)
    ensures
        r@ == text_or_empty(crate::models::opt_text(*o)),
{
    match o {
        Some(s) => s.clone(),
        None => String::new(),
    }
}

fn number_text(o: Option<u32>) -> (r: String)
    ensures
        r@ == number_or_empty(o),
{
    match o {
        Some(n) => u32_to_decimal(n),
        None => String::new(),
    }
}

/// Records that an edit form can work on.
pub trait Fields {
    /// The fields of the form, filled from the record.
    fn fields(&self) -> Vec<Field>;
}

impl Fields for Service {
    fn fields(&self) -> (r: Vec<Field>)
        ensures
            fields_view(r@) == service_fields(*self),
    {
        let r = vec![
            new_field("Service Name", self.name.clone(), Some(Validator::NonEmpty), Applicator::ServiceName),
            new_field("Url", text_or_new(&self.url), Some(Validator::Url), Applicator::ServiceUrl),
        ];
        assert(fields_view(r@) =~= service_fields(*self));
        r
    }
}

impl Fields for Account {
    fn fields(&self) -> (r: Vec<Field>)
        ensures
            fields_view(r@) == account_fields(*self),
    {
        let (email, username) = match &self.contact {
            ContactInfo::Both(email, name) => (email.clone(), name.clone()),
            ContactInfo::Email(email) => (email.clone(), String::new()),
            ContactInfo::Username(name) => (String::new(), name.clone()),
        };
        let r = vec![
            new_field("Username", username, None, Applicator::AccountUsername),
            new_field("Email", email, Some(Validator::Email), Applicator::AccountEmail),
            new_field(
                "Password",
                text_or_new(&self.password),
                Some(Validator::NoWhitespace),
                Applicator::AccountPassword,
            ),
            new_field("Access Token", text_or_new(&self.access_token), None, Applicator::AccountAccessToken),
            new_field("PIN", number_text(self.pin), Some(Validator::Numeric), Applicator::AccountPIN),
            new_field(
                "Passcode",
                number_text(self.passcode),
                Some(Validator::Numeric),
                Applicator::AccountPasscode,
            ),
            new_field(
                "Last Change",
                self.last_change.to_text(),
                Some(Validator::Date),
                Applicator::AccountLastChange,
            ),
            new_field(
                "Account Created",
                self.creation_date.to_text(),
                Some(Validator::Date),
                Applicator::AccountCreationDate,
            ),
        ];
        assert(fields_view(r@) =~= account_fields(*self));
        r
    }
}

impl Fields for SecurityQuestion {
    fn fields(&self) -> (r: Vec<Field>)
        ensures
            fields_view(r@) == security_question_fields(*self),
    {
        let r = vec![
            new_field("Question", self.question.clone(), Some(Validator::NonEmpty), Applicator::SqQuestion),
            new_field("Answer", self.answer.clone(), Some(Validator::NonEmpty), Applicator::SqAnswer),
        ];
        assert(fields_view(r@) =~= security_question_fields(*self));
        r
    }
}

impl Fields for Shortcut {
    fn fields(&self) -> (r: Vec<Field>)
        ensures
            fields_view(r@) == shortcut_fields(*self),
    {
        let r = vec![
            new_field(
                "Sequence",
                self.sequence.clone(),
                Some(Validator::NonEmpty),
                Applicator::ShortcutSequence,
            ),
        ];
        assert(fields_view(r@) =~= shortcut_fields(*self));
        r
    }
}


/// The characters of a number's decimal notation are not white space, so trimming it
/// changes nothing.
pub proof fn lemma_trim_decimal(n: nat)
    ensures
        trim(decimal(n)) == decimal(n),
{
    lemma_decimal_digits(n);
    let d = decimal(n);
    assert(!is_white_space(d[0]));
    assert(!is_white_space(d.last())) by {
        assert(is_digit(d[d.len() - 1]));
    }
    assert(trim_start(d) == d);
    assert(trim_end(d) == d);
}

/// Submitting a service's form unchanged gives back the service, where it has a URL (a
/// service without one comes back with an empty URL).
pub proof fn lemma_service_form_round_trip(s: Service)
    requires
        s.url is Some,
    ensures
        apply_all(service_fields(s), TargetModel::Service(s@)) == Ok::<TargetModel, Seq<char>>(
            TargetModel::Service(s@),
        ),
{
    let f = service_fields(s);
    assert(f.drop_last().drop_last() =~= Seq::<FieldModel>::empty());
    assert(apply_all(f.drop_last().drop_last(), TargetModel::Service(s@)) == Ok::<
        TargetModel,
        Seq<char>,
    >(TargetModel::Service(s@)));
    assert(apply_all(f.drop_last(), TargetModel::Service(s@)) == Ok::<TargetModel, Seq<char>>(
        TargetModel::Service(s@),
    ));
}

/// Submitting a security question's form unchanged gives back the security question.
pub proof fn lemma_security_question_form_round_trip(q: SecurityQuestion)
    ensures
        apply_all(security_question_fields(q), TargetModel::SecurityQuestion(q@)) == Ok::<
            TargetModel,
            Seq<char>,
        >(TargetModel::SecurityQuestion(q@)),
{
    let f = security_question_fields(q);
    assert(f.drop_last().drop_last() =~= Seq::<FieldModel>::empty());
    assert(apply_all(f.drop_last().drop_last(), TargetModel::SecurityQuestion(q@)) == Ok::<
        TargetModel,
        Seq<char>,
    >(TargetModel::SecurityQuestion(q@)));
    assert(f.drop_last().last() == f[0]);
    assert(f.last() == f[1]);
    assert(apply_all(f.drop_last(), TargetModel::SecurityQuestion(q@)) == Ok::<
        TargetModel,
        Seq<char>,
    >(TargetModel::SecurityQuestion(q@)));
}

/// Submitting a shortcut's form unchanged gives back the shortcut.
pub proof fn lemma_shortcut_form_round_trip(s: Shortcut)
    ensures
        apply_all(shortcut_fields(s), TargetModel::Shortcut(s@)) == Ok::<TargetModel, Seq<char>>(
            TargetModel::Shortcut(s@),
        ),
{
    let f = shortcut_fields(s);
    assert(f.drop_last() =~= Seq::<FieldModel>::empty());
    assert(apply_all(f.drop_last(), TargetModel::Shortcut(s@)) == Ok::<TargetModel, Seq<char>>(
        TargetModel::Shortcut(s@),
    ));
    assert(f.last() == f[0]);
}

/// A secret as the form shows it and writes it back: kept where it is absent or not blank.
pub open spec fn secret_survives(o: Option<Seq<char>>) -> bool {
    match o {
        Some(p) => trim(p).len() > 0,
        None => true,
    }
}

/// An account whose form gives it back unchanged: it has both an email and a username, its
/// secrets are not blank, and its dates are of the years 0 to 9999.
pub open spec fn form_keeps(a: Account) -> bool {
    &&& a.contact is Both
    &&& secret_survives(a@.password)
    &&& secret_survives(a@.access_token)
    &&& a.last_change.valid() && 0 <= a.last_change.year <= 9999
    &&& a.creation_date.valid() && 0 <= a.creation_date.year <= 9999
}

/// Each field of an account's form, written back unchanged, leaves the account as it was
/// (for a date field, where jiff reads the date back from the text the form shows).
pub proof fn lemma_account_field_keeps(a: Account, k: int)
    requires
        0 <= k < 8,
        a.contact is Both,
        secret_survives(a@.password),
        secret_survives(a@.access_token),
        k == 6 ==> jiff_date_from_str(date_text(a.last_change)) == Ok::<Date, Seq<char>>(
            a.last_change,
        ),
        k == 7 ==> jiff_date_from_str(date_text(a.creation_date)) == Ok::<Date, Seq<char>>(
            a.creation_date,
        ),
    ensures
        apply_result(
            account_fields(a)[k].applicator,
            TargetModel::Account(a@),
            account_fields(a)[k].value,
        ) == Ok::<TargetModel, Seq<char>>(TargetModel::Account(a@)),
{
    match a.pin {
        Some(n) => {
            lemma_trim_decimal(n as nat);
            lemma_parse_decimal(n);
        },
        None => {
            assert(trim(Seq::<char>::empty()) =~= Seq::<char>::empty());
        },
    }
    match a.passcode {
        Some(n) => {
            lemma_trim_decimal(n as nat);
            lemma_parse_decimal(n);
        },
        None => {
            assert(trim(Seq::<char>::empty()) =~= Seq::<char>::empty());
        },
    }
    if a@.password is None {
        assert(trim(Seq::<char>::empty()) =~= Seq::<char>::empty());
    }
    if a@.access_token is None {
        assert(trim(Seq::<char>::empty()) =~= Seq::<char>::empty());
    }
}

/// Submitting an account's form unchanged gives back the account, where it has both an
/// email and a username, its secrets are not blank, and jiff reads each of its dates back
/// from the text the form shows (an account with only an email or only a username comes back
/// with an empty other one; a blank secret comes back absent). `Edit::apply_fields` states
/// the same without the last premise, for the dates of the years 0 to 9999 that jiff reads
/// back.
pub proof fn lemma_account_form_round_trip(a: Account)
    requires
        a.contact is Both,
        secret_survives(a@.password),
        secret_survives(a@.access_token),
        jiff_date_from_str(date_text(a.last_change)) == Ok::<Date, Seq<char>>(a.last_change),
        jiff_date_from_str(date_text(a.creation_date)) == Ok::<Date, Seq<char>>(
            a.creation_date,
        ),
    ensures
        apply_all(account_fields(a), TargetModel::Account(a@)) == Ok::<TargetModel, Seq<char>>(
            TargetModel::Account(a@),
        ),
{
    let f = account_fields(a);
    let t = TargetModel::Account(a@);
    let ok = Ok::<TargetModel, Seq<char>>(t);
    assert(f.take(0) =~= Seq::<FieldModel>::empty());
    assert(apply_all(f.take(0), t) == ok);
    assert forall|k: int| 0 <= k < 8 && apply_all(#[trigger] f.take(k), t) == ok implies apply_all(
        f.take(k + 1),
        t,
    ) == ok by {
        assert(f.take(k + 1).drop_last() =~= f.take(k));
        assert(f.take(k + 1).last() == f[k]);
        lemma_account_field_keeps(a, k);
    }
    assert(apply_all(f.take(1), t) == ok);
    assert(apply_all(f.take(2), t) == ok);
    assert(apply_all(f.take(3), t) == ok);
    assert(apply_all(f.take(4), t) == ok);
    assert(apply_all(f.take(5), t) == ok);
    assert(apply_all(f.take(6), t) == ok);
    assert(apply_all(f.take(7), t) == ok);
    assert(apply_all(f.take(8), t) == ok);
    assert(f.take(8) =~= f);
}
} // verus!
