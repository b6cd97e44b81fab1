//! Records written out as text for messages, in the layout of a derived `Debug`: the type's
//! name, its fields by name in braces, strings quoted and escaped, dates as `%Y-%m-%d`.
use vstd::prelude::*;
use crate::date::date_text;
use crate::models::{
    Account, AccountModel, ContactInfo, ContactModel, SecurityQuestion, SecurityQuestionModel,
    Service, ServiceModel, Shortcut, ShortcutModel, Target, TargetModel,
};
use crate::text::{chars_of, decimal, owned, push_all, push_char, u32_to_decimal};

verus! {

/// What `char::escape_debug` writes for a character.
pub uninterp spec fn escape_debug(c: char) -> Seq<char>;

/// `char::escape_debug`, collected into a `String`: the text is named by `escape_debug`, a
/// function of the character alone.
#[verifier::external_body]
fn escape_char(c: char) -> (r: String)
    ensures
        r@ == escape_debug(c),
{
    c.escape_debug().to_string()
}

/// A character inside a quoted string: as `char::escape_debug` writes it, except that a single
/// quote stays as it is.
pub open spec fn escaped_char(c: char) -> Seq<char> {
    if c == '\'' {
        seq!['\'']
    } else {
        escape_debug(c)
    }
}

/// The characters of a string, each escaped.
pub open spec fn escaped(s: Seq<char>) -> Seq<char>
    decreases s.len(),
{
    if s.len() == 0 {
        Seq::empty()
    } else {
        escaped(s.drop_last()) + escaped_char(s.last())
    }
}

/// A string in double quotes, its characters escaped.
pub open spec fn quoted(s: Seq<char>) -> Seq<char> {
    seq!['"'] + escaped(s) + seq!['"']
}

/// Writes a string in double quotes, its characters escaped.
pub fn quoted_text(s: &str) -> (r: String)
    ensures
        r@ == quoted(s@),
{
    let v = chars_of(s);
    let mut r = String::new();
    push_char(&mut r, '"');
    let mut i: usize = 0;
    while i < v.len()
        invariant
            i <= v@.len(),
            r@ == seq!['"'] + escaped(v@.take(i as int)),
        decreases v@.len() - i,
    {
        proof {
            assert(v@.take(i + 1).drop_last() =~= v@.take(i as int));
        }
        let c = v[i];
        if c == '\'' {
            push_char(&mut r, '\'');
        } else {
            let e = escape_char(c);
            push_all(&mut r, e.as_str());
        }
        i = i + 1;
        assert(r@ =~= seq!['"'] + escaped(v@.take(i as int)));
    }
    assert(v@.take(i as int) =~= s@);
    push_char(&mut r, '"');
    r
}

/// An optional string: `Some(..)` with the string quoted, or `None`.
pub open spec fn opt_quoted(o: Option<Seq<char>>) -> Seq<char> {
    match o {
        Some(s) => "Some("@ + quoted(s) + ")"@,
        None => "None"@,
    }
}

/// An optional number: `Some(..)` with the number in decimal, or `None`.
pub open spec fn opt_number(o: Option<u32>) -> Seq<char> {
    match o {
        Some(n) => "Some("@ + decimal(n as nat) + ")"@,
        None => "None"@,
    }
}

fn opt_quoted_text(o: &Option<String>) -> (r: String)
    ensures
        r@ == opt_quoted(crate::models::opt_text(*o)),
{
    match o {
        Some(s) => {
            let mut r = owned("Some(");
            let q = quoted_text(s.as_str());
            push_all(&mut r, q.as_str());
            push_all(&mut r, ")");
            r
        },
        None => owned("None"),
    }
}

fn opt_number_text(o: Option<u32>) -> (r: String)
    ensures
        r@ == opt_number(o),
{
    match o {
        Some(n) => {
            let mut r = owned("Some(");
            let d = u32_to_decimal(n);
            push_all(&mut r, d.as_str());
            push_all(&mut r, ")");
            r
        },
        None => owned("None"),
    }
}

/// A contact: its variant and its strings, quoted.
pub open spec fn contact_text(c: ContactModel) -> Seq<char> {
    match c {
        ContactModel::Email(e) => "Email("@ + quoted(e) + ")"@,
        ContactModel::Username(u) => "Username("@ + quoted(u) + ")"@,
        ContactModel::Both(e, u) => "Both("@ + quoted(e) + ", "@ + quoted(u) + ")"@,
    }
}

fn contact_text_of(c: &ContactInfo) -> (r: String)
    ensures
        r@ == contact_text(c@),
{
    match c {
        ContactInfo::Email(e) => {
            let mut r = owned("Email(");
            let q = quoted_text(e.as_str());
            push_all(&mut r, q.as_str());
            push_all(&mut r, ")");
            r
        },
        ContactInfo::Username(u) => {
            let mut r = owned("Username(");
            let q = quoted_text(u.as_str());
            push_all(&mut r, q.as_str());
            push_all(&mut r, ")");
            r
        },
        ContactInfo::Both(e, u) => {
            let mut r = owned("Both(");
            let q = quoted_text(e.as_str());
            push_all(&mut r, q.as_str());
            push_all(&mut r, ", ");
            let q = quoted_text(u.as_str());
            push_all(&mut r, q.as_str());
            push_all(&mut r, ")");
            r
        },
    }
}

/// A service with its fields.
pub open spec fn service_text(s: ServiceModel) -> Seq<char> {
    "Service { id: "@ + opt_number(s.id) + ", name: "@ + quoted(s.name) + ", url: "@
        + opt_quoted(s.url) + " }"@
}

fn service_text_of(s: &Service) -> (r: String)
    ensures
        r@ == service_text(s@),
{
    let mut r = owned("Service { id: ");
    let t = opt_number_text(s.id);
    push_all(&mut r, t.as_str());
    push_all(&mut r, ", name: ");
    let t = quoted_text(s.name.as_str());
    push_all(&mut r, t.as_str());
    push_all(&mut r, ", url: ");
    let t = opt_quoted_text(&s.url);
    push_all(&mut r, t.as_str());
    push_all(&mut r, " }");
    r
}

/// An account with its fields, dates as `%Y-%m-%d`.
pub open spec fn account_text(a: AccountModel) -> Seq<char> {
    "Account { id: "@ + opt_number(a.id) + ", service_id: "@ + decimal(a.service_id as nat)
        + ", contact: "@ + contact_text(a.contact) + ", last_change: "@ + date_text(a.last_change)
        + ", creation_date: "@ + date_text(a.creation_date) + ", password: "@ + opt_quoted(
        a.password,
    ) + ", access_token: "@ + opt_quoted(a.access_token) + ", pin: "@ + opt_number(a.pin)
        + ", passcode: "@ + opt_number(a.passcode) + " }"@
}

fn account_text_of(a: &Account) -> (r: String)
    ensures
        r@ == account_text(a@),
{
    let mut r = owned("Account { id: ");
    let t = opt_number_text(a.id);
    push_all(&mut r, t.as_str());
    push_all(&mut r, ", service_id: ");
    let t = u32_to_decimal(a.service_id);
    push_all(&mut r, t.as_str());
    push_all(&mut r, ", contact: ");
    let t = contact_text_of(&a.contact);
    push_all(&mut r, t.as_str());
    push_all(&mut r, ", last_change: ");
    let t = a.last_change.to_text();
    push_all(&mut r, t.as_str());
    push_all(&mut r, ", creation_date: ");
    let t = a.creation_date.to_text();
    push_all(&mut r, t.as_str());
    push_all(&mut r, ", password: ");
    let t = opt_quoted_text(&a.password);
    push_all(&mut r, t.as_str());
    push_all(&mut r, ", access_token: ");
    let t = opt_quoted_text(&a.access_token);
    push_all(&mut r, t.as_str());
    push_all(&mut r, ", pin: ");
    let t = opt_number_text(a.pin);
    push_all(&mut r, t.as_str());
    push_all(&mut r, ", passcode: ");
    let t = opt_number_text(a.passcode);
    push_all(&mut r, t.as_str());
    push_all(&mut r, " }");
    r
}

/// A security question with its fields.
pub open spec fn question_text(q: SecurityQuestionModel) -> Seq<char> {
    "SecurityQuestion { id: "@ + opt_number(q.id) + ", account_id: "@ + decimal(
        q.account_id as nat,
    ) + ", question: "@ + quoted(q.question) + ", answer: "@ + quoted(q.answer) + " }"@
}

fn question_text_of(q: &SecurityQuestion) -> (r: String)
    ensures
        r@ == question_text(q@),
{
    let mut r = owned("SecurityQuestion { id: ");
    let t = opt_number_text(q.id);
    push_all(&mut r, t.as_str());
    push_all(&mut r, ", account_id: ");
    let t = u32_to_decimal(q.account_id);
    push_all(&mut r, t.as_str());
    push_all(&mut r, ", question: ");
    let t = quoted_text(q.question.as_str());
    push_all(&mut r, t.as_str());
    push_all(&mut r, ", answer: ");
    let t = quoted_text(q.answer.as_str());
    push_all(&mut r, t.as_str());
    push_all(&mut r, " }");
    r
}

/// A shortcut with its fields.
pub open spec fn shortcut_text(s: ShortcutModel) -> Seq<char> {
    "Shortcut { id: "@ + opt_number(s.id) + ", account_id: "@ + decimal(s.account_id as nat)
        + ", field: "@ + quoted(s.field) + ", sequence: "@ + quoted(s.sequence) + " }"@
}

fn shortcut_text_of(s: &Shortcut) -> (r: String)
    ensures
        r@ == shortcut_text(s@),
{
    let mut r = owned("Shortcut { id: ");
    let t = opt_number_text(s.id);
    push_all(&mut r, t.as_str());
    push_all(&mut r, ", account_id: ");
    let t = u32_to_decimal(s.account_id);
    push_all(&mut r, t.as_str());
    push_all(&mut r, ", field: ");
    let t = quoted_text(s.field.as_str());
    push_all(&mut r, t.as_str());
    push_all(&mut r, ", sequence: ");
    let t = quoted_text(s.sequence.as_str());
    push_all(&mut r, t.as_str());
    push_all(&mut r, " }");
    r
}

/// A target: its kind, and the record in parentheses.
pub open spec fn target_text(t: TargetModel) -> Seq<char> {
    match t {
        TargetModel::Service(s) => "Service("@ + service_text(s) + ")"@,
        TargetModel::Account(a) => "Account("@ + account_text(a) + ")"@,
        TargetModel::SecurityQuestion(q) => "SecurityQuestion("@ + question_text(q) + ")"@,
        TargetModel::Shortcut(s) => "Shortcut("@ + shortcut_text(s) + ")"@,
    }
}

/// Writes a target: its kind, and the record in parentheses.
pub fn target_text_of(t: &Target) -> (r: String)
    ensures
        r@ == target_text(t@),
{
    let (mut r, inner) = match t {
        Target::Service(s) => (owned("Service("), service_text_of(s)),
        Target::Account(a) => (owned("Account("), account_text_of(a)),
        Target::SecurityQuestion(q) => (owned("SecurityQuestion("), question_text_of(q)),
        Target::Shortcut(s) => (owned("Shortcut("), shortcut_text_of(s)),
    };
    push_all(&mut r, inner.as_str());
    push_all(&mut r, ")");
    r
}

} // verus!
