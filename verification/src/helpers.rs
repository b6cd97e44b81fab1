//! Record checks, the account details shown in view mode, dates in words, the rows of
//! the edit form, and password generation.
use vstd::prelude::*;
use crate::date::{chrono_format, chrono_formatted, Date};
use crate::models::{
    email_of, username_of, Account, AccountModel, ContactInfo, ContactModel, Field, SecurityQuestion,
    SecurityQuestionModel, Service, ServiceModel, Shortcut, ShortcutModel,
};
use crate::modes::edit::Input;
use crate::modes::view::{Detail, DetailModel};
use crate::text::{
    concat2, decimal, is_blank, is_digit, repeated, owned, pad_right, padded, push_all, string_of, chars_of,
    trim, u32_to_decimal, byte_count, byte_len, char_at_byte, char_index, utf8_width,
};
use ordinal::ToOrdinal;
use rustpass::{PassphraseConfig, PassphraseGenerator};

verus! {

// ---------------------------------------------------------------------------
// Record checks
// ---------------------------------------------------------------------------

/// The message with which a service fails its check, if it does.
pub open spec fn service_problem(s: ServiceModel) -> Option<Seq<char>> {
    if trim(s.name).len() == 0 {
        Some("The service must have a name."@)
    } else {
        None
    }
}

/// The message with which an account fails its check, if it does: it needs a non-blank
/// email or a non-blank username.
pub open spec fn account_problem(a: AccountModel) -> Option<Seq<char>> {
    let blank = match a.contact {
        ContactModel::Email(e) => trim(e).len() == 0,
        ContactModel::Username(u) => trim(u).len() == 0,
        ContactModel::Both(e, u) => trim(e).len() == 0 && trim(u).len() == 0,
    };
    if blank {
        Some("Please submit either an email or a username."@)
    } else {
        None
    }
}

/// The message with which a security question fails its check, if it does.
pub open spec fn security_question_problem(q: SecurityQuestionModel) -> Option<Seq<char>> {
    let question = trim(q.question).len() == 0;
    let answer = trim(q.answer).len() == 0;
    if question && answer {
        Some("This form is empty - please complete all fields."@)
    } else if question {
        Some("Please fill out the question field."@)
    } else if answer {
        Some("Please fill out the answer field."@)
    } else {
        None
    }
}

/// The message with which a shortcut fails its check, if it does.
pub open spec fn shortcut_problem(s: ShortcutModel) -> Option<Seq<char>> {
    let field = trim(s.field).len() == 0;
    let sequence = trim(s.sequence).len() == 0;
    if field && sequence {
        Some("This form is empty - please complete all fields."@)
    } else if field {
        Some("Please fill out the target field."@)
    } else if sequence {
        Some("Please fill out the sequence field."@)
    } else {
        None
    }
}

/// The outcome of a check as a value: `None` for `Ok`, else the message.
pub open spec fn outcome(r: Result<(), String>) -> Option<Seq<char>> {
    match r {
        Ok(_) => None,
        Err(e) => Some(e@),
    }
}

/// A service needs a name that is not blank.
pub fn validate_service(service: &Service) -> (r: Result<(), String>)
    ensures
        outcome(r) == service_problem(service@),
{
    if is_blank(service.name.as_str()) {
        return Err(owned("The service must have a name."));
    }
    Ok(())
}

/// An account needs an email or a username that is not blank.
pub fn validate_account(account: &Account) -> (r: Result<(), String>)
    ensures
        outcome(r) == account_problem(account@),
        not_blank(email_of(account@.contact)) || not_blank(username_of(account@.contact)) <==> r is Ok,
{
    proof {
        lemma_account_check(account@);
    }
    match &account.contact {
        ContactInfo::Email(email) => {
            if is_blank(email.as_str()) {
                return Err(owned("Please submit either an email or a username."));
            }
        },
        ContactInfo::Username(username) => {
            if is_blank(username.as_str()) {
                return Err(owned("Please submit either an email or a username."));
            }
        },
        ContactInfo::Both(email, username) => {
            if is_blank(email.as_str()) && is_blank(username.as_str()) {
                return Err(owned("Please submit either an email or a username."));
            }
        },
    }
    Ok(())
}

/// An account passes its record check when its email is not blank, and when its username is
/// not blank; it fails, with its message, exactly when it has no email and no username that is
/// not blank.
pub proof fn lemma_account_check(a: AccountModel)
    ensures
        not_blank(email_of(a.contact)) ==> account_problem(a) is None,
        not_blank(username_of(a.contact)) ==> account_problem(a) is None,
        !not_blank(email_of(a.contact)) && !not_blank(username_of(a.contact)) ==> account_problem(a)
            == Some("Please submit either an email or a username."@),
{
}

/// An optional text that is present and not blank.
pub open spec fn not_blank(o: Option<Seq<char>>) -> bool {
    o matches Some(t) && trim(t).len() > 0
}

/// A security question needs both a question and an answer that are not blank.
pub fn validate_security_question(sq: &SecurityQuestion) -> (r: Result<(), String>)
    ensures
        outcome(r) == security_question_problem(sq@),
{
    let question = is_blank(sq.question.as_str());
    let answer = is_blank(sq.answer.as_str());
    match (question, answer) {
        (true, true) => Err(owned("This form is empty - please complete all fields.")),
        (true, false) => Err(owned("Please fill out the question field.")),
        (false, true) => Err(owned("Please fill out the answer field.")),
        (false, false) => Ok(()),
    }
}

/// A shortcut needs both a target field and a key sequence that are not blank.
pub fn validate_shortcut(shortcut: &Shortcut) -> (r: Result<(), String>)
    ensures
        outcome(r) == shortcut_problem(shortcut@),
{
    match (is_blank(shortcut.field.as_str()), is_blank(shortcut.sequence.as_str())) {
        (true, true) => Err(owned("This form is empty - please complete all fields.")),
        (true, false) => Err(owned("Please fill out the target field.")),
        (false, true) => Err(owned("Please fill out the sequence field.")),
        (false, false) => Ok(()),
    }
}

// ---------------------------------------------------------------------------
// Dates in words
// ---------------------------------------------------------------------------

/// The English ordinal suffix of a number, as the `ordinal` crate chooses it.
pub open spec fn ordinal_suffix(n: nat) -> Seq<char> {
    if 11 <= n % 100 <= 13 {
        "th"@
    } else if n % 10 == 1 {
        "st"@
    } else if n % 10 == 2 {
        "nd"@
    } else if n % 10 == 3 {
        "rd"@
    } else {
        "th"@
    }
}

/// `ordinal::ToOrdinal::to_ordinal_string` on a `u32`: the number in decimal followed by its
/// suffix ("th" for a last two digits of 11 to 13, else "st", "nd", "rd" for a last digit
/// of 1, 2, 3, and "th" otherwise), as the crate's source and documentation show.
#[verifier::external_body]
fn ordinal_text(n: u32) -> (r: String)
    ensures
        r@ == decimal(n as nat) + ordinal_suffix(n as nat),
{
    n.to_ordinal_string()
}

/// A date in words, such as "Monday, March 3rd, 2025": the weekday and month names as chrono
/// writes them, the day as an ordinal, and the year.
pub open spec fn date_in_words(d: Date) -> Seq<char> {
    chrono_format(d, "%A"@) + ", "@ + chrono_format(d, "%B"@) + " "@ + decimal(d.day as nat)
        + ordinal_suffix(d.day as nat) + ", "@ + chrono_format(d, "%Y"@)
}

/// Writes a date in words for the account details.
pub fn format_current_date(date: Date) -> (r: String)
    requires
        date.valid(),
    ensures
        r@ == date_in_words(date),
{
    let mut r = chrono_formatted(&date, "%A");
    push_all(&mut r, ", ");
    let month = chrono_formatted(&date, "%B");
    push_all(&mut r, month.as_str());
    push_all(&mut r, " ");
    let day = ordinal_text(date.day);
    push_all(&mut r, day.as_str());
    push_all(&mut r, ", ");
    let year = chrono_formatted(&date, "%Y");
    push_all(&mut r, year.as_str());
    assert(r@ =~= date_in_words(date));
    r
}

// ---------------------------------------------------------------------------
// Account details
// ---------------------------------------------------------------------------

/// A detail line as a value.
pub open spec fn detail(label: Seq<char>, value: Seq<char>, hidden: bool) -> DetailModel {
    DetailModel { label, value, hidden }
}

/// One detail line where the value is present, none where it is not.
pub open spec fn optional_detail(label: Seq<char>, value: Option<Seq<char>>, hidden: bool) -> Seq<
    DetailModel,
> {
    match value {
        Some(v) => seq![detail(label, v, hidden)],
        None => Seq::empty(),
    }
}

/// The decimal text of an optional number.
pub open spec fn opt_decimal(n: Option<u32>) -> Option<Seq<char>> {
    match n {
        Some(v) => Some(decimal(v as nat)),
        None => None,
    }
}

/// The text of an optional string.
pub open spec fn opt_view(o: Option<String>) -> Option<Seq<char>> {
    match o {
        Some(s) => Some(s@),
        None => None,
    }
}

/// The email address of a contact, if it has one, as text.
pub open spec fn email_text(c: ContactInfo) -> Option<Seq<char>> {
    match c {
        ContactInfo::Both(e, _) => Some(e@),
        ContactInfo::Email(e) => Some(e@),
        ContactInfo::Username(_) => None,
    }
}

/// The username of a contact, if it has one, as text.
pub open spec fn username_text(c: ContactInfo) -> Option<Seq<char>> {
    match c {
        ContactInfo::Both(_, u) => Some(u@),
        ContactInfo::Email(_) => None,
        ContactInfo::Username(u) => Some(u@),
    }
}

/// The detail lines of an account, in order: username, email, then the secrets (password,
/// access token, PIN, passcode) where present and marked hidden, then the two dates in words.
pub open spec fn account_details(a: Account) -> Seq<DetailModel> {
    optional_detail("Username"@, username_text(a.contact), false) + optional_detail(
        "Email"@,
        email_text(a.contact),
        false,
    )
        + optional_detail("Password"@, opt_view(a.password), true) + optional_detail(
        "Access Token"@,
        opt_view(a.access_token),
        true,
    ) + optional_detail("PIN"@, opt_decimal(a.pin), true) + optional_detail(
        "Passcode"@,
        opt_decimal(a.passcode),
        true,
    ) + seq![
        detail("Last Change"@, date_in_words(a.last_change), false),
        detail("Account Created"@, date_in_words(a.creation_date), false),
    ]
}

/// A detail line's label names a secret: the password, the access token, the PIN or the
/// passcode.
pub open spec fn secret_label(l: Seq<char>) -> bool {
    l == "Password"@ || l == "Access Token"@ || l == "PIN"@ || l == "Passcode"@
}

/// Every line of a list of details is hidden exactly when it holds a secret.
pub open spec fn secrets_hidden(d: Seq<DetailModel>) -> bool {
    forall|k: int| 0 <= k < d.len() ==> (#[trigger] d[k].hidden <==> secret_label(d[k].label))
}

proof fn lemma_secrets_hidden_concat(a: Seq<DetailModel>, b: Seq<DetailModel>)
    requires
        secrets_hidden(a),
        secrets_hidden(b),
    ensures
        secrets_hidden(a + b),
{
    assert forall|k: int| 0 <= k < (a + b).len() implies (#[trigger] (a + b)[k].hidden
        <==> secret_label((a + b)[k].label)) by {
        if k < a.len() {
            assert((a + b)[k] == a[k]);
        } else {
            assert((a + b)[k] == b[k - a.len()]);
        }
    }
}

proof fn lemma_contains_concat(a: Seq<DetailModel>, b: Seq<DetailModel>, x: DetailModel)
    ensures
        a.contains(x) ==> (a + b).contains(x),
        b.contains(x) ==> (a + b).contains(x),
{
    if a.contains(x) {
        let j = choose|j: int| 0 <= j < a.len() && a[j] == x;
        assert((a + b)[j] == x);
    }
    if b.contains(x) {
        let j = choose|j: int| 0 <= j < b.len() && b[j] == x;
        assert((a + b)[a.len() + j] == x);
    }
}

/// In an account's details, each line is hidden exactly when it holds a secret (password,
/// access token, PIN, passcode), and each secret the account has is there, hidden, with its
/// value (a PIN or passcode in decimal).
pub proof fn lemma_details_hide_secrets(a: Account)
    ensures
        secrets_hidden(account_details(a)),
        a.password matches Some(p) ==> account_details(a).contains(
            (DetailModel { label: "Password"@, value: p@, hidden: true }),
        ),
        a.access_token matches Some(t) ==> account_details(a).contains(
            (DetailModel { label: "Access Token"@, value: t@, hidden: true }),
        ),
        a.pin matches Some(n) ==> account_details(a).contains(
            (DetailModel { label: "PIN"@, value: decimal(n as nat), hidden: true }),
        ),
        a.passcode matches Some(n) ==> account_details(a).contains(
            (DetailModel { label: "Passcode"@, value: decimal(n as nat), hidden: true }),
        ),
{
    reveal_strlit("Password");
    reveal_strlit("Access Token");
    reveal_strlit("PIN");
    reveal_strlit("Passcode");
    reveal_strlit("Username");
    reveal_strlit("Email");
    reveal_strlit("Last Change");
    reveal_strlit("Account Created");
    let p1 = optional_detail("Username"@, username_text(a.contact), false);
    let p2 = optional_detail("Email"@, email_text(a.contact), false);
    let p3 = optional_detail("Password"@, opt_view(a.password), true);
    let p4 = optional_detail("Access Token"@, opt_view(a.access_token), true);
    let p5 = optional_detail("PIN"@, opt_decimal(a.pin), true);
    let p6 = optional_detail("Passcode"@, opt_decimal(a.passcode), true);
    let p7 = seq![
        detail("Last Change"@, date_in_words(a.last_change), false),
        detail("Account Created"@, date_in_words(a.creation_date), false),
    ];
    assert(!secret_label("Username"@)) by {
        assert("Username"@[0] != "Password"@[0] && "Username"@[0] != "Passcode"@[0]);
        assert("Username"@.len() != "Access Token"@.len() && "Username"@.len() != "PIN"@.len());
    }
    assert(!secret_label("Email"@)) by {
        assert("Email"@.len() != "Password"@.len() && "Email"@.len() != "Passcode"@.len());
        assert("Email"@.len() != "Access Token"@.len() && "Email"@.len() != "PIN"@.len());
    }
    assert(!secret_label("Last Change"@)) by {
        assert("Last Change"@.len() != "Password"@.len() && "Last Change"@.len() != "Passcode"@.len());
        assert("Last Change"@.len() != "Access Token"@.len() && "Last Change"@.len() != "PIN"@.len());
    }
    assert(!secret_label("Account Created"@)) by {
        assert("Account Created"@.len() != "Password"@.len() && "Account Created"@.len() != "Passcode"@.len());
        assert("Account Created"@.len() != "Access Token"@.len() && "Account Created"@.len() != "PIN"@.len());
    }
    assert(secrets_hidden(p1));
    assert(secrets_hidden(p2));
    assert(secrets_hidden(p3));
    assert(secrets_hidden(p4));
    assert(secrets_hidden(p5));
    assert(secrets_hidden(p6));
    assert(secrets_hidden(p7));
    lemma_secrets_hidden_concat(p1, p2);
    lemma_secrets_hidden_concat(p1 + p2, p3);
    lemma_secrets_hidden_concat(p1 + p2 + p3, p4);
    lemma_secrets_hidden_concat(p1 + p2 + p3 + p4, p5);
    lemma_secrets_hidden_concat(p1 + p2 + p3 + p4 + p5, p6);
    lemma_secrets_hidden_concat(p1 + p2 + p3 + p4 + p5 + p6, p7);
    assert(account_details(a) == p1 + p2 + p3 + p4 + p5 + p6 + p7);
    if a.password is Some {
        assert(p3[0] == p3[0]);
        lemma_contains_concat(p1 + p2, p3, p3[0]);
        lemma_contains_concat(p1 + p2 + p3, p4, p3[0]);
        lemma_contains_concat(p1 + p2 + p3 + p4, p5, p3[0]);
        lemma_contains_concat(p1 + p2 + p3 + p4 + p5, p6, p3[0]);
        lemma_contains_concat(p1 + p2 + p3 + p4 + p5 + p6, p7, p3[0]);
    }
    if a.access_token is Some {
        assert(p4[0] == p4[0]);
        lemma_contains_concat(p1 + p2 + p3, p4, p4[0]);
        lemma_contains_concat(p1 + p2 + p3 + p4, p5, p4[0]);
        lemma_contains_concat(p1 + p2 + p3 + p4 + p5, p6, p4[0]);
        lemma_contains_concat(p1 + p2 + p3 + p4 + p5 + p6, p7, p4[0]);
    }
    if a.pin is Some {
        assert(p5[0] == p5[0]);
        lemma_contains_concat(p1 + p2 + p3 + p4, p5, p5[0]);
        lemma_contains_concat(p1 + p2 + p3 + p4 + p5, p6, p5[0]);
        lemma_contains_concat(p1 + p2 + p3 + p4 + p5 + p6, p7, p5[0]);
    }
    if a.passcode is Some {
        assert(p6[0] == p6[0]);
        lemma_contains_concat(p1 + p2 + p3 + p4 + p5, p6, p6[0]);
        lemma_contains_concat(p1 + p2 + p3 + p4 + p5 + p6, p7, p6[0]);
    }
}

/// The views of a list of details.
pub open spec fn details_view(v: Seq<Detail>) -> Seq<DetailModel> {
    v.map_values(|d: Detail| d@)
}

fn push_detail(list: &mut Vec<Detail>, label: &str, value: String, hidden: bool)
    ensures
        details_view(final(list)@) == details_view(old(list)@).push(detail(label@, value@, hidden)),
{
    list.push(Detail { label: owned(label), value, hidden });
    assert(details_view(list@) =~= details_view(old(list)@).push(detail(label@, value@, hidden)));
}

/// The detail lines that view mode shows for an account.
#[verifier::rlimit(40)]
pub fn construct_detail_list(account: &Account) -> (r: Vec<Detail>)
    requires
        account.last_change.valid(),
        account.creation_date.valid(),
    ensures
        details_view(r@) == account_details(*account),
        secrets_hidden(details_view(r@)),
{
    let mut detail_list: Vec<Detail> = Vec::new();
    let (email, username) = match &account.contact {
        ContactInfo::Both(email, name) => (Some(email), Some(name)),
        ContactInfo::Email(email) => (Some(email), None),
        ContactInfo::Username(name) => (None, Some(name)),
    };
    let ghost e = email_text(account.contact);
    let ghost u = username_text(account.contact);
    assert(details_view(detail_list@) =~= Seq::<DetailModel>::empty());
    if let Some(username) = username {
        push_detail(&mut detail_list, "Username", username.clone(), false);
    }
    assert(details_view(detail_list@) =~= optional_detail("Username"@, u, false));
    if let Some(email) = email {
        push_detail(&mut detail_list, "Email", email.clone(), false);
    }
    assert(details_view(detail_list@) =~= optional_detail("Username"@, u, false)
        + optional_detail("Email"@, e, false));
    let ghost before = details_view(detail_list@);
    if let Some(password) = &account.password {
        push_detail(&mut detail_list, "Password", password.clone(), true);
    }
    assert(details_view(detail_list@) =~= before + optional_detail(
        "Password"@,
        opt_view(account.password),
        true,
    ));
    let ghost before = details_view(detail_list@);
    if let Some(access_token) = &account.access_token {
        push_detail(&mut detail_list, "Access Token", access_token.clone(), true);
    }
    assert(details_view(detail_list@) =~= before + optional_detail(
        "Access Token"@,
        opt_view(account.access_token),
        true,
    ));
    let ghost before = details_view(detail_list@);
    if let Some(pin) = account.pin {
        push_detail(&mut detail_list, "PIN", u32_to_decimal(pin), true);
    }
    assert(details_view(detail_list@) =~= before + optional_detail(
        "PIN"@,
        opt_decimal(account.pin),
        true,
    ));
    let ghost before = details_view(detail_list@);
    if let Some(passcode) = account.passcode {
        push_detail(&mut detail_list, "Passcode", u32_to_decimal(passcode), true);
    }
    assert(details_view(detail_list@) =~= before + optional_detail(
        "Passcode"@,
        opt_decimal(account.passcode),
        true,
    ));
    let ghost before = details_view(detail_list@);
    push_detail(&mut detail_list, "Last Change", format_current_date(account.last_change), false);
    push_detail(
        &mut detail_list,
        "Account Created",
        format_current_date(account.creation_date),
        false,
    );
    assert(details_view(detail_list@) =~= before + seq![
        detail("Last Change"@, date_in_words(account.last_change), false),
        detail("Account Created"@, date_in_words(account.creation_date), false),
    ]);
    proof {
        lemma_details_hide_secrets(*account);
    }
    detail_list
}

/// A detail line laid out in two columns: the label padded to `width` characters, then
/// the value.
pub fn format_detail_field(detail: &Detail, width: usize) -> (r: (String, String))
    ensures
        r.0@ == pad_right(detail.label@, width as nat),
        r.1@ == detail.value@,
{
    (padded(detail.label.as_str(), width), detail.value.clone())
}

/// A secret detail line laid out in two columns, its value masked as `[*]`.
pub fn format_hidden_detail_field(detail: &Detail, width: usize) -> (r: (String, String))
    ensures
        r.0@ == pad_right(detail.label@, width as nat),
        r.1@ == "[*]"@,
{
    (padded(detail.label.as_str(), width), owned("[*]"))
}

// ---------------------------------------------------------------------------
// Password generation
// ---------------------------------------------------------------------------

/// The settings of a passphrase: how many words, the padding character and how many of it
/// stand at each end, the separator, and how many digits stand on each side of the words.
#[derive(Debug, Clone, Copy, PartialEq, Eq, Structural)]
pub struct PassphraseSettings {
    pub word_count: usize,
    pub padding_char: char,
    pub padding_count: usize,
    pub separator: char,
    pub digit_count: usize,
}

#[verifier::external_type_specification]
#[verifier::external_body]
pub struct ExPassphraseGenerator(PassphraseGenerator);

/// The words that a generator draws from.
pub uninterp spec fn generator_words(g: PassphraseGenerator) -> Seq<Seq<char>>;

/// The settings that a generator was made with.
pub uninterp spec fn generator_settings(g: PassphraseGenerator) -> PassphraseSettings;

/// The settings of `rustpass::PassphraseConfig::default`.
pub open spec fn default_passphrase_settings() -> PassphraseSettings {
    PassphraseSettings {
        word_count: 3,
        padding_char: '.',
        padding_count: 3,
        separator: '-',
        digit_count: 3,
    }
}

/// `rustpass::PassphraseConfig::default`, read into plain values: three words, `.` as padding
/// three times at each end, `-` as separator, and three digits, as the crate's source sets them.
#[verifier::external_body]
pub(crate) fn default_settings() -> (r: PassphraseSettings)
    ensures
        r == default_passphrase_settings(),
{
    let c = PassphraseConfig::default();
    PassphraseSettings {
        word_count: c.word_count,
        padding_char: c.padding_char,
        padding_count: c.padding_count,
        separator: c.separator,
        digit_count: c.digit_count,
    }
}

/// The number of words in the EFF large word list that rustpass bundles.
pub open spec fn bundled_word_count() -> nat {
    7776
}

/// A word of the bundled list: lowercase ASCII letters and hyphens, at least one character.
pub open spec fn list_word(w: Seq<char>) -> bool {
    w.len() > 0 && forall|i: int| 0 <= i < w.len() ==> ('a' <= #[trigger] w[i] <= 'z' || w[i] == '-')
}

/// `rustpass::PassphraseGenerator::with_default_wordlist`, on a `PassphraseConfig` holding the
/// settings. As the crate's source and its bundled file show, it does not fail: the file has
/// 7776 lines, each a number, a tab and a word of lowercase letters and hyphens, and the
/// generator keeps the settings and those words.
#[verifier::external_body]
fn generator_with_default_wordlist(settings: PassphraseSettings) -> (r: Result<
    PassphraseGenerator,
    String,
>)
    ensures
        r matches Ok(g) && generator_settings(g) == settings && generator_words(g).len()
            == bundled_word_count() && forall|i: int|
            0 <= i < generator_words(g).len() ==> list_word(#[trigger] generator_words(g)[i]),
{
    let config = PassphraseConfig {
        word_count: settings.word_count,
        padding_char: settings.padding_char,
        padding_count: settings.padding_count,
        separator: settings.separator,
        digit_count: settings.digit_count,
    };
    PassphraseGenerator::with_default_wordlist(config).map_err(|e| e.to_string())
}

/// The text of a passphrase: the padding, the first digits, the separator, the words joined by
/// the separator, the separator, the second digits, and the padding again.
pub open spec fn passphrase_text(
    st: PassphraseSettings,
    ws: Seq<Seq<char>>,
    d1: Seq<char>,
    d2: Seq<char>,
) -> Seq<char> {
    repeated(st.padding_char, st.padding_count as nat) + d1 + seq![st.separator] + joined(
        ws,
        st.separator,
    ) + seq![st.separator] + d2 + repeated(st.padding_char, st.padding_count as nat)
}

/// Words joined by a separator (`[String]::join`).
pub open spec fn joined(ws: Seq<Seq<char>>, sep: char) -> Seq<char>
    decreases ws.len(),
{
    if ws.len() == 0 {
        Seq::empty()
    } else if ws.len() == 1 {
        ws[0]
    } else {
        joined(ws.drop_last(), sep) + seq![sep] + ws.last()
    }
}

/// `n` decimal digits.
pub open spec fn digit_string(d: Seq<char>, n: nat) -> bool {
    d.len() == n && forall|i: int| 0 <= i < d.len() ==> is_digit(#[trigger] d[i])
}

/// A passphrase drawn from `words`: `word_count` of them and `digit_count` digits on each
/// side, laid out as `passphrase_text` says.
pub open spec fn drawn_passphrase(st: PassphraseSettings, words: Seq<Seq<char>>, s: Seq<char>) -> bool {
    exists|ws: Seq<Seq<char>>, d1: Seq<char>, d2: Seq<char>|
        #[trigger] passphrase_text(st, ws, d1, d2) == s && ws.len() == st.word_count
            && digit_string(d1, st.digit_count as nat) && digit_string(d2, st.digit_count as nat)
            && forall|i: int| 0 <= i < ws.len() ==> words.contains(#[trigger] ws[i])
}

/// A passphrase made with the settings from words of the bundled list: `word_count` such words
/// and `digit_count` digits on each side, laid out as `passphrase_text` says.
pub open spec fn list_passphrase(st: PassphraseSettings, s: Seq<char>) -> bool {
    exists|ws: Seq<Seq<char>>, d1: Seq<char>, d2: Seq<char>|
        #[trigger] passphrase_text(st, ws, d1, d2) == s && ws.len() == st.word_count
            && digit_string(d1, st.digit_count as nat) && digit_string(d2, st.digit_count as nat)
            && forall|i: int| 0 <= i < ws.len() ==> list_word(#[trigger] ws[i])
}

/// The error of a generator with fewer words than the settings ask for.
pub open spec fn not_enough_words(needed: nat, present: nat) -> Seq<char> {
    "Not enough words in the wordlist: "@ + decimal(needed) + " are needed, but only "@ + decimal(
        present,
    ) + " are present."@
}

/// `rustpass::PassphraseGenerator::generate`: as the crate's source shows, it fails, with the
/// message `not_enough_words`, exactly where the generator has fewer words than it was made
/// to draw; otherwise it draws that many of its words and random digits and lays them out as
/// `passphrase_text` says. Which words and digits come out depends on chance and is not claimed.
#[verifier::external_body]
fn generate_passphrase(generator: &PassphraseGenerator) -> (r: Result<String, String>)
    ensures
        r is Err <==> generator_words(*generator).len() < generator_settings(*generator).word_count,
        r matches Err(e) ==> e@ == not_enough_words(
            generator_settings(*generator).word_count as nat,
            generator_words(*generator).len(),
        ),
        r matches Ok(s) ==> drawn_passphrase(
            generator_settings(*generator),
            generator_words(*generator),
            s@,
        ),
{
    generator.generate()
}

/// The outcome of generating with the settings: where more words are asked for than the
/// bundled list holds, the crate's message saying so; else a passphrase of words of the list
/// in the layout the settings ask for.
pub open spec fn generated(settings: PassphraseSettings, r: Result<String, String>) -> bool {
    if settings.word_count > bundled_word_count() {
        r matches Err(x) && x@ == not_enough_words(settings.word_count as nat, bundled_word_count())
    } else {
        r matches Ok(s) && list_passphrase(settings, s@)
    }
}

/// Generates a passphrase with the given settings from the bundled word list.
pub fn gen_password(settings: PassphraseSettings) -> (r: Result<String, String>)
    ensures
        generated(settings, r),
{
    match generator_with_default_wordlist(settings) {
        Ok(generator) => {
            let r = generate_passphrase(&generator);
            proof {
                if r is Ok {
                    let s = r->Ok_0;
                    let words = generator_words(generator);
                    let (ws, d1, d2) = choose|ws: Seq<Seq<char>>, d1: Seq<char>, d2: Seq<char>|
                        #[trigger] passphrase_text(settings, ws, d1, d2) == s@ && ws.len()
                            == settings.word_count && digit_string(d1, settings.digit_count as nat)
                            && digit_string(d2, settings.digit_count as nat) && forall|i: int|
                            0 <= i < ws.len() ==> words.contains(#[trigger] ws[i]);
                    assert forall|i: int| 0 <= i < ws.len() implies list_word(#[trigger] ws[i]) by {
                        assert(words.contains(ws[i]));
                        let j = choose|j: int| 0 <= j < words.len() && words[j] == ws[i];
                        assert(list_word(words[j]));
                    }
                    assert(passphrase_text(settings, ws, d1, d2) == s@);
                }
            }
            r
        },
        Err(e) => Err(e),
    }
}

// ---------------------------------------------------------------------------
// Rows of the edit form
// ---------------------------------------------------------------------------

/// How a field's text is shown: plain, or split around the input cursor (the middle part
/// is shown reversed).
#[derive(Debug)]
pub enum FieldText {
    Plain(String),
    Cursor(String, String, String),
}

/// One row of the edit form: the label column, the text, and the error line if any.
#[derive(Debug)]
pub struct FieldRow {
    pub label: String,
    pub text: FieldText,
    pub error: Option<(String, String)>,
}

/// The label column of a form row: `[ ` then the label padded to 20 characters, then `] `.
pub open spec fn label_column(label: Seq<char>) -> Seq<char> {
    "[ "@ + pad_right(label, 20) + "] "@
}

/// The text of a form row: an unselected row shows the value indented by two spaces; the
/// selected row shows it in brackets, and while it is being edited shows the input's text
/// split at the cursor's byte offset, the one-byte character under the cursor (or a space at
/// the end) apart.
pub open spec fn row_text(value: Seq<char>, selected: bool, input: Option<Input>) -> (
    Seq<char>,
    Option<(Seq<char>, Seq<char>)>,
) {
    if !selected {
        ("  "@ + value, None)
    } else {
        match input {
            None => ("[ "@ + value + " ]"@, None),
            Some(inp) => {
                let v = inp.value@;
                let k = char_index(v, inp.index as int);
                if k >= v.len() {
                    ("[ "@ + v.subrange(0, k), Some((" "@, " ]"@)))
                } else {
                    (
                        "[ "@ + v.subrange(0, k),
                        Some((seq![v[k]], v.subrange(k + 1, v.len() as int) + " ]"@)),
                    )
                }
            },
        }
    }
}

/// An input can be drawn split at its cursor: the cursor stands where a character starts or at
/// the end, and the character there takes one byte (`str::split_at` panics otherwise).
pub open spec fn drawable(inp: Input) -> bool {
    &&& inp.wf()
    &&& inp.at_boundary()
    &&& inp.index < byte_len(inp.value@) ==> utf8_width(
        inp.value@[char_index(inp.value@, inp.index as int)],
    ) == 1
}

/// A row's text as values.
pub open spec fn field_text_view(t: FieldText) -> (Seq<char>, Option<(Seq<char>, Seq<char>)>) {
    match t {
        FieldText::Plain(s) => (s@, None),
        FieldText::Cursor(a, b, c) => (a@, Some((b@, c@))),
    }
}

/// The error line of a row: `> ` then `ERROR` padded to 24 characters, then the message.
pub open spec fn error_line(e: Option<String>) -> Option<(Seq<char>, Seq<char>)> {
    match e {
        Some(m) => Some(("> "@ + pad_right("ERROR"@, 24), m@)),
        None => None,
    }
}

/// The row as values.
pub open spec fn row_view(r: FieldRow) -> (
    Seq<char>,
    (Seq<char>, Option<(Seq<char>, Seq<char>)>),
    Option<(Seq<char>, Seq<char>)>,
) {
    (
        r.label@,
        field_text_view(r.text),
        match r.error {
            Some(p) => Some((p.0@, p.1@)),
            None => None,
        },
    )
}

fn construct_field_row(field: &Field, selected: bool, input: Option<&Input>) -> (r: FieldRow)
    requires
        input matches Some(i) ==> drawable(*i),
    ensures
        row_view(r) == (
            label_column(field.label@),
            row_text(
                field.value@,
                selected,
                match input {
                    Some(i) => Some(*i),
                    None => None,
                },
            ),
            error_line(field.error),
        ),
{
    let mut label = owned("[ ");
    let col = padded(field.label.as_str(), 20);
    push_all(&mut label, col.as_str());
    push_all(&mut label, "] ");
    let text = if !selected {
        FieldText::Plain(concat2("  ", field.value.as_str()))
    } else {
        match input {
            None => {
                let mut t = concat2("[ ", field.value.as_str());
                push_all(&mut t, " ]");
                FieldText::Plain(t)
            },
            Some(inp) => {
                let n = byte_count(inp.value.as_str());
                let v = chars_of(inp.value.as_str());
                let k = char_at_byte(&v, inp.index);
                let prefix = string_of(&v, 0, k);
                let head = concat2("[ ", prefix.as_str());
                if k >= v.len() {
                    FieldText::Cursor(head, owned(" "), owned(" ]"))
                } else {
                    let at = string_of(&v, k, k + 1);
                    let rest = string_of(&v, k + 1, v.len());
                    let tail = concat2(rest.as_str(), " ]");
                    assert(at@ =~= seq![v@[k as int]]);
                    FieldText::Cursor(head, at, tail)
                }
            },
        }
    };
    let error = match &field.error {
        Some(e) => {
            let mut left = owned("> ");
            let word = padded("ERROR", 24);
            push_all(&mut left, word.as_str());
            Some((left, e.clone()))
        },
        None => None,
    };
    FieldRow { label, text, error }
}

/// The rows of the edit form, one per field, the selected one showing the input if any.
pub fn construct_field_list(list: &[Field], selected: Option<usize>, input: Option<&Input>) -> (r:
    Vec<FieldRow>)
    requires
        input matches Some(i) ==> drawable(*i),
    ensures
        r@.len() == list@.len(),
        forall|k: int|
            0 <= k < list@.len() ==> row_view(#[trigger] r@[k]) == (
                label_column(list@[k].label@),
                row_text(
                    list@[k].value@,
                    selected == Some(k as usize),
                    match input {
                        Some(i) => Some(*i),
                        None => None,
                    },
                ),
                error_line(list@[k].error),
            ),
{
    let mut rows: Vec<FieldRow> = Vec::new();
    let mut idx: usize = 0;
    while idx < list.len()
        invariant
            idx <= list@.len(),
            rows@.len() == idx,
            input matches Some(i) ==> drawable(*i),
            forall|k: int|
                0 <= k < idx ==> row_view(#[trigger] rows@[k]) == (
                    label_column(list@[k].label@),
                    row_text(
                        list@[k].value@,
                        selected == Some(k as usize),
                        match input {
                            Some(i) => Some(*i),
                            None => None,
                        },
                    ),
                    error_line(list@[k].error),
                ),
        decreases list@.len() - idx,
    {
        let is_selected = match selected {
            Some(s) => s == idx,
            None => false,
        };
        let row = construct_field_row(&list[idx], is_selected, input);
        rows.push(row);
        idx = idx + 1;
    }
    rows
}

} // verus!
