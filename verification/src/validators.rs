//! Checks that a form field runs on the text typed into it.
use vstd::prelude::*;
use crate::date::{chrono_date_parses, chrono_parses_date};
use crate::text::{has_white_space, is_blank, is_white_space, owned, parse_u32, parse_u32_text, same_text, trim, trimmed};

verus! {

/// The kinds of check a field can ask for.
#[derive(Debug, Clone, Copy, PartialEq, Eq, Structural)]
pub enum Validator {
    Email,
    Url,
    Date,
    Numeric,
    NonEmpty,
    NoWhitespace,
}

/// What `email_address_parser::EmailAddress::parse(s, None)` decides: whether `s` is an
/// email address under the crate's strict RFC 5322 grammar.
pub uninterp spec fn email_parses(s: Seq<char>) -> bool;

/// `email_address_parser::EmailAddress::parse` with the default (strict) options: whether it
/// returns `Some` is named by `email_parses`, a function of the text alone.
#[verifier::external_body]
fn parse_email(s: &str) -> (r: bool)
    ensures
        r == email_parses(s@),
{
    email_address_parser::EmailAddress::parse(s, None).is_some()
}

/// What `url::Url::parse(s)` followed by `Url::scheme` gives: `None` where the text is not
/// a URL, else the URL's scheme.
pub uninterp spec fn url_scheme(s: Seq<char>) -> Option<Seq<char>>;

/// `url::Url::parse`, then `Url::scheme` on the parsed URL: the outcome is named by
/// `url_scheme`, a function of the text alone.
#[verifier::external_body]
fn parse_url_scheme(s: &str) -> (r: Option<String>)
    ensures
        opt_seq(r) == url_scheme(s@),
{
    match url::Url::parse(s) {
        Ok(u) => Some(u.scheme().to_string()),
        Err(_) => None,
    }
}

/// The text of an optional string.
pub open spec fn opt_seq(o: Option<String>) -> Option<Seq<char>> {
    match o {
        Some(s) => Some(s@),
        None => None,
    }
}

/// The message of each check that fails, as the text of the field determines it.
pub open spec fn email_problem(s: Seq<char>) -> Option<Seq<char>> {
    if email_parses(trim(s)) {
        None
    } else {
        Some("Enter a valid email address."@)
    }
}

pub open spec fn url_problem(s: Seq<char>) -> Option<Seq<char>> {
    match url_scheme(trim(s)) {
        None => Some("Enter a valid URL."@),
        Some(scheme) => if scheme == "https"@ {
            None
        } else {
            Some("Please use https for the URL."@)
        },
    }
}

pub open spec fn date_problem(s: Seq<char>) -> Option<Seq<char>> {
    if chrono_parses_date(trim(s), "%Y-%m-%d"@) {
        None
    } else {
        Some("Incorrect date format - use YYYY-MM-DD."@)
    }
}

pub open spec fn numeric_problem(s: Seq<char>) -> Option<Seq<char>> {
    if s.len() == 0 || parse_u32(trim(s)) is Some {
        None
    } else {
        Some("Enter a valid string of digits."@)
    }
}

pub open spec fn non_empty_problem(s: Seq<char>) -> Option<Seq<char>> {
    if trim(s).len() == 0 {
        Some("This value must not be empty."@)
    } else {
        None
    }
}

pub open spec fn no_whitespace_problem(s: Seq<char>) -> Option<Seq<char>> {
    if exists|i: int| 0 <= i < s.len() && is_white_space(#[trigger] s[i]) {
        Some("This value must not contain whitespace."@)
    } else {
        None
    }
}

/// The message with which a check rejects a text, or `None` where it accepts it.
pub open spec fn problem(v: Validator, s: Seq<char>) -> Option<Seq<char>> {
    match v {
        Validator::Email => email_problem(s),
        Validator::Url => url_problem(s),
        Validator::Date => date_problem(s),
        Validator::Numeric => numeric_problem(s),
        Validator::NonEmpty => non_empty_problem(s),
        Validator::NoWhitespace => no_whitespace_problem(s),
    }
}

/// The outcome of a check as a value: `Ok` or the error message.
pub open spec fn check_outcome(r: Result<(), String>) -> Option<Seq<char>> {
    match r {
        Ok(_) => None,
        Err(e) => Some(e@),
    }
}

impl Validator {
    /// Runs the check on a text: `Ok` where it accepts it, else the message to show.
    pub fn validate(&self, value: &str) -> (r: Result<(), String>)
        ensures
            check_outcome(r) == problem(*self, value@),
    {
        match self {
            Self::Email => validate_email(value),
            Self::Url => validate_url(value),
            Self::Date => validate_date(value),
            Self::Numeric => validate_numeric(value),
            Self::NonEmpty => validate_non_empty(value),
            Self::NoWhitespace => validate_no_whitespace(value),
        }
    }
}

pub fn validate_email(s: &str) -> (r: Result<(), String>)
    ensures
        check_outcome(r) == email_problem(s@),
{
    let t = trimmed(s);
    if parse_email(t.as_str()) {
        Ok(())
    } else {
        Err(owned("Enter a valid email address."))
    }
}

pub fn validate_url(s: &str) -> (r: Result<(), String>)
    ensures
        check_outcome(r) == url_problem(s@),
{
    let t = trimmed(s);
    match parse_url_scheme(t.as_str()) {
        None => Err(owned("Enter a valid URL.")),
        Some(scheme) => {
            if same_text(scheme.as_str(), "https") {
                Ok(())
            } else {
                Err(owned("Please use https for the URL."))
            }
        },
    }
}

pub fn validate_date(s: &str) -> (r: Result<(), String>)
    ensures
        check_outcome(r) == date_problem(s@),
{
    let t = trimmed(s);
    if chrono_date_parses(t.as_str(), "%Y-%m-%d") {
        Ok(())
    } else {
        Err(owned("Incorrect date format - use YYYY-MM-DD."))
    }
}

pub fn validate_numeric(s: &str) -> (r: Result<(), String>)
    ensures
        check_outcome(r) == numeric_problem(s@),
{
    if s.is_empty() {
        return Ok(());
    }
    let t = trimmed(s);
    match parse_u32_text(t.as_str()) {
        Some(_) => Ok(()),
        None => Err(owned("Enter a valid string of digits.")),
    }
}

pub fn validate_non_empty(s: &str) -> (r: Result<(), String>)
    ensures
        check_outcome(r) == non_empty_problem(s@),
{
    if is_blank(s) {
        Err(owned("This value must not be empty."))
    } else {
        Ok(())
    }
}

pub fn validate_no_whitespace(s: &str) -> (r: Result<(), String>)
    ensures
        check_outcome(r) == no_whitespace_problem(s@),
{
    if has_white_space(s) {
        Err(owned("This value must not contain whitespace."))
    } else {
        Ok(())
    }
}

} // verus!
