//! The rules of the sign-in and sign-up forms.

use vstd::prelude::*;
use vstd::string::*;
use crate::text::{contains_char, same_text};

verus! {

/// The length of a text in bytes of UTF-8.
pub open spec fn byte_len(value: Seq<char>) -> nat {
    vstd::utf8::encode_utf8(value).len()
}

/// What is wrong with a user name, if anything.
pub open spec fn username_fault(value: Seq<char>) -> Option<Seq<char>> {
    if value.len() == 0 {
        Some("Username is required"@)
    } else if byte_len(value) < 3 {
        Some("Username must be at least 3 characters"@)
    } else {
        None
    }
}

/// What is wrong with a password, if anything.
pub open spec fn password_fault(value: Seq<char>) -> Option<Seq<char>> {
    if value.len() == 0 {
        Some("Password is required"@)
    } else if byte_len(value) < 8 {
        Some("Password must be at least 8 characters"@)
    } else {
        None
    }
}

/// What is wrong with an e-mail address, if anything.
pub open spec fn email_fault(value: Seq<char>) -> Option<Seq<char>> {
    if value.len() == 0 {
        Some("Email is required"@)
    } else if !value.contains('@') {
        Some("Invalid email format"@)
    } else {
        None
    }
}

/// Whether a sign-up form may be sent.
pub open spec fn form_valid(
    username: Seq<char>,
    email: Seq<char>,
    password: Seq<char>,
    confirm_password: Seq<char>,
) -> bool {
    &&& username.len() > 0
    &&& email.len() > 0
    &&& password.len() > 0
    &&& confirm_password.len() > 0
    &&& password == confirm_password
    &&& email.contains('@')
    &&& byte_len(username) >= 3
    &&& byte_len(password) >= 8
}

/// Checks a user name: it must be there and at least three bytes long.
pub fn username_error(value: &str) -> (r: Option<&'static str>)
    ensures
        match r {
            Some(message) => username_fault(value@) == Some(message@),
            None => username_fault(value@) is None,
        },
{
    if value.is_empty() {
        Some("Username is required")
    } else if value.as_bytes().len() < 3 {
        Some("Username must be at least 3 characters")
    } else {
        None
    }
}

/// Checks a password: it must be there and at least eight bytes long.
pub fn password_error(value: &str) -> (r: Option<&'static str>)
    ensures
        match r {
            Some(message) => password_fault(value@) == Some(message@),
            None => password_fault(value@) is None,
        },
{
    if value.is_empty() {
        Some("Password is required")
    } else if value.as_bytes().len() < 8 {
        Some("Password must be at least 8 characters")
    } else {
        None
    }
}

/// Checks an e-mail address: it must be there and hold an `@`.
pub fn email_error(value: &str) -> (r: Option<&'static str>)
    ensures
        match r {
            Some(message) => email_fault(value@) == Some(message@),
            None => email_fault(value@) is None,
        },
{
    if value.is_empty() {
        Some("Email is required")
    } else if !contains_char(value, '@') {
        Some("Invalid email format")
    } else {
        None
    }
}

/// Whether a sign-up form may be sent.
pub fn is_form_valid(username: &str, email: &str, password: &str, confirm_password: &str) -> (r:
    bool)
    ensures
        r == form_valid(username@, email@, password@, confirm_password@),
{
    !username.is_empty() && !email.is_empty() && !password.is_empty()
        && !confirm_password.is_empty() && same_text(password, confirm_password) && contains_char(
        email,
        '@',
    ) && username.as_bytes().len() >= 3 && password.as_bytes().len() >= 8
}

} // verus!
