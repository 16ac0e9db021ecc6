//! Values that can check themselves, and an e-mail address as an example.

use vstd::prelude::*;
use vstd::string::*;

verus! {

/// A value that knows whether it is valid.
pub trait Validator {
    type Error;

    /// True when the value is valid.
    spec fn valid(&self) -> bool;

    /// `Ok` for a valid value, and else the reason why it is not.
    fn validate(&self) -> (r: Result<(), Self::Error>)
        ensures
            r is Ok == self.valid(),
    ;

    /// True when the value is valid.
    fn is_valid(&self) -> (r: bool)
        ensures
            r == self.valid(),
    {
        self.validate().is_ok()
    }
}

/// An e-mail address as it was typed.
#[derive(Debug, Clone)]
pub struct Email(pub String);

/// Why an e-mail address is refused.
#[derive(Debug, Clone, Copy, PartialEq, Eq, Structural)]
pub enum EmailError {
    Empty,
    NoAtSymbol,
    InvalidFormat,
}

/// The first fault of an address, if it has one: it is empty, it has no
/// `@`, or it has no dot.
pub open spec fn email_fault(text: Seq<char>) -> Option<EmailError> {
    if text.len() == 0 {
        Some(EmailError::Empty)
    } else if !text.contains('@') {
        Some(EmailError::NoAtSymbol)
    } else if !text.contains('.') {
        Some(EmailError::InvalidFormat)
    } else {
        None
    }
}

/// True when `c` occurs in `text`.
pub fn has_char(text: &str, c: char) -> (r: bool)
    ensures
        r == text@.contains(c),
{
    let n: usize = text.unicode_len();
    let mut i: usize = 0;
    while i < n
        invariant
            i <= n,
            n == text@.len(),
            forall|j: int| 0 <= j < i ==> text@[j] != c,
        decreases n - i,
    {
        if text.get_char(i) == c {
            return true;
        }
        i = i + 1;
    }
    false
}

impl Validator for Email {
    type Error = EmailError;

    open spec fn valid(&self) -> bool {
        email_fault(self.0@) is None
    }

    fn validate(&self) -> (r: Result<(), EmailError>)
        ensures
            match r {
                Ok(_) => email_fault(self.0@) is None,
                Err(e) => email_fault(self.0@) == Some(e),
            },
    {
        let text: &str = self.0.as_str();
        if text.unicode_len() == 0 {
            return Err(EmailError::Empty);
        }
        if !has_char(text, '@') {
            return Err(EmailError::NoAtSymbol);
        }
        if !has_char(text, '.') {
            return Err(EmailError::InvalidFormat);
        }
        Ok(())
    }
}

} // verus!
