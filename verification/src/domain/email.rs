//! The address that outgoing mail is sent from.

use validator::ValidateEmail;
use vstd::prelude::*;
use vstd::string::*;

verus! {

/// The verdict of the `validator` crate on a string: whether it reads as an
/// e-mail address by the HTML5 grammar (local part, `@`, domain or bracketed
/// IP literal, with the length limits of RFC 5321).
pub uninterp spec fn email_syntax_ok(s: Seq<char>) -> bool;

/// A string is a valid e-mail address when the grammar accepts it. An accepted
/// string is never empty and always holds an `@`.
pub open spec fn is_valid_email(s: Seq<char>) -> bool {
    &&& email_syntax_ok(s)
    &&& s.len() > 0
    &&& s.contains('@')
}

/// What `Email::parse` answers for a string it rejects.
pub open spec fn email_error(s: Seq<char>) -> Seq<char> {
    s + " is not a valid email."@
}

/// Asks `validator::ValidateEmail::validate_email` about `s`.
///
/// Trusted: the answer is the crate's verdict, named [`email_syntax_ok`]. The
/// crate answers `false` at once for an empty string and for one without `@`;
/// that much is stated, the rest of its grammar is not.
#[verifier::external_body]
pub(crate) fn validate_email(s: &str) -> (valid: bool)
    ensures
        valid == email_syntax_ok(s@),
        valid ==> s@.len() > 0 && s@.contains('@'),
{
    s.validate_email()
}

/// A syntactically valid e-mail address.
#[derive(Debug)]
pub struct Email(String);

impl View for Email {
    type V = Seq<char>;

    closed spec fn view(&self) -> Seq<char> {
        self.0@
    }
}

impl Email {
    #[verifier::type_invariant]
    spec fn valid(self) -> bool {
        is_valid_email(self.0@)
    }

    /// Accepts `s` if it is a valid e-mail address, and says why not otherwise.
    pub fn parse(s: String) -> (r: Result<Email, String>)
        ensures
            r is Ok <==> is_valid_email(s@),
            r matches Ok(email) ==> email@ == s@,
            r matches Err(msg) ==> msg@ == email_error(s@),
            s@.len() == 0 || !s@.contains('@') ==> r is Err,
    {
        let valid = validate_email(s.as_str());
        Email::from_verdict(s, valid)
    }

    /// Wraps `s` or turns it down, given the verdict on it.
    pub fn from_verdict(s: String, valid: bool) -> (r: Result<Email, String>)
        requires
            valid == is_valid_email(s@),
        ensures
            r is Ok <==> valid,
            r matches Ok(email) ==> email@ == s@,
            r matches Err(msg) ==> msg@ == email_error(s@),
    {
        if valid {
            Ok(Email(s))
        } else {
            let mut msg = s;
            msg.append(" is not a valid email.");
            Err(msg)
        }
    }

    /// The address as text.
    pub fn as_ref(&self) -> (s: &str)
        ensures
            s@ == self@,
            is_valid_email(s@),
    {
        proof {
            use_type_invariant(self);
        }
        self.0.as_str()
    }

    /// The address as an owned string.
    pub fn to_string(&self) -> (s: String)
        ensures
            s@ == self@,
            is_valid_email(s@),
    {
        proof {
            use_type_invariant(self);
        }
        self.0.clone()
    }
}

impl Clone for Email {
    fn clone(&self) -> (r: Self)
        ensures
            r@ == self@,
    {
        proof {
            use_type_invariant(self);
        }
        Email(self.0.clone())
    }
}

impl PartialEq for Email {
    fn eq(&self, other: &Self) -> (r: bool) {
        self.0 == other.0
    }
}

impl vstd::std_specs::cmp::PartialEqSpecImpl for Email {
    open spec fn obeys_eq_spec() -> bool {
        true
    }

    open spec fn eq_spec(&self, other: &Self) -> bool {
        self@ == other@
    }
}

} // verus!
