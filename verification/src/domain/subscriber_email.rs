//! The address of a subscriber.

use crate::domain::email::{is_valid_email, validate_email};
use vstd::prelude::*;
use vstd::string::*;

verus! {

/// What `SubscriberEmail::parse` answers for a string it rejects.
pub open spec fn subscriber_email_error(s: Seq<char>) -> Seq<char> {
    s + " is not a valid subscriber email."@
}

/// The e-mail address of a subscriber, syntactically valid.
#[derive(Debug)]
pub struct SubscriberEmail(String);

impl View for SubscriberEmail {
    type V = Seq<char>;

    closed spec fn view(&self) -> Seq<char> {
        self.0@
    }
}

impl SubscriberEmail {
    #[verifier::type_invariant]
    spec fn valid(self) -> bool {
        is_valid_email(self.0@)
    }

    /// Accepts `s` if it is a valid e-mail address, and says why not otherwise.
    pub fn parse(s: String) -> (r: Result<SubscriberEmail, String>)
        ensures
            r is Ok <==> is_valid_email(s@),
            r matches Ok(email) ==> email@ == s@,
            r matches Err(msg) ==> msg@ == subscriber_email_error(s@),
            s@.len() == 0 || !s@.contains('@') ==> r is Err,
    {
        let valid = validate_email(s.as_str());
        SubscriberEmail::from_verdict(s, valid)
    }

    /// Wraps `s` or turns it down, given the verdict on it.
    pub fn from_verdict(s: String, valid: bool) -> (r: Result<SubscriberEmail, String>)
        requires
            valid == is_valid_email(s@),
        ensures
            r is Ok <==> valid,
            r matches Ok(email) ==> email@ == s@,
            r matches Err(msg) ==> msg@ == subscriber_email_error(s@),
    {
        if valid {
            Ok(SubscriberEmail(s))
        } else {
            let mut msg = s;
            msg.append(" is not a valid subscriber email.");
            Err(msg)
        }
    }

    /// The address as text.
    pub fn as_ref(&self) -> (s: &str)
        ensures
            s@ == self@,
            is_valid_email(s@),
    {
        proof {
            use_type_invariant(self);
        }
        self.0.as_str()
    }
}

impl Clone for SubscriberEmail {
    fn clone(&self) -> (r: Self)
        ensures
            r@ == self@,
    {
        proof {
            use_type_invariant(self);
        }
        SubscriberEmail(self.0.clone())
    }
}

impl PartialEq for SubscriberEmail {
    fn eq(&self, other: &Self) -> (r: bool) {
        self.0 == other.0
    }
}

impl vstd::std_specs::cmp::PartialEqSpecImpl for SubscriberEmail {
    open spec fn obeys_eq_spec() -> bool {
        true
    }

    open spec fn eq_spec(&self, other: &Self) -> bool {
        self@ == other@
    }
}

} // verus!
