//! The address a subscriber is reached at.

use validator::ValidateEmail;
use vstd::prelude::*;

verus! {

/// The verdict of the HTML5 address syntax check on `text`.
pub uninterp spec fn passes_address_syntax(text: Seq<char>) -> bool;

/// `text` holds an `@` that something stands in front of.
pub open spec fn has_local_part(text: Seq<char>) -> bool {
    text.contains('@') && text[0] != '@'
}

/// `ValidateEmail::validate_email` on a `String` checks the text against the
/// address syntax of the HTML5 specification, by patterns fixed in the crate;
/// `passes_address_syntax` stands for its verdict. It turns down a text
/// without `@`, and one in which nothing but further `@` could stand before
/// the last `@`, so an accepted text has a local part.
#[verifier::external_body]
fn validate_email(value: &String) -> (accepted: bool)
    ensures
        accepted == passes_address_syntax(value@),
        accepted ==> has_local_part(value@),
{
    value.validate_email()
}

/// The texts that are email addresses.
pub open spec fn is_email(text: Seq<char>) -> bool {
    passes_address_syntax(text) && has_local_part(text)
}

/// The message that reports `text` as rejected.
pub open spec fn email_rejection(text: Seq<char>) -> Seq<char> {
    "The value provided is not a valid email address. value = "@ + text
}

/// An email address that passed the syntax check.
#[derive(Debug)]
pub struct SubscriberEmail(String);

impl View for SubscriberEmail {
    type V = Seq<char>;

    closed spec fn view(&self) -> Seq<char> {
        self.0@
    }
}

impl Clone for SubscriberEmail {
    fn clone(&self) -> (copy: Self)
        ensures
            copy@ == self@,
    {
        proof {
            use_type_invariant(self);
        }
        SubscriberEmail(self.0.clone())
    }
}

impl PartialEq for SubscriberEmail {
    fn eq(&self, other: &Self) -> (equal: bool) {
        self.0 == other.0
    }
}

impl vstd::std_specs::cmp::PartialEqSpecImpl for SubscriberEmail {
    open spec fn obeys_eq_spec() -> bool {
        true
    }

    open spec fn eq_spec(&self, other: &Self) -> bool {
        self@ == other@
    }
}

impl SubscriberEmail {
    #[verifier::type_invariant]
    spec fn holds_an_email(&self) -> bool {
        is_email(self.0@)
    }

    /// Accepts `value` as an address if and only if it is one, and otherwise
    /// reports it.
    pub fn parse(value: String) -> (r: Result<SubscriberEmail, String>)
        ensures
            r is Ok <==> is_email(value@),
            r matches Ok(email) ==> email@ == value@,
            r matches Err(message) ==> message@ == email_rejection(value@),
    {
        if validate_email(&value) {
            Ok(SubscriberEmail(value))
        } else {
            Err(Self::rejection(value.as_str()))
        }
    }

    /// The message that reports `value` as rejected.
    pub fn rejection(value: &str) -> (message: String)
        ensures
            message@ == email_rejection(value@),
    {
        let mut message = "The value provided is not a valid email address. value = ".to_owned();
        message.append(value);
        message
    }

    /// The address as text.
    pub fn as_ref(&self) -> (text: &str)
        ensures
            text@ == self@,
            is_email(text@),
    {
        proof {
            use_type_invariant(self);
        }
        self.0.as_str()
    }
}

/// No text without an `@` is an email address.
pub proof fn lemma_email_needs_at_sign(text: Seq<char>)
    requires
        !text.contains('@'),
    ensures
        !is_email(text),
{
}

/// No text that begins with `@`, and so has an empty local part, is an email
/// address.
pub proof fn lemma_email_needs_local_part(text: Seq<char>)
    requires
        text.len() > 0,
        text[0] == '@',
    ensures
        !is_email(text),
{
}

} // verus!
