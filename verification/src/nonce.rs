//! The nonce that a response's content security policy names, and the policy
//! itself.

use rand::Rng;
use std::rc::Rc;
use vstd::prelude::*;
use vstd::string::StringExecFns;

verus! {

/// How many random bytes a nonce is made of.
pub const NONCE_BYTES: usize = 32;

/// The standard base64 encoding, with padding, of a sequence of bytes.
pub uninterp spec fn base64_of(bytes: Seq<u8>) -> Seq<char>;

/// `Rng::gen` on `rand::thread_rng()`: 32 bytes of which nothing is known.
#[verifier::external_body]
fn random_bytes() -> [u8; 32] {
    rand::thread_rng().gen()
}

/// `base64::encode`.
#[verifier::external_body]
fn base64_encode(bytes: &[u8; 32]) -> (text: String)
    ensures
        text@ == base64_of(bytes@),
{
    base64::encode(bytes)
}

/// The text of a nonce.
#[derive(Clone, Debug)]
pub struct NonceInner(String);

impl View for NonceInner {
    type V = Seq<char>;

    closed spec fn view(&self) -> Seq<char> {
        self.0@
    }
}

impl NonceInner {
    /// Whether `text` is the encoding of `NONCE_BYTES` bytes.
    pub open spec fn well_made(text: Seq<char>) -> bool {
        exists|bytes: Seq<u8>| bytes.len() == NONCE_BYTES && text == base64_of(bytes)
    }

    /// The nonce made of `bytes`.
    pub fn from_bytes(bytes: &[u8; 32]) -> (nonce: Self)
        ensures
            nonce@ == base64_of(bytes@),
            Self::well_made(nonce@),
    {
        NonceInner(base64_encode(bytes))
    }

    /// The nonce as text.
    pub fn as_str(&self) -> (text: &str)
        ensures
            text@ == self@,
    {
        self.0.as_str()
    }
}

impl Default for NonceInner {
    /// A fresh nonce, made of random bytes.
    fn default() -> (nonce: Self)
        ensures
            Self::well_made(nonce@),
    {
        let bytes = random_bytes();
        NonceInner::from_bytes(&bytes)
    }
}

/// A nonce that is shared between a request and the response to it.
pub struct Nonce(Rc<NonceInner>);

impl View for Nonce {
    type V = Seq<char>;

    closed spec fn view(&self) -> Seq<char> {
        (*self.0)@
    }
}

impl Nonce {
    /// Another handle on the nonce that a request was given, if it was given
    /// one.
    pub fn get_nonce(found: Option<&Rc<NonceInner>>) -> (nonce: Option<Self>)
        ensures
            match found {
                Some(inner) => nonce matches Some(shared) && shared@ == (**inner)@,
                None => nonce is None,
            },
    {
        match found {
            Some(inner) => Some(Nonce(Rc::clone(inner))),
            None => None,
        }
    }

    /// The nonce as text.
    pub fn to_string(&self) -> (text: String)
        ensures
            text@ == self@,
    {
        String::from_str(self.0.as_str())
    }
}

/// The content security policy that admits scripts and styles carrying
/// `nonce`.
pub open spec fn spec_policy(nonce: Seq<char>) -> Seq<char> {
    "default-src: 'self'; script-src: nonce-"@ + nonce + "; style-src: 'unsafe-inline' nonce-"@
        + nonce + ", connect-src: 'self' ws: wss:;"@
}

/// Writes out the content security policy for `nonce`.
pub fn policy(nonce: &str) -> (text: String)
    ensures
        text@ == spec_policy(nonce@),
{
    let mut text = String::from_str("default-src: 'self'; script-src: nonce-");
    text.append(nonce);
    text.append("; style-src: 'unsafe-inline' nonce-");
    text.append(nonce);
    text.append(", connect-src: 'self' ws: wss:;");
    text
}

/// The header that a response still needs: the policy, unless the response
/// already carries one.
pub fn missing_header(present: bool, policy: String) -> (header: Option<String>)
    ensures
        header == if present {
            None
        } else {
            Some(policy)
        },
{
    if present {
        None
    } else {
        Some(policy)
    }
}

/// Makes the middleware that gives every request a nonce.
#[derive(Clone, Copy, Debug, Default)]
pub struct CSPNonce;

/// Wraps a service so that each request is given a nonce and each response a
/// content security policy that names it.
pub struct CSPNonceMiddleware<S> {
    pub service: S,
}

impl CSPNonce {
    /// Wraps `service`.
    pub fn new_transform<S>(&self, service: S) -> (middleware: CSPNonceMiddleware<S>)
        ensures
            middleware.service == service,
    {
        CSPNonceMiddleware { service }
    }
}

impl<S> CSPNonceMiddleware<S> {
    /// What a request is given before the wrapped service sees it: a fresh
    /// nonce, and the policy that the response will carry.
    pub fn call(&self) -> (out: (Rc<NonceInner>, String))
        ensures
            NonceInner::well_made((*out.0)@),
            out.1@ == spec_policy((*out.0)@),
    {
        let nonce = NonceInner::default();
        let text = policy(nonce.as_str());
        (Rc::new(nonce), text)
    }
}

} // verus!
