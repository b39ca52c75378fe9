//! Principals: the byte strings that name senders and canisters, and their
//! textual form.
use vstd::prelude::*;

verus! {

/// The greatest number of bytes a principal can have.
pub const MAX_PRINCIPAL_LENGTH: usize = 29;

/// The textual form of the principal with the given bytes.
pub uninterp spec fn principal_text(bytes: Seq<u8>) -> Seq<char>;

/// The bytes of the principal that a text denotes, if it denotes one.
pub uninterp spec fn principal_from_text(text: Seq<char>) -> Option<Seq<u8>>;

/// A principal, held as its bytes.
#[derive(Debug)]
pub struct Principal {
    bytes: Vec<u8>,
}

impl View for Principal {
    type V = Seq<u8>;

    closed spec fn view(&self) -> Seq<u8> {
        self.bytes@
    }
}

/// `candid::Principal::to_text`, on the principal made by
/// `candid::Principal::from_slice`: the text depends on the bytes alone.
/// `from_slice` panics on more than 29 bytes, which are left out.
#[verifier::external_body]
fn principal_to_text(bytes: &Vec<u8>) -> (text: String)
    requires
        bytes@.len() <= MAX_PRINCIPAL_LENGTH,
    ensures
        text@ == principal_text(bytes@),
{
    candid::Principal::from_slice(bytes.as_slice()).to_text()
}

/// `candid::Principal::from_text`: whether a text denotes a principal, and
/// which, depends on the text alone; a principal it yields has at most 29
/// bytes.
#[verifier::external_body]
fn principal_parse_text(text: &str) -> (bytes: Option<Vec<u8>>)
    ensures
        bytes is Some <==> principal_from_text(text@) is Some,
        bytes matches Some(b) ==> b@ == principal_from_text(text@)->Some_0 && b@.len()
            <= MAX_PRINCIPAL_LENGTH,
{
    match candid::Principal::from_text(text) {
        Ok(p) => Some(p.as_slice().to_vec()),
        Err(_) => None,
    }
}

impl Clone for Principal {
    fn clone(&self) -> (p: Principal)
        ensures
            p@ == self@,
    {
        proof {
            use_type_invariant(self);
        }
        Principal { bytes: self.bytes.clone() }
    }
}

impl Principal {
    /// Every principal has at most 29 bytes.
    #[verifier::type_invariant]
    pub closed spec fn well_formed(&self) -> bool {
        self.bytes@.len() <= MAX_PRINCIPAL_LENGTH
    }

    /// The principal with the given bytes, or `None` where there are more
    /// than 29 of them.
    pub fn try_from_slice(bytes: &Vec<u8>) -> (r: Option<Principal>)
        ensures
            r is Some <==> bytes@.len() <= MAX_PRINCIPAL_LENGTH,
            r matches Some(p) ==> p@ == bytes@,
    {
        if bytes.len() <= MAX_PRINCIPAL_LENGTH {
            Some(Principal { bytes: bytes.clone() })
        } else {
            None
        }
    }

    /// The principal with the given bytes.
    pub fn from_slice(bytes: &Vec<u8>) -> (p: Principal)
        requires
            bytes@.len() <= MAX_PRINCIPAL_LENGTH,
        ensures
            p@ == bytes@,
    {
        Principal { bytes: bytes.clone() }
    }

    /// The bytes of the principal.
    pub fn as_slice(&self) -> (bytes: &Vec<u8>)
        ensures
            bytes@ == self@,
            bytes@.len() <= MAX_PRINCIPAL_LENGTH,
    {
        proof {
            use_type_invariant(self);
        }
        &self.bytes
    }

    /// The textual form of the principal.
    pub fn to_text(&self) -> (text: String)
        ensures
            text@ == principal_text(self@),
    {
        proof {
            use_type_invariant(self);
        }
        principal_to_text(&self.bytes)
    }

    /// The principal that a text denotes, if it denotes one.
    pub fn from_text(text: &str) -> (r: Option<Principal>)
        ensures
            r is Some <==> principal_from_text(text@) is Some,
            r matches Some(p) ==> Some(p@) == principal_from_text(text@),
    {
        match principal_parse_text(text) {
            Some(bytes) => Some(Principal { bytes }),
            None => None,
        }
    }
}

} // verus!
