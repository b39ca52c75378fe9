//! The command that shows the principal of the selected identity.
use vstd::prelude::*;
use crate::principal::{principal_text, Principal};

verus! {

/// Prints the selected identity's principal.
#[derive(Clone, Copy, Debug)]
pub struct GetPrincipalOpts {}

/// What the command prints: the textual form of the sender.
pub fn exec(_opts: GetPrincipalOpts, sender: &Principal) -> (text: String)
    ensures
        text@ == principal_text(sender@),
{
    sender.to_text()
}

} // verus!
