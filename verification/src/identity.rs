//! Which identity signs, and what its configuration must hold.
use vstd::prelude::*;
use vstd::string::*;

verus! {

/// The kinds of identity.
#[derive(Clone, Copy, Debug, PartialEq, Eq, Structural)]
pub enum IdentityKind {
    /// A key in a PEM file.
    Basic,
    /// A key in a hardware security module.
    Hsm,
}

/// The sentence that asks for a missing variable.
pub open spec fn missing_variable_message(name: Seq<char>) -> Seq<char> {
    "Need to specify the "@ + name + " environment variable"@
}

/// The name of the variable that holds the PIN of the hardware security
/// module.
pub open spec fn hsm_pin_variable() -> Seq<char> {
    "HSM_PIN"@
}

/// The value of a configuration variable, or the sentence that asks for it
/// where it is not set.
pub fn expect_env_var(name: &str, value: Option<String>) -> (r: Result<String, String>)
    ensures
        match value {
            Some(v) => r matches Ok(t) && t@ == v@,
            None => r matches Err(m) && m@ == missing_variable_message(name@),
        },
{
    match value {
        Some(v) => Ok(v),
        None => {
            let mut message = String::from_str("Need to specify the ");
            message.append(name);
            message.append(" environment variable");
            Err(message)
        },
    }
}

/// The PIN of the hardware security module, given the value of `HSM_PIN`,
/// or the sentence that asks for it where it is not set.
pub fn get_hsm_pin(value: Option<String>) -> (r: Result<String, String>)
    ensures
        match value {
            Some(v) => r matches Ok(t) && t@ == v@,
            None => r matches Err(m) && m@ == missing_variable_message(hsm_pin_variable()),
        },
{
    expect_env_var("HSM_PIN", value)
}

/// The kind of identity to create: the one in the hardware security module
/// where that is asked for, and the one in the PEM file otherwise.
pub fn create_identity(use_hsm: bool) -> (kind: IdentityKind)
    ensures
        kind == (if use_hsm {
            IdentityKind::Hsm
        } else {
            IdentityKind::Basic
        }),
{
    if use_hsm {
        IdentityKind::Hsm
    } else {
        IdentityKind::Basic
    }
}

} // verus!
