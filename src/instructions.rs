//! The program's instructions.
use vstd::prelude::*;

verus! {

/// Anchor's error type, which an instruction returns on failure.
#[verifier::external_type_specification]
#[verifier::external_body]
pub struct ExAnchorError(anchor_lang::error::Error);

/// The accounts that `initialize` takes: none.
pub struct Initialize {}

/// Sets the program up. It takes no account, changes nothing and always
/// succeeds.
pub fn initialize(_accounts: &Initialize) -> (r: Result<(), anchor_lang::error::Error>)
    ensures
        r is Ok,
{
    Ok(())
}

} // verus!
