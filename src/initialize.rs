use vstd::prelude::*;

use crate::address::{find_vault_address, program_address, vault_seeds, ProgramAddress};
use crate::error::ErrorCode;

verus! {

/// The record that initialization creates: the shared reward vault's
/// balance, or `None` while the vault does not exist.
#[derive(Clone, Copy, Debug, PartialEq, Eq, Structural)]
pub struct Initialize {
    pub token_vault_account: Option<u64>,
}

/// The record after initializing under `program_id`, and the reward vault's
/// address or the error.
pub open spec fn initialize_outcome(c: Initialize, program_id: Seq<u8>) -> (
    Initialize,
    Result<Seq<u8>, ErrorCode>,
) {
    match program_address(vault_seeds(), program_id) {
        Some(found) => (
            Initialize {
                token_vault_account: match c.token_vault_account {
                    Some(balance) => Some(balance),
                    None => Some(0u64),
                },
            },
            Ok(found.0),
        ),
        None => (c, Err(ErrorCode::DerivationFailed)),
    }
}

/// Makes sure the reward vault exists at its derived address, creating it
/// empty where it does not, and returns that address with its bump seed. An
/// existing vault is left as it is.
pub fn initialize(ctx: &mut Initialize, program_id: &[u8; 32]) -> (r: Result<
    ProgramAddress,
    ErrorCode,
>)
    ensures
        *final(ctx) == initialize_outcome(*old(ctx), program_id@).0,
        match initialize_outcome(*old(ctx), program_id@).1 {
            Ok(address) => r matches Ok(p) && p.address@ == address,
            Err(e) => r == Err::<ProgramAddress, ErrorCode>(e),
        },
{
    let found = find_vault_address(program_id);
    if found.is_ok() && ctx.token_vault_account.is_none() {
        ctx.token_vault_account = Some(0);
    }
    found
}

/// Initializing twice is initializing once: the second call gives the same
/// reward vault address and changes nothing, and a vault that already exists
/// keeps its balance.
pub proof fn lemma_initialize_idempotent(c: Initialize, program_id: Seq<u8>)
    ensures
        initialize_outcome(initialize_outcome(c, program_id).0, program_id) == initialize_outcome(
            c,
            program_id,
        ),
        c.token_vault_account is Some ==> initialize_outcome(c, program_id).0 == c,
{
}

} // verus!
