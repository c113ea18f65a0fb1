//! Account-state machine of an on-chain platform for user-scoped collectible
//! assets: platform configuration, user registration, and asset
//! mint / metadata update / burn over fixed-layout records that live at
//! derived addresses.
//!
//! Every operation validates all it reads before it writes. It works on a
//! snapshot of the accounts it was given. On failure it leaves them
//! untouched. On success it leaves them as the runtime holds them once the
//! returned invocations have run: every balance those calls move is moved,
//! every location they allocate is allocated, and the program's records are
//! written. What the sub-ledger keeps inside its entries is its own and is
//! not part of the snapshot.
//!
//! Each position of the account list is one location. A transfer from the
//! administrator to a receiver with the administrator's own key moves
//! nothing.
use vstd::prelude::*;

pub mod account;
pub mod bytes;
pub mod error;
pub mod instructions;
pub mod laws;
pub mod pda;
pub mod state;

use crate::account::{matches_outcome, view_accounts, Account, AccountView, Env, Invocation, Outcome};
use crate::error::UniPinoNftErr;
use crate::instructions::nft::{
    burn_outcome, entry_derivation, metadata_derivation, mint_outcome, update_meta_outcome, BurnNft,
    MintNft, UpdateNFTMetadata,
};
use crate::instructions::platform::{
    init_platform_outcome, platform_derivation, update_platform_outcome, InitPlatform,
    UpdatePlatformConfig,
};
use crate::instructions::user::{create_user_outcome, user_derivation, CreateUser};
use crate::instructions::{parse_instruction, InstructionView, UniPinoNftInstruction};

verus! {

/// What a request does: the operation its selector names, run with the
/// derivations it performs.
pub open spec fn instruction_outcome(env: Env, s: Seq<AccountView>, data: Seq<u8>) -> Outcome {
    match parse_instruction(data) {
        Err(e) => Err(e),
        Ok(InstructionView::InitPlatform) => init_platform_outcome(
            env,
            s,
            platform_derivation(env, s),
        ),
        Ok(InstructionView::UpdatePlatform { update_args }) => update_platform_outcome(
            env,
            s,
            update_args,
            platform_derivation(env, s),
        ),
        Ok(InstructionView::CreateUser { user_uuid }) => create_user_outcome(
            env,
            s,
            user_uuid,
            user_derivation(env, s, user_uuid),
        ),
        Ok(InstructionView::MintNft { mint_args }) => mint_outcome(
            env,
            s,
            mint_args,
            entry_derivation(env, s, mint_args),
            metadata_derivation(env, s),
        ),
        Ok(InstructionView::UpdateNFTMetadata { meta }) => update_meta_outcome(
            env,
            s,
            meta,
            metadata_derivation(env, s),
        ),
        Ok(InstructionView::BurnNFT) => burn_outcome(env, s, metadata_derivation(env, s)),
    }
}

/// Decodes a request and runs the operation it names on `accounts`.
pub fn process_instruction(env: &Env, accounts: &mut Vec<Account>, instruction_data: &[u8]) -> (r:
    Result<Vec<Invocation>, UniPinoNftErr>)
    ensures
        matches_outcome(
            instruction_outcome(*env, view_accounts(old(accounts)@), instruction_data@),
            r,
            old(accounts)@,
            final(accounts)@,
        ),
{
    match UniPinoNftInstruction::unpack(instruction_data)? {
        UniPinoNftInstruction::InitPlatform => InitPlatform.process(env, accounts),
        UniPinoNftInstruction::UpdatePlatform { update_args } => UpdatePlatformConfig {
            update_args,
        }.process(env, accounts),
        UniPinoNftInstruction::CreateUser { user_uuid } => CreateUser { user_uuid }.process(
            env,
            accounts,
        ),
        UniPinoNftInstruction::MintNft { mint_args } => MintNft { mint_nft_args: mint_args }.process(
            env,
            accounts,
        ),
        UniPinoNftInstruction::UpdateNFTMetadata { meta } => UpdateNFTMetadata {
            nft_meta: meta,
        }.process(env, accounts),
        UniPinoNftInstruction::BurnNFT => BurnNft.process(env, accounts),
    }
}

} // verus!
