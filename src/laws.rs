//! Properties that relate several operations or hold of every run.
use crate::account::{accounts_after, is_live, AccountView, Env, InvocationView};
use crate::error::UniPinoNftErr;
use crate::instructions::nft::{
    burn_outcome, fee_calls, mint_calls, mint_outcome, user_with_burned_asset,
    user_with_minted_asset, with_burned_asset, with_minted_asset,
};
use crate::instructions::platform::{
    init_platform_outcome, platform_derivation, update_platform_outcome, updated_platform,
};
use crate::instructions::user::{create_user_outcome, with_new_user};
use crate::instructions::{parse_instruction, InstructionView, MintNftArgsView, UpdatePlatformArgsView};
use crate::instruction_outcome;
use crate::state::nft_meta::{is_nft_meta_record, nft_meta_tag, NFT_META_LEN};
use crate::state::platform::{
    is_platform_record, lemma_platform_decode_encode, lemma_platform_encode_decode, parse_platform,
    platform_tag,
};
use crate::state::user::{
    is_user_record, lemma_user_decode_encode, lemma_user_encode_decode, parse_user, user_tag,
};
use vstd::prelude::*;

verus! {

/// InitPlatform creates a record at most once: once it has succeeded, a
/// second InitPlatform by the same administrator on the resulting accounts
/// fails with `AlreadyInitialized`, and a failed operation changes nothing.
pub proof fn lemma_init_platform_once(env: Env, s: Seq<AccountView>)
    requires
        env.rent.platform > 0,
        init_platform_outcome(env, s, platform_derivation(env, s)) is Ok,
    ensures
        ({
            let after = accounts_after(init_platform_outcome(env, s, platform_derivation(env, s)), s);
            init_platform_outcome(env, after, platform_derivation(env, after)) == Err::<
                (Seq<AccountView>, Seq<InvocationView>),
                UniPinoNftErr,
            >(UniPinoNftErr::AlreadyInitialized)
        }),
{
    let after = accounts_after(init_platform_outcome(env, s, platform_derivation(env, s)), s);
    assert(after[0].key == s[0].key && after[0].is_signer && after[1].lamports > 0);
    assert(platform_derivation(env, after) == platform_derivation(env, s));
}

/// InitPlatform against a live platform location fails with
/// `AlreadyInitialized` once the caller signs and the location is the one
/// derived from the caller's key.
pub proof fn lemma_init_platform_live_location(
    env: Env,
    s: Seq<AccountView>,
    derivation: Result<([u8; 32], u8), UniPinoNftErr>,
)
    requires
        s.len() >= 2,
        s[0].is_signer,
        s[0].is_writable,
        s[1].is_writable,
        derivation is Ok,
        derivation->Ok_0.0 == s[1].key,
        s[1].lamports > 0,
    ensures
        init_platform_outcome(env, s, derivation) == Err::<
            (Seq<AccountView>, Seq<InvocationView>),
            UniPinoNftErr,
        >(UniPinoNftErr::AlreadyInitialized),
{
}

/// An UpdatePlatform whose caller is not the live record's administrator
/// fails with `Unauthorized`, whatever the arguments and the derivation.
pub proof fn lemma_update_platform_needs_administrator(
    env: Env,
    s: Seq<AccountView>,
    args: UpdatePlatformArgsView,
    derivation: Result<([u8; 32], u8), UniPinoNftErr>,
)
    requires
        s.len() >= 2,
        is_live(s[1], env.program_id),
        is_platform_record(s[1].data),
        parse_platform(s[1].data).administrator != s[0].key@,
    ensures
        update_platform_outcome(env, s, args, derivation) == Err::<
            (Seq<AccountView>, Seq<InvocationView>),
            UniPinoNftErr,
        >(UniPinoNftErr::Unauthorized),
{
}

/// CreateUser adds exactly one to the platform's user count when it
/// succeeds and nothing when it fails.
pub proof fn lemma_create_user_counts_once(
    env: Env,
    s: Seq<AccountView>,
    user_uuid: u128,
    derivation: Result<([u8; 32], u8), UniPinoNftErr>,
)
    requires
        s.len() >= 2,
        is_platform_record(s[1].data),
    ensures
        ({
            let o = create_user_outcome(env, s, user_uuid, derivation);
            let after = accounts_after(o, s);
            &&& is_platform_record(after[1].data)
            &&& parse_platform(after[1].data).total_users == parse_platform(s[1].data).total_users
                + if o is Ok {
                1int
            } else {
                0int
            }
        }),
{
    let o = create_user_outcome(env, s, user_uuid, derivation);
    if o is Ok {
        let p = parse_platform(s[1].data);
        lemma_platform_encode_decode(s[1].data);
        lemma_platform_decode_encode(with_new_user(p));
        assert(with_new_user(p).bytes().subrange(0, 8) == p.discriminator);
    }
}

/// A successful MintAsset starts with a transfer of exactly the fee to the
/// configured receiver when the fee is not zero, and makes no transfer at
/// all when it is zero. The receiver's balance rises by the fee, unless the
/// receiver is the administrator itself.
pub proof fn lemma_mint_fee_transfer(
    env: Env,
    s: Seq<AccountView>,
    args: MintNftArgsView,
    entry_derivation: Result<([u8; 32], u8), UniPinoNftErr>,
    meta_derivation: Result<([u8; 32], u8), UniPinoNftErr>,
)
    requires
        mint_outcome(env, s, args, entry_derivation, meta_derivation) is Ok,
    ensures
        ({
            let calls = mint_outcome(env, s, args, entry_derivation, meta_derivation)->Ok_0.1;
            let after = mint_outcome(env, s, args, entry_derivation, meta_derivation)->Ok_0.0;
            let p = parse_platform(s[1].data);
            &&& p.mint_fee > 0 ==> calls[0] == InvocationView::Transfer {
                from: s[0].key,
                to: s[5].key,
                lamports: p.mint_fee,
            } && s[5].key@ == p.fee_receiver
            &&& p.mint_fee == 0 ==> forall|i: int|
                0 <= i < calls.len() ==> !(#[trigger] calls[i] is Transfer)
            &&& (p.mint_fee > 0 && s[5].key != s[0].key) ==> after[5].lamports == s[5].lamports
                + p.mint_fee
            &&& p.mint_fee == 0 ==> after[5] == s[5]
        }),
{
    let o = mint_outcome(env, s, args, entry_derivation, meta_derivation);
    let p = parse_platform(s[1].data);
    let calls = o->Ok_0.1;
    if p.mint_fee == 0 {
        let u = parse_user(s[2].data);
        let entry_bump = entry_derivation->Ok_0.1;
        assert(calls == mint_calls(env, s, p, u, args, entry_bump));
    }
}

/// With a zero fee the fee receiver plays no part in MintAsset: whatever
/// account stands in its place, the mint succeeds or fails alike and makes
/// the same calls.
pub proof fn lemma_mint_free_ignores_receiver(
    env: Env,
    s: Seq<AccountView>,
    receiver: AccountView,
    args: MintNftArgsView,
    entry_derivation: Result<([u8; 32], u8), UniPinoNftErr>,
    meta_derivation: Result<([u8; 32], u8), UniPinoNftErr>,
)
    requires
        s.len() >= 6,
        is_platform_record(s[1].data),
        parse_platform(s[1].data).mint_fee == 0,
    ensures
        ({
            let o = mint_outcome(env, s, args, entry_derivation, meta_derivation);
            let o2 = mint_outcome(env, s.update(5, receiver), args, entry_derivation, meta_derivation);
            match o {
                Ok((accounts, calls)) => o2 == Ok::<
                    (Seq<AccountView>, Seq<InvocationView>),
                    UniPinoNftErr,
                >((accounts.update(5, receiver), calls)),
                Err(e) => o2 == Err::<(Seq<AccountView>, Seq<InvocationView>), UniPinoNftErr>(e),
            }
        }),
{
    let s2 = s.update(5, receiver);
    let o = mint_outcome(env, s, args, entry_derivation, meta_derivation);
    let o2 = mint_outcome(env, s2, args, entry_derivation, meta_derivation);
    assert(forall|i: int| 0 <= i < 5 ==> s2[i] == s[i]);
    let p = parse_platform(s[1].data);
    assert(fee_calls(s2, p) == fee_calls(s, p));
    if o is Ok {
        let u = parse_user(s[2].data);
        let entry_bump = entry_derivation->Ok_0.1;
        assert(mint_calls(env, s2, p, u, args, entry_bump) == mint_calls(env, s, p, u, args, entry_bump));
        assert(o2->Ok_0.0 =~= o->Ok_0.0.update(5, receiver));
    }
}

/// Once an asset is burned, burning it again fails with `NotInitialized`:
/// its metadata location holds no balance any more.
pub proof fn lemma_burn_once(
    env: Env,
    s: Seq<AccountView>,
    derivation: Result<([u8; 32], u8), UniPinoNftErr>,
    second_derivation: Result<([u8; 32], u8), UniPinoNftErr>,
)
    requires
        burn_outcome(env, s, derivation) is Ok,
    ensures
        burn_outcome(env, accounts_after(burn_outcome(env, s, derivation), s), second_derivation)
            == Err::<(Seq<AccountView>, Seq<InvocationView>), UniPinoNftErr>(
            UniPinoNftErr::NotInitialized,
        ),
{
    let after = accounts_after(burn_outcome(env, s, derivation), s);
    assert(after[0].is_signer == s[0].is_signer);
    assert(after[1].lamports == s[1].lamports && after[1].owner == s[1].owner);
    assert(after[2].lamports == s[2].lamports && after[2].owner == s[2].owner);
    assert(after[4].lamports == 0);
}

} // verus!

verus! {

/// The record kinds cannot be mistaken for one another: no byte string
/// decodes as two kinds.
pub proof fn lemma_record_kinds_disjoint(s: Seq<u8>)
    ensures
        !(is_platform_record(s) && is_user_record(s)),
        !(is_platform_record(s) && is_nft_meta_record(s)),
        !(is_user_record(s) && is_nft_meta_record(s)),
        platform_tag() != user_tag(),
        platform_tag() != nft_meta_tag(),
        user_tag() != nft_meta_tag(),
{
    assert(platform_tag()[0] != user_tag()[0]);
    assert(platform_tag()[0] != nft_meta_tag()[0]);
    assert(user_tag()[0] != nft_meta_tag()[0]);
}

/// No operation changes who administers a live platform record: after any
/// request the record is still a platform record with the same
/// administrator.
pub proof fn lemma_platform_administrator_fixed(env: Env, s: Seq<AccountView>, data: Seq<u8>)
    requires
        s.len() >= 2,
        is_live(s[1], env.program_id),
        is_platform_record(s[1].data),
    ensures
        ({
            let after = accounts_after(instruction_outcome(env, s, data), s);
            &&& is_platform_record(after[1].data)
            &&& parse_platform(after[1].data).administrator == parse_platform(
                s[1].data,
            ).administrator
        }),
{
    let o = instruction_outcome(env, s, data);
    let p = parse_platform(s[1].data);
    lemma_platform_encode_decode(s[1].data);
    if o is Ok {
        match parse_instruction(data) {
            Ok(InstructionView::UpdatePlatform { update_args }) => {
                lemma_platform_decode_encode(updated_platform(p, update_args));
                assert(updated_platform(p, update_args).bytes().subrange(0, 8) == p.discriminator);
            },
            Ok(InstructionView::CreateUser { user_uuid }) => {
                lemma_platform_decode_encode(with_new_user(p));
                assert(with_new_user(p).bytes().subrange(0, 8) == p.discriminator);
            },
            Ok(InstructionView::MintNft { mint_args }) => {
                lemma_platform_decode_encode(with_minted_asset(p));
                assert(with_minted_asset(p).bytes().subrange(0, 8) == p.discriminator);
            },
            Ok(InstructionView::BurnNFT) => {
                lemma_platform_decode_encode(with_burned_asset(p));
                assert(with_burned_asset(p).bytes().subrange(0, 8) == p.discriminator);
            },
            _ => {},
        }
    }
}

/// No operation moves a live user record to another platform: after a mint,
/// a metadata update or a burn it is still a user record with the same
/// owner.
pub proof fn lemma_user_owner_fixed(env: Env, s: Seq<AccountView>, data: Seq<u8>)
    requires
        s.len() >= 3,
        is_live(s[2], env.program_id),
        is_user_record(s[2].data),
        parse_instruction(data) matches Ok(i) && (i is MintNft || i is UpdateNFTMetadata
            || i is BurnNFT),
    ensures
        ({
            let after = accounts_after(instruction_outcome(env, s, data), s);
            &&& is_user_record(after[2].data)
            &&& parse_user(after[2].data).owner == parse_user(s[2].data).owner
        }),
{
    let o = instruction_outcome(env, s, data);
    let u = parse_user(s[2].data);
    lemma_user_encode_decode(s[2].data);
    if o is Ok {
        match parse_instruction(data) {
            Ok(InstructionView::MintNft { mint_args }) => {
                lemma_user_decode_encode(user_with_minted_asset(u));
                assert(user_with_minted_asset(u).bytes().subrange(0, 8) == u.discriminator);
            },
            Ok(InstructionView::BurnNFT) => {
                lemma_user_decode_encode(user_with_burned_asset(u));
                assert(user_with_burned_asset(u).bytes().subrange(0, 8) == u.discriminator);
            },
            _ => {},
        }
    }
}

} // verus!

verus! {

/// A mint with a zero fee succeeds whatever account stands in the fee
/// receiver's place, once the other checks pass: the administrator signs,
/// the locations it writes are writable, the platform and user records are
/// live and chained to the administrator, the entry and metadata locations
/// are the derived ones, a metadata location that already has a balance
/// holds a program-owned record-sized buffer, the counters have room, and
/// the administrator can fund the locations to allocate.
pub proof fn lemma_free_mint_succeeds(
    env: Env,
    s: Seq<AccountView>,
    args: MintNftArgsView,
    entry_derivation: Result<([u8; 32], u8), UniPinoNftErr>,
    meta_derivation: Result<([u8; 32], u8), UniPinoNftErr>,
)
    requires
        s.len() >= 7,
        s[0].is_signer,
        s[0].is_writable && s[1].is_writable && s[2].is_writable && s[3].is_writable
            && s[4].is_writable,
        is_live(s[1], env.program_id),
        is_live(s[2], env.program_id),
        is_platform_record(s[1].data),
        is_user_record(s[2].data),
        parse_platform(s[1].data).administrator == s[0].key@,
        parse_user(s[2].data).owner == s[1].key@,
        parse_platform(s[1].data).mint_fee == 0,
        entry_derivation is Ok && entry_derivation->Ok_0.0 == s[3].key,
        meta_derivation is Ok && meta_derivation->Ok_0.0 == s[4].key,
        s[4].lamports > 0 ==> s[4].owner == env.program_id && s[4].data.len() == NFT_META_LEN,
        parse_platform(s[1].data).total_mints < u64::MAX,
        parse_user(s[2].data).nft_count < u32::MAX,
        s[0].lamports >= (if s[3].lamports == 0 {
            env.rent.mint as int
        } else {
            0
        }) + (if s[4].lamports == 0 {
            env.rent.metadata as int
        } else {
            0
        }),
    ensures
        mint_outcome(env, s, args, entry_derivation, meta_derivation) is Ok,
{
}

} // verus!

verus! {

/// A burn hands the administrator the balances of the closed sub-ledger
/// entry and of the reclaimed metadata record, and leaves both empty.
pub proof fn lemma_burn_remits_to_administrator(
    env: Env,
    s: Seq<AccountView>,
    derivation: Result<([u8; 32], u8), UniPinoNftErr>,
)
    requires
        burn_outcome(env, s, derivation) is Ok,
    ensures
        ({
            let after = burn_outcome(env, s, derivation)->Ok_0.0;
            &&& after[0].lamports == s[0].lamports + s[3].lamports + s[4].lamports
            &&& after[3].lamports == 0
            &&& after[4].lamports == 0
        }),
{
}

} // verus!
