//! Minting, updating and burning an asset: its sub-ledger entry and its
//! metadata record, under a user record under a platform record.
use crate::account::{
    allocated, is_live, keys_equal, set_lamports, with_lamports, matches_outcome, rewritten, view_accounts, view_invocations,
    Account, AccountView, Env, Invocation, InvocationView, Outcome, Signer,
};
use crate::bytes::{zero_bytes, zeros};
use crate::error::UniPinoNftErr;
use crate::instructions::{MintNftArgs, MintNftArgsView};
use crate::pda::{derive_address, derived, entry_seeds, entry_seeds_of, metadata_seeds, metadata_seeds_of};
use crate::state::nft_meta::{
    is_nft_meta_record, nft_meta_tag, NftMeta, NftMetaView, NFT_META_LEN,
};
use crate::state::platform::{is_platform_record, parse_platform, Platform, PlatformView};
use crate::state::user::{is_user_record, parse_user, User, UserView};
use vstd::prelude::*;

verus! {

/// The first failed check, if any, of an operation on an existing asset,
/// given the derivation of the metadata address from the supplied entry.
/// Accounts: the administrator, the platform record, the user record, the
/// sub-ledger entry, the metadata record, the program. The metadata record
/// is written; a burn also writes the other four locations.
pub open spec fn asset_access_error(
    env: Env,
    s: Seq<AccountView>,
    derivation: Result<([u8; 32], u8), UniPinoNftErr>,
    burning: bool,
) -> Option<UniPinoNftErr> {
    if s.len() < 6 {
        Some(UniPinoNftErr::NotEnoughAccountKeys)
    } else if !s[0].is_signer || !s[4].is_writable || (burning && (!s[0].is_writable
        || !s[1].is_writable || !s[2].is_writable || !s[3].is_writable)) {
        Some(UniPinoNftErr::Unauthorized)
    } else if !is_live(s[1], env.program_id) || !is_live(s[2], env.program_id) || !is_live(
        s[4],
        env.program_id,
    ) {
        Some(UniPinoNftErr::NotInitialized)
    } else if !is_platform_record(s[1].data) || !is_user_record(s[2].data) || !is_nft_meta_record(
        s[4].data,
    ) {
        Some(UniPinoNftErr::MalformedRecord)
    } else if parse_platform(s[1].data).administrator != s[0].key@ || parse_user(s[2].data).owner
        != s[1].key@ {
        Some(UniPinoNftErr::Unauthorized)
    } else {
        match derivation {
            Err(e) => Some(e),
            Ok((address, _)) => if address != s[4].key {
                Some(UniPinoNftErr::InvalidSeeds)
            } else {
                None
            },
        }
    }
}

/// The derivation UpdateAssetMeta and BurnAsset perform: the metadata
/// address of the supplied sub-ledger entry.
pub open spec fn metadata_derivation(env: Env, s: Seq<AccountView>) -> Result<
    ([u8; 32], u8),
    UniPinoNftErr,
> {
    derived(metadata_seeds(s[3].key@, env.token_program_id@), env.program_id@)
}

/// Runs the checks of `asset_access_error` and hands back the platform and
/// user records.
fn check_asset_access(
    env: &Env,
    accounts: &Vec<Account>,
    derivation: Result<([u8; 32], u8), UniPinoNftErr>,
    burning: bool,
) -> (r: Result<(Platform, User), UniPinoNftErr>)
    ensures
        match asset_access_error(*env, view_accounts(accounts@), derivation, burning) {
            Some(e) => r is Err && r->Err_0 == e,
            None => r is Ok && r->Ok_0.0@ == parse_platform(accounts@[1].data@) && r->Ok_0.1@
                == parse_user(accounts@[2].data@),
        },
{
    if accounts.len() < 6 {
        return Err(UniPinoNftErr::NotEnoughAccountKeys);
    }
    if !accounts[0].is_signer || !accounts[4].is_writable || (burning && (!accounts[0].is_writable
        || !accounts[1].is_writable || !accounts[2].is_writable || !accounts[3].is_writable)) {
        return Err(UniPinoNftErr::Unauthorized);
    }
    if !keys_equal(&accounts[1].owner, &env.program_id) || accounts[1].lamports == 0
        || !keys_equal(&accounts[2].owner, &env.program_id) || accounts[2].lamports == 0
        || !keys_equal(&accounts[4].owner, &env.program_id) || accounts[4].lamports == 0 {
        return Err(UniPinoNftErr::NotInitialized);
    }
    let platform = Platform::try_from_bytes(accounts[1].data.as_slice())?;
    let user = User::try_from_bytes(accounts[2].data.as_slice())?;
    let _meta = NftMeta::try_from_bytes(accounts[4].data.as_slice())?;
    if !keys_equal(&platform.administrator, &accounts[0].key) || !keys_equal(
        &user.owner,
        &accounts[1].key,
    ) {
        proof {
            vstd::array::axiom_array_ext_equal(platform.administrator, accounts[0].key);
            vstd::array::axiom_array_ext_equal(user.owner, accounts[1].key);
        }
        return Err(UniPinoNftErr::Unauthorized);
    }
    let (address, _) = derivation?;
    if !keys_equal(&address, &accounts[4].key) {
        return Err(UniPinoNftErr::InvalidSeeds);
    }
    Ok((platform, user))
}

/// The metadata record an update writes: the tag, then the supplied fields.
pub open spec fn updated_meta(meta: NftMetaView) -> NftMetaView {
    NftMetaView { discriminator: nft_meta_tag(), ..meta }
}

/// What UpdateAssetMeta does, given the derivation of the metadata address.
pub open spec fn update_meta_outcome(
    env: Env,
    s: Seq<AccountView>,
    meta: NftMetaView,
    derivation: Result<([u8; 32], u8), UniPinoNftErr>,
) -> Outcome {
    match asset_access_error(env, s, derivation, false) {
        Some(e) => Err(e),
        None => Ok((s.update(4, rewritten(s[4], updated_meta(meta).bytes())), Seq::empty())),
    }
}

/// Overwrites the name, collection, location and description of an asset.
pub struct UpdateNFTMetadata {
    pub nft_meta: NftMeta,
}

impl UpdateNFTMetadata {
    /// Runs UpdateAssetMeta with the metadata address already derived.
    pub fn process_with(
        &self,
        env: &Env,
        accounts: &mut Vec<Account>,
        derivation: Result<([u8; 32], u8), UniPinoNftErr>,
    ) -> (r: Result<Vec<Invocation>, UniPinoNftErr>)
        ensures
            matches_outcome(
                update_meta_outcome(*env, view_accounts(old(accounts)@), self.nft_meta@, derivation),
                r,
                old(accounts)@,
                final(accounts)@,
            ),
    {
        check_asset_access(env, accounts, derivation, false)?;
        let meta = NftMeta::new(
            self.nft_meta.name,
            self.nft_meta.collection,
            self.nft_meta.uri,
            self.nft_meta.description,
        );
        assert(meta@ == updated_meta(self.nft_meta@));
        let location = Account {
            key: accounts[4].key,
            owner: accounts[4].owner,
            lamports: accounts[4].lamports,
            is_signer: accounts[4].is_signer,
            is_writable: accounts[4].is_writable,
            data: meta.to_bytes(),
        };
        let ghost before = view_accounts(accounts@);
        accounts.set(4, location);
        assert(view_accounts(accounts@) =~= before.update(4, rewritten(before[4], meta@.bytes())));
        let calls: Vec<Invocation> = Vec::new();
        assert(view_invocations(calls@) =~= Seq::empty());
        Ok(calls)
    }

    /// Runs UpdateAssetMeta: derives the metadata address from the supplied
    /// entry, then overwrites the record there.
    pub fn process(&self, env: &Env, accounts: &mut Vec<Account>) -> (r: Result<
        Vec<Invocation>,
        UniPinoNftErr,
    >)
        ensures
            matches_outcome(
                update_meta_outcome(
                    *env,
                    view_accounts(old(accounts)@),
                    self.nft_meta@,
                    metadata_derivation(*env, view_accounts(old(accounts)@)),
                ),
                r,
                old(accounts)@,
                final(accounts)@,
            ),
    {
        if accounts.len() < 6 {
            return Err(UniPinoNftErr::NotEnoughAccountKeys);
        }
        let seeds = metadata_seeds_of(&accounts[3].key, &env.token_program_id);
        let derivation = derive_address(&seeds, &env.program_id);
        self.process_with(env, accounts, derivation)
    }
}

} // verus!

verus! {

/// The platform record with one asset fewer.
pub open spec fn with_burned_asset(p: PlatformView) -> PlatformView {
    PlatformView { total_mints: (p.total_mints - 1) as u64, ..p }
}

/// The user record with one asset fewer.
pub open spec fn user_with_burned_asset(u: UserView) -> UserView {
    UserView { nft_count: (u.nft_count - 1) as u32, ..u }
}

/// What BurnAsset does, given the derivation of the metadata address.
pub open spec fn burn_outcome(
    env: Env,
    s: Seq<AccountView>,
    derivation: Result<([u8; 32], u8), UniPinoNftErr>,
) -> Outcome {
    match asset_access_error(env, s, derivation, true) {
        Some(e) => Err(e),
        None => {
            let p = parse_platform(s[1].data);
            let u = parse_user(s[2].data);
            if p.total_mints == 0 || u.nft_count == 0 {
                Err(UniPinoNftErr::CounterUnderflow)
            } else if s[0].lamports + s[3].lamports + s[4].lamports > u64::MAX {
                Err(UniPinoNftErr::CounterOverflow)
            } else {
                Ok(
                    (
                        s.update(
                            0,
                            with_lamports(
                                s[0],
                                (s[0].lamports + s[3].lamports + s[4].lamports) as u64,
                            ),
                        ).update(1, rewritten(s[1], with_burned_asset(p).bytes())).update(
                            2,
                            rewritten(s[2], user_with_burned_asset(u).bytes()),
                        ).update(3, with_lamports(s[3], 0)).update(
                            4,
                            AccountView { lamports: 0, data: zero_bytes(s[4].data.len()), ..s[4] },
                        ),
                        seq![
                            InvocationView::CloseMint {
                                account: s[3].key,
                                destination: s[0].key,
                                authority: s[2].key,
                                signers: seq![
                                    Signer::User {
                                        user_uuid: u.user_uuid,
                                        platform: s[1].key,
                                        platform_bump: p.bump,
                                        bump: u.bump,
                                    },
                                ],
                            },
                            InvocationView::Reclaim {
                                account: s[4].key,
                                destination: s[0].key,
                                lamports: s[4].lamports,
                            },
                        ],
                    ),
                )
            }
        },
    }
}

/// Burns an asset: closes its sub-ledger entry and reclaims its metadata
/// record, whose balance goes to the administrator and whose bytes are
/// zeroed.
pub struct BurnNft;

impl BurnNft {
    /// Runs BurnAsset with the metadata address already derived.
    pub fn process_with(
        &self,
        env: &Env,
        accounts: &mut Vec<Account>,
        derivation: Result<([u8; 32], u8), UniPinoNftErr>,
    ) -> (r: Result<Vec<Invocation>, UniPinoNftErr>)
        ensures
            matches_outcome(
                burn_outcome(*env, view_accounts(old(accounts)@), derivation),
                r,
                old(accounts)@,
                final(accounts)@,
            ),
    {
        let (mut platform, mut user) = check_asset_access(env, accounts, derivation, true)?;
        if platform.total_mints == 0 || user.nft_count == 0 {
            return Err(UniPinoNftErr::CounterUnderflow);
        }
        if accounts[3].lamports > u64::MAX - accounts[4].lamports || accounts[0].lamports > u64::MAX
            - (accounts[3].lamports + accounts[4].lamports) {
            return Err(UniPinoNftErr::CounterOverflow);
        }
        let ghost p = platform@;
        let ghost u = user@;
        platform.total_mints = platform.total_mints - 1;
        user.nft_count = user.nft_count - 1;
        assert(platform@ == with_burned_asset(p));
        assert(user@ == user_with_burned_asset(u));
        let signers = vec![
            Signer::User {
                user_uuid: user.user_uuid,
                platform: accounts[1].key,
                platform_bump: platform.bump,
                bump: user.bump,
            },
        ];
        assert(signers@ =~= seq![
            Signer::User {
                user_uuid: user.user_uuid,
                platform: accounts[1].key,
                platform_bump: platform.bump,
                bump: user.bump,
            },
        ]);
        let calls = vec![
            Invocation::CloseMint {
                account: accounts[3].key,
                destination: accounts[0].key,
                authority: accounts[2].key,
                signers,
            },
            Invocation::Reclaim {
                account: accounts[4].key,
                destination: accounts[0].key,
                lamports: accounts[4].lamports,
            },
        ];
        assert(view_invocations(calls@) =~= seq![calls@[0]@, calls@[1]@]);
        let administrator = Account {
            key: accounts[0].key,
            owner: accounts[0].owner,
            lamports: accounts[0].lamports + accounts[3].lamports + accounts[4].lamports,
            is_signer: accounts[0].is_signer,
            is_writable: accounts[0].is_writable,
            data: accounts[0].data.clone(),
        };
        let platform_location = Account {
            key: accounts[1].key,
            owner: accounts[1].owner,
            lamports: accounts[1].lamports,
            is_signer: accounts[1].is_signer,
            is_writable: accounts[1].is_writable,
            data: platform.to_bytes(),
        };
        let user_location = Account {
            key: accounts[2].key,
            owner: accounts[2].owner,
            lamports: accounts[2].lamports,
            is_signer: accounts[2].is_signer,
            is_writable: accounts[2].is_writable,
            data: user.to_bytes(),
        };
        let metadata_location = Account {
            key: accounts[4].key,
            owner: accounts[4].owner,
            lamports: 0,
            is_signer: accounts[4].is_signer,
            is_writable: accounts[4].is_writable,
            data: zeros(accounts[4].data.len()),
        };
        let ghost before = view_accounts(accounts@);
        accounts.set(0, administrator);
        accounts.set(1, platform_location);
        accounts.set(2, user_location);
        accounts.set(4, metadata_location);
        let ghost written = view_accounts(accounts@);
        assert(written =~= before.update(
            0,
            with_lamports(before[0], (before[0].lamports + before[3].lamports + before[4].lamports) as u64),
        ).update(1, rewritten(before[1], platform@.bytes())).update(
            2,
            rewritten(before[2], user@.bytes()),
        ).update(4, AccountView { lamports: 0, data: zero_bytes(before[4].data.len()), ..before[4] }));
        set_lamports(accounts, 3, 0);
        assert(view_accounts(accounts@) =~= before.update(
            0,
            with_lamports(before[0], (before[0].lamports + before[3].lamports + before[4].lamports) as u64),
        ).update(1, rewritten(before[1], platform@.bytes())).update(
            2,
            rewritten(before[2], user@.bytes()),
        ).update(3, with_lamports(before[3], 0)).update(
            4,
            AccountView { lamports: 0, data: zero_bytes(before[4].data.len()), ..before[4] },
        ));
        Ok(calls)
    }

    /// Runs BurnAsset: derives the metadata address from the supplied entry,
    /// then closes the entry and reclaims the record.
    pub fn process(&self, env: &Env, accounts: &mut Vec<Account>) -> (r: Result<
        Vec<Invocation>,
        UniPinoNftErr,
    >)
        ensures
            matches_outcome(
                burn_outcome(
                    *env,
                    view_accounts(old(accounts)@),
                    metadata_derivation(*env, view_accounts(old(accounts)@)),
                ),
                r,
                old(accounts)@,
                final(accounts)@,
            ),
    {
        if accounts.len() < 6 {
            return Err(UniPinoNftErr::NotEnoughAccountKeys);
        }
        let seeds = metadata_seeds_of(&accounts[3].key, &env.token_program_id);
        let derivation = derive_address(&seeds, &env.program_id);
        self.process_with(env, accounts, derivation)
    }
}

} // verus!

verus! {

/// The metadata record a mint writes: name, location and description from
/// the arguments, no collection.
pub open spec fn minted_meta(args: MintNftArgsView) -> NftMetaView {
    NftMetaView {
        discriminator: nft_meta_tag(),
        name: args.asset_name,
        collection: zero_bytes(64),
        uri: args.uri,
        description: args.desc,
    }
}

/// The platform record with one asset more.
pub open spec fn with_minted_asset(p: PlatformView) -> PlatformView {
    PlatformView { total_mints: (p.total_mints + 1) as u64, ..p }
}

/// The user record with one asset more.
pub open spec fn user_with_minted_asset(u: UserView) -> UserView {
    UserView { nft_count: (u.nft_count + 1) as u32, ..u }
}

/// Whether a mint moves its fee between two locations: the fee is not zero
/// and the receiver is not the administrator itself.
pub open spec fn moves_fee(s: Seq<AccountView>, p: PlatformView) -> bool {
    p.mint_fee > 0 && s[5].key != s[0].key
}

/// What a mint takes from the administrator: the fee when it moves, and the
/// balance of each location it allocates.
pub open spec fn mint_debit(env: Env, s: Seq<AccountView>, p: PlatformView) -> int {
    (if moves_fee(s, p) {
        p.mint_fee as int
    } else {
        0
    }) + (if s[3].lamports == 0 {
        env.rent.mint as int
    } else {
        0
    }) + (if s[4].lamports == 0 {
        env.rent.metadata as int
    } else {
        0
    })
}

/// The fee transfer of a mint: present exactly when the fee is not zero.
pub open spec fn fee_calls(s: Seq<AccountView>, p: PlatformView) -> Seq<InvocationView> {
    if p.mint_fee > 0 {
        seq![InvocationView::Transfer { from: s[0].key, to: s[5].key, lamports: p.mint_fee }]
    } else {
        Seq::empty()
    }
}

/// The calls of a mint that follow the fee: allocate the entry if it has
/// no backing, initialise it with the user record as mint authority,
/// allocate the metadata record if it has no backing.
pub open spec fn mint_calls(
    env: Env,
    s: Seq<AccountView>,
    p: PlatformView,
    u: UserView,
    args: MintNftArgsView,
    entry_bump: u8,
) -> Seq<InvocationView> {
    let platform_signer = Signer::Platform { administrator: s[0].key, bump: p.bump };
    let user_signer = Signer::User {
        user_uuid: u.user_uuid,
        platform: s[1].key,
        platform_bump: p.bump,
        bump: u.bump,
    };
    let entry_signer = Signer::Entry {
        user_uuid: args.user_uuid,
        user: s[2].key,
        token_program: env.token_program_id,
        bump: entry_bump,
    };
    let create_entry = if s[3].lamports == 0 {
        seq![
            InvocationView::CreateAccount {
                from: s[0].key,
                to: s[3].key,
                lamports: env.rent.mint,
                space: env.mint_space as u64,
                owner: env.token_program_id,
                signers: seq![platform_signer, user_signer],
            },
        ]
    } else {
        Seq::empty()
    };
    let initialize = seq![
        InvocationView::InitializeMint { mint: s[3].key, decimals: 0, mint_authority: s[2].key },
    ];
    let create_meta = if s[4].lamports == 0 {
        seq![
            InvocationView::CreateAccount {
                from: s[0].key,
                to: s[4].key,
                lamports: env.rent.metadata,
                space: NFT_META_LEN as u64,
                owner: env.program_id,
                signers: seq![platform_signer, user_signer, entry_signer],
            },
        ]
    } else {
        Seq::empty()
    };
    create_entry + initialize + create_meta
}

/// What MintAsset does, given the derivations of the entry address and of
/// the metadata address. Accounts: the administrator, the platform record,
/// the user record, the sub-ledger entry, the metadata location, the fee
/// receiver, the program.
pub open spec fn mint_outcome(
    env: Env,
    s: Seq<AccountView>,
    args: MintNftArgsView,
    entry_derivation: Result<([u8; 32], u8), UniPinoNftErr>,
    meta_derivation: Result<([u8; 32], u8), UniPinoNftErr>,
) -> Outcome {
    if s.len() < 7 {
        Err(UniPinoNftErr::NotEnoughAccountKeys)
    } else if !s[0].is_signer || !s[0].is_writable || !s[1].is_writable || !s[2].is_writable
        || !s[3].is_writable || !s[4].is_writable {
        Err(UniPinoNftErr::Unauthorized)
    } else if !is_live(s[1], env.program_id) || !is_live(s[2], env.program_id) {
        Err(UniPinoNftErr::NotInitialized)
    } else if !is_platform_record(s[1].data) || !is_user_record(s[2].data) {
        Err(UniPinoNftErr::MalformedRecord)
    } else {
        let p = parse_platform(s[1].data);
        let u = parse_user(s[2].data);
        if p.administrator != s[0].key@ || u.owner != s[1].key@ {
            Err(UniPinoNftErr::Unauthorized)
        } else if p.mint_fee > 0 && (p.fee_receiver != s[5].key@ || !s[5].is_writable) {
            Err(UniPinoNftErr::Unauthorized)
        } else {
            match entry_derivation {
                Err(e) => Err(e),
                Ok((entry, entry_bump)) => {
                    if entry != s[3].key {
                        Err(UniPinoNftErr::InvalidSeeds)
                    } else {
                        match meta_derivation {
                            Err(e) => Err(e),
                            Ok((meta, _)) => {
                                if meta != s[4].key {
                                    Err(UniPinoNftErr::InvalidSeeds)
                                } else if s[4].lamports > 0 && (s[4].owner != env.program_id
                                    || s[4].data.len() != NFT_META_LEN) {
                                    Err(UniPinoNftErr::MalformedRecord)
                                } else if p.total_mints == u64::MAX || u.nft_count == u32::MAX {
                                    Err(UniPinoNftErr::CounterOverflow)
                                } else if s[0].lamports < mint_debit(env, s, p) {
                                    Err(UniPinoNftErr::InsufficientFunds)
                                } else if moves_fee(s, p) && s[5].lamports + p.mint_fee
                                    > u64::MAX {
                                    Err(UniPinoNftErr::CounterOverflow)
                                } else {
                                    let entry_after = if s[3].lamports == 0 {
                                        allocated(
                                            s[3],
                                            env.rent.mint,
                                            env.token_program_id,
                                            zero_bytes(env.mint_space as nat),
                                        )
                                    } else {
                                        s[3]
                                    };
                                    let meta_after = AccountView {
                                        owner: env.program_id,
                                        lamports: if s[4].lamports == 0 {
                                            env.rent.metadata
                                        } else {
                                            s[4].lamports
                                        },
                                        data: minted_meta(args).bytes(),
                                        ..s[4]
                                    };
                                    let receiver_after = if moves_fee(s, p) {
                                        with_lamports(s[5], (s[5].lamports + p.mint_fee) as u64)
                                    } else {
                                        s[5]
                                    };
                                    Ok(
                                        (
                                            s.update(
                                                0,
                                                with_lamports(
                                                    s[0],
                                                    (s[0].lamports - mint_debit(env, s, p)) as u64,
                                                ),
                                            ).update(
                                                1,
                                                rewritten(s[1], with_minted_asset(p).bytes()),
                                            ).update(
                                                2,
                                                rewritten(s[2], user_with_minted_asset(u).bytes()),
                                            ).update(3, entry_after).update(4, meta_after).update(
                                                5,
                                                receiver_after,
                                            ),
                                            fee_calls(s, p) + mint_calls(
                                                env,
                                                s,
                                                p,
                                                u,
                                                args,
                                                entry_bump,
                                            ),
                                        ),
                                    )
                                }
                            },
                        }
                    }
                },
            }
        }
    }
}

/// The derivation of the entry address MintAsset performs: from the
/// asset's uuid, the user record and the sub-ledger's id, under this program.
pub open spec fn entry_derivation(env: Env, s: Seq<AccountView>, args: MintNftArgsView) -> Result<
    ([u8; 32], u8),
    UniPinoNftErr,
> {
    derived(entry_seeds(args.user_uuid, s[2].key@, env.token_program_id@), env.program_id@)
}

/// Mints an asset for a user: collects the fee, creates and initialises
/// the sub-ledger entry, writes the metadata record, counts the asset.
pub struct MintNft {
    pub mint_nft_args: MintNftArgs,
}

impl MintNft {
    /// Runs MintAsset with the entry and metadata addresses already derived.
    #[verifier::rlimit(40)]
    pub fn process_with(
        &self,
        env: &Env,
        accounts: &mut Vec<Account>,
        entry_derivation: Result<([u8; 32], u8), UniPinoNftErr>,
        meta_derivation: Result<([u8; 32], u8), UniPinoNftErr>,
    ) -> (r: Result<Vec<Invocation>, UniPinoNftErr>)
        ensures
            matches_outcome(
                mint_outcome(
                    *env,
                    view_accounts(old(accounts)@),
                    self.mint_nft_args@,
                    entry_derivation,
                    meta_derivation,
                ),
                r,
                old(accounts)@,
                final(accounts)@,
            ),
    {
        if accounts.len() < 7 {
            return Err(UniPinoNftErr::NotEnoughAccountKeys);
        }
        if !accounts[0].is_signer || !accounts[0].is_writable || !accounts[1].is_writable
            || !accounts[2].is_writable || !accounts[3].is_writable || !accounts[4].is_writable {
            return Err(UniPinoNftErr::Unauthorized);
        }
        if !keys_equal(&accounts[1].owner, &env.program_id) || accounts[1].lamports == 0
            || !keys_equal(&accounts[2].owner, &env.program_id) || accounts[2].lamports == 0 {
            return Err(UniPinoNftErr::NotInitialized);
        }
        let mut platform = Platform::try_from_bytes(accounts[1].data.as_slice())?;
        let mut user = User::try_from_bytes(accounts[2].data.as_slice())?;
        if !keys_equal(&platform.administrator, &accounts[0].key) || !keys_equal(
            &user.owner,
            &accounts[1].key,
        ) {
            proof {
                vstd::array::axiom_array_ext_equal(platform.administrator, accounts[0].key);
                vstd::array::axiom_array_ext_equal(user.owner, accounts[1].key);
            }
            return Err(UniPinoNftErr::Unauthorized);
        }
        if platform.mint_fee > 0 && (!keys_equal(&platform.fee_receiver, &accounts[5].key)
            || !accounts[5].is_writable) {
            proof {
                vstd::array::axiom_array_ext_equal(platform.fee_receiver, accounts[5].key);
            }
            return Err(UniPinoNftErr::Unauthorized);
        }
        let (entry, entry_bump) = entry_derivation?;
        if !keys_equal(&entry, &accounts[3].key) {
            return Err(UniPinoNftErr::InvalidSeeds);
        }
        let (meta_address, _) = meta_derivation?;
        if !keys_equal(&meta_address, &accounts[4].key) {
            return Err(UniPinoNftErr::InvalidSeeds);
        }
        if accounts[4].lamports > 0 && (!keys_equal(&accounts[4].owner, &env.program_id)
            || accounts[4].data.len() != NFT_META_LEN) {
            return Err(UniPinoNftErr::MalformedRecord);
        }
        if platform.total_mints == u64::MAX || user.nft_count == u32::MAX {
            return Err(UniPinoNftErr::CounterOverflow);
        }
        let pays_fee = platform.mint_fee > 0 && !keys_equal(&accounts[5].key, &accounts[0].key);
        let fee: u128 = if pays_fee {
            platform.mint_fee as u128
        } else {
            0
        };
        let entry_rent: u128 = if accounts[3].lamports == 0 {
            env.rent.mint as u128
        } else {
            0
        };
        let meta_rent: u128 = if accounts[4].lamports == 0 {
            env.rent.metadata as u128
        } else {
            0
        };
        let debit = fee + entry_rent + meta_rent;
        assert(debit == mint_debit(*env, view_accounts(accounts@), platform@));
        if (accounts[0].lamports as u128) < debit {
            return Err(UniPinoNftErr::InsufficientFunds);
        }
        if pays_fee && accounts[5].lamports > u64::MAX - platform.mint_fee {
            return Err(UniPinoNftErr::CounterOverflow);
        }
        let payer_balance = (accounts[0].lamports as u128 - debit) as u64;
        let receiver_balance = if pays_fee {
            accounts[5].lamports + platform.mint_fee
        } else {
            accounts[5].lamports
        };
        let ghost s = view_accounts(accounts@);
        assert(s[0] == accounts@[0]@ && s[5] == accounts@[5]@);
        assert(pays_fee == moves_fee(s, platform@));
        let ghost p = platform@;
        let ghost u = user@;
        let calls = self.calls(env, accounts, &platform, &user, entry_bump);
        platform.total_mints = platform.total_mints + 1;
        user.nft_count = user.nft_count + 1;
        assert(platform@ == with_minted_asset(p));
        assert(user@ == user_with_minted_asset(u));
        let no_collection = [0u8; 64];
        assert(no_collection@ =~= zero_bytes(64));
        let meta = NftMeta::new(
            self.mint_nft_args.asset_name,
            no_collection,
            self.mint_nft_args.uri,
            self.mint_nft_args.desc,
        );
        assert(meta@ == minted_meta(self.mint_nft_args@));
        let platform_location = Account {
            key: accounts[1].key,
            owner: accounts[1].owner,
            lamports: accounts[1].lamports,
            is_signer: accounts[1].is_signer,
            is_writable: accounts[1].is_writable,
            data: platform.to_bytes(),
        };
        let user_location = Account {
            key: accounts[2].key,
            owner: accounts[2].owner,
            lamports: accounts[2].lamports,
            is_signer: accounts[2].is_signer,
            is_writable: accounts[2].is_writable,
            data: user.to_bytes(),
        };
        let meta_location = Account {
            key: accounts[4].key,
            owner: env.program_id,
            lamports: if accounts[4].lamports == 0 {
                env.rent.metadata
            } else {
                accounts[4].lamports
            },
            is_signer: accounts[4].is_signer,
            is_writable: accounts[4].is_writable,
            data: meta.to_bytes(),
        };
        accounts.set(1, platform_location);
        accounts.set(2, user_location);
        if accounts[3].lamports == 0 {
            let entry_location = Account {
                key: accounts[3].key,
                owner: env.token_program_id,
                lamports: env.rent.mint,
                is_signer: accounts[3].is_signer,
                is_writable: accounts[3].is_writable,
                data: zeros(env.mint_space),
            };
            accounts.set(3, entry_location);
        }
        accounts.set(4, meta_location);
        let ghost written = view_accounts(accounts@);
        assert(written[5] == accounts@[5]@);
        let ghost entry_after = if s[3].lamports == 0 {
            allocated(s[3], env.rent.mint, env.token_program_id, zero_bytes(env.mint_space as nat))
        } else {
            s[3]
        };
        assert(written =~= s.update(1, rewritten(s[1], platform@.bytes())).update(
            2,
            rewritten(s[2], user@.bytes()),
        ).update(3, entry_after).update(4, meta_location@));
        assert(written[0] == s[0] && written[5] == s[5]);
        assert(payer_balance == (s[0].lamports - mint_debit(*env, s, p)) as u64);
        set_lamports(accounts, 0, payer_balance);
        let ghost paid = view_accounts(accounts@);
        assert(paid == written.update(0, with_lamports(s[0], payer_balance)));
        if pays_fee {
            assert(paid[5] == accounts@[5]@ && paid[5] == s[5]);
            set_lamports(accounts, 5, receiver_balance);
            assert(view_accounts(accounts@) == paid.update(5, with_lamports(s[5], receiver_balance)));
        }
        let ghost receiver_after = if moves_fee(s, p) {
            with_lamports(s[5], (s[5].lamports + p.mint_fee) as u64)
        } else {
            s[5]
        };
        assert(view_accounts(accounts@) =~= s.update(
            0,
            with_lamports(s[0], (s[0].lamports - mint_debit(*env, s, p)) as u64),
        ).update(1, rewritten(s[1], platform@.bytes())).update(2, rewritten(s[2], user@.bytes())).update(
            3,
            entry_after,
        ).update(4, meta_location@).update(5, receiver_after));
        Ok(calls)
    }

    /// The invocations of a mint whose checks all passed.
    fn calls(
        &self,
        env: &Env,
        accounts: &Vec<Account>,
        platform: &Platform,
        user: &User,
        entry_bump: u8,
    ) -> (r: Vec<Invocation>)
        requires
            accounts@.len() >= 6,
        ensures
            view_invocations(r@) == fee_calls(view_accounts(accounts@), platform@) + mint_calls(
                *env,
                view_accounts(accounts@),
                platform@,
                user@,
                self.mint_nft_args@,
                entry_bump,
            ),
    {
        let ghost s = view_accounts(accounts@);
        let administrator = accounts[0].key;
        let platform_signer = Signer::Platform { administrator, bump: platform.bump };
        let user_signer = Signer::User {
            user_uuid: user.user_uuid,
            platform: accounts[1].key,
            platform_bump: platform.bump,
            bump: user.bump,
        };
        let entry_signer = Signer::Entry {
            user_uuid: self.mint_nft_args.user_uuid,
            user: accounts[2].key,
            token_program: env.token_program_id,
            bump: entry_bump,
        };
        let mut calls: Vec<Invocation> = Vec::new();
        if platform.mint_fee > 0 {
            calls.push(
                Invocation::Transfer {
                    from: administrator,
                    to: accounts[5].key,
                    lamports: platform.mint_fee,
                },
            );
        }
        assert(view_invocations(calls@) =~= fee_calls(s, platform@));
        let ghost fee = view_invocations(calls@);
        if accounts[3].lamports == 0 {
            let signers = vec![platform_signer, user_signer];
            assert(signers@ =~= seq![platform_signer, user_signer]);
            calls.push(
                Invocation::CreateAccount {
                    from: administrator,
                    to: accounts[3].key,
                    lamports: env.rent.mint,
                    space: env.mint_space as u64,
                    owner: env.token_program_id,
                    signers,
                },
            );
        }
        let ghost with_entry = view_invocations(calls@);
        calls.push(
            Invocation::InitializeMint {
                mint: accounts[3].key,
                decimals: 0,
                mint_authority: accounts[2].key,
            },
        );
        let ghost with_init = view_invocations(calls@);
        if accounts[4].lamports == 0 {
            let signers = vec![platform_signer, user_signer, entry_signer];
            assert(signers@ =~= seq![platform_signer, user_signer, entry_signer]);
            calls.push(
                Invocation::CreateAccount {
                    from: administrator,
                    to: accounts[4].key,
                    lamports: env.rent.metadata,
                    space: NFT_META_LEN as u64,
                    owner: env.program_id,
                    signers,
                },
            );
        }
        assert(view_invocations(calls@) =~= fee_calls(s, platform@) + mint_calls(
            *env,
            s,
            platform@,
            user@,
            self.mint_nft_args@,
            entry_bump,
        ));
        calls
    }

    /// Runs MintAsset: derives the entry address from the asset's uuid and
    /// the user record, and the metadata address from the entry, then mints.
    pub fn process(&self, env: &Env, accounts: &mut Vec<Account>) -> (r: Result<
        Vec<Invocation>,
        UniPinoNftErr,
    >)
        ensures
            matches_outcome(
                mint_outcome(
                    *env,
                    view_accounts(old(accounts)@),
                    self.mint_nft_args@,
                    entry_derivation(*env, view_accounts(old(accounts)@), self.mint_nft_args@),
                    metadata_derivation(*env, view_accounts(old(accounts)@)),
                ),
                r,
                old(accounts)@,
                final(accounts)@,
            ),
    {
        if accounts.len() < 7 {
            return Err(UniPinoNftErr::NotEnoughAccountKeys);
        }
        let entry_seeds = entry_seeds_of(
            self.mint_nft_args.user_uuid,
            &accounts[2].key,
            &env.token_program_id,
        );
        let entry = derive_address(&entry_seeds, &env.program_id);
        let meta_seeds = metadata_seeds_of(&accounts[3].key, &env.token_program_id);
        let meta = derive_address(&meta_seeds, &env.program_id);
        self.process_with(env, accounts, entry, meta)
    }
}

} // verus!
