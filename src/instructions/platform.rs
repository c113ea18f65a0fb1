//! Creating and updating the platform record.
use crate::account::{
    allocated, is_live, keys_equal, set_lamports, with_lamports, matches_outcome, rewritten, view_accounts, view_invocations, Account, Env, Invocation,
    InvocationView, Outcome, Signer,
};
use crate::error::UniPinoNftErr;
use crate::instructions::{UpdatePlatformArgs, UpdatePlatformArgsView};
use crate::pda::{derive_address, derived, platform_seeds, platform_seeds_of};
use crate::state::platform::{
    fresh_platform, is_platform_record, parse_platform, Platform, PlatformView, PLATFORM_LEN,
};
use vstd::prelude::*;

verus! {

/// What InitPlatform does, given the derivation of the platform address
/// from the caller's key. Accounts: the administrator, then the platform
/// location.
pub open spec fn init_platform_outcome(
    env: Env,
    s: Seq<crate::account::AccountView>,
    derivation: Result<([u8; 32], u8), UniPinoNftErr>,
) -> Outcome {
    if s.len() < 2 {
        Err(UniPinoNftErr::NotEnoughAccountKeys)
    } else if !s[0].is_signer || !s[0].is_writable || !s[1].is_writable {
        Err(UniPinoNftErr::Unauthorized)
    } else {
        match derivation {
            Err(e) => Err(e),
            Ok((address, bump)) => {
                if address != s[1].key {
                    Err(UniPinoNftErr::InvalidSeeds)
                } else if s[1].lamports > 0 {
                    Err(UniPinoNftErr::AlreadyInitialized)
                } else if s[0].lamports < env.rent.platform {
                    Err(UniPinoNftErr::InsufficientFunds)
                } else {
                    let record = fresh_platform(s[0].key@, bump);
                    Ok(
                        (
                            s.update(
                                0,
                                with_lamports(s[0], (s[0].lamports - env.rent.platform) as u64),
                            ).update(
                                1,
                                allocated(s[1], env.rent.platform, env.program_id, record.bytes()),
                            ),
                            seq![
                                InvocationView::CreateAccount {
                                    from: s[0].key,
                                    to: s[1].key,
                                    lamports: env.rent.platform,
                                    space: PLATFORM_LEN as u64,
                                    owner: env.program_id,
                                    signers: seq![Signer::Platform { administrator: s[0].key, bump }],
                                },
                            ],
                        ),
                    )
                }
            },
        }
    }
}

/// The derivation InitPlatform and UpdatePlatform perform: the platform
/// address of the first account's key.
pub open spec fn platform_derivation(env: Env, s: Seq<crate::account::AccountView>) -> Result<
    ([u8; 32], u8),
    UniPinoNftErr,
> {
    derived(platform_seeds(s[0].key@), env.program_id@)
}

/// The platform record after an update with `args`: the fee always, the
/// receiver only when the flag is set.
pub open spec fn updated_platform(p: PlatformView, args: UpdatePlatformArgsView) -> PlatformView {
    PlatformView {
        fee_receiver: if args.is_receiver_valid != 0 {
            args.fee_receiver
        } else {
            p.fee_receiver
        },
        mint_fee: args.mint_fee,
        ..p
    }
}

/// What UpdatePlatform does, given the derivation of the platform address
/// from the caller's key. Accounts: the administrator, then the platform
/// record.
pub open spec fn update_platform_outcome(
    env: Env,
    s: Seq<crate::account::AccountView>,
    args: UpdatePlatformArgsView,
    derivation: Result<([u8; 32], u8), UniPinoNftErr>,
) -> Outcome {
    if s.len() < 2 {
        Err(UniPinoNftErr::NotEnoughAccountKeys)
    } else if !s[0].is_signer || !s[1].is_writable {
        Err(UniPinoNftErr::Unauthorized)
    } else if !is_live(s[1], env.program_id) {
        Err(UniPinoNftErr::NotInitialized)
    } else if !is_platform_record(s[1].data) {
        Err(UniPinoNftErr::MalformedRecord)
    } else {
        let p = parse_platform(s[1].data);
        if p.administrator != s[0].key@ {
            Err(UniPinoNftErr::Unauthorized)
        } else {
            match derivation {
                Err(e) => Err(e),
                Ok((address, bump)) => {
                    if address != s[1].key || bump != p.bump {
                        Err(UniPinoNftErr::InvalidSeeds)
                    } else {
                        Ok(
                            (
                                s.update(1, rewritten(s[1], updated_platform(p, args).bytes())),
                                Seq::empty(),
                            ),
                        )
                    }
                },
            }
        }
    }
}

/// Creates the platform record of the signing administrator.
pub struct InitPlatform;

impl InitPlatform {
    /// Runs InitPlatform with the platform address already derived.
    pub fn process_with(
        &self,
        env: &Env,
        accounts: &mut Vec<Account>,
        derivation: Result<([u8; 32], u8), UniPinoNftErr>,
    ) -> (r: Result<Vec<Invocation>, UniPinoNftErr>)
        ensures
            matches_outcome(
                init_platform_outcome(*env, view_accounts(old(accounts)@), derivation),
                r,
                old(accounts)@,
                final(accounts)@,
            ),
    {
        if accounts.len() < 2 {
            return Err(UniPinoNftErr::NotEnoughAccountKeys);
        }
        if !accounts[0].is_signer || !accounts[0].is_writable || !accounts[1].is_writable {
            return Err(UniPinoNftErr::Unauthorized);
        }
        let (address, bump) = derivation?;
        if !keys_equal(&address, &accounts[1].key) {
            return Err(UniPinoNftErr::InvalidSeeds);
        }
        if accounts[1].lamports > 0 {
            return Err(UniPinoNftErr::AlreadyInitialized);
        }
        if accounts[0].lamports < env.rent.platform {
            return Err(UniPinoNftErr::InsufficientFunds);
        }
        let ghost start = view_accounts(accounts@);
        let payer_balance = accounts[0].lamports - env.rent.platform;
        set_lamports(accounts, 0, payer_balance);
        assert(view_accounts(accounts@)[0] == accounts@[0]@ && view_accounts(accounts@)[1]
            == accounts@[1]@);
        let administrator = accounts[0].key;
        let record = Platform::new(administrator, bump);
        let location = Account {
            key: accounts[1].key,
            owner: env.program_id,
            lamports: env.rent.platform,
            is_signer: accounts[1].is_signer,
            is_writable: accounts[1].is_writable,
            data: record.to_bytes(),
        };
        let ghost before = view_accounts(accounts@);
        accounts.set(1, location);
        assert(view_accounts(accounts@) =~= start.update(0, with_lamports(start[0], payer_balance)).update(
            1,
            allocated(start[1], env.rent.platform, env.program_id, record@.bytes()),
        ));
        let signers = vec![Signer::Platform { administrator, bump }];
        assert(signers@ =~= seq![Signer::Platform { administrator, bump }]);
        let calls = vec![
            Invocation::CreateAccount {
                from: administrator,
                to: address,
                lamports: env.rent.platform,
                space: PLATFORM_LEN as u64,
                owner: env.program_id,
                signers,
            },
        ];
        assert(view_invocations(calls@) =~= seq![calls@[0]@]);
        Ok(calls)
    }

    /// Runs InitPlatform: derives the platform address from the
    /// administrator's key, then creates the record there.
    pub fn process(&self, env: &Env, accounts: &mut Vec<Account>) -> (r: Result<
        Vec<Invocation>,
        UniPinoNftErr,
    >)
        ensures
            matches_outcome(
                init_platform_outcome(
                    *env,
                    view_accounts(old(accounts)@),
                    platform_derivation(*env, view_accounts(old(accounts)@)),
                ),
                r,
                old(accounts)@,
                final(accounts)@,
            ),
    {
        if accounts.len() < 2 {
            return Err(UniPinoNftErr::NotEnoughAccountKeys);
        }
        let seeds = platform_seeds_of(&accounts[0].key);
        let derivation = derive_address(&seeds, &env.program_id);
        self.process_with(env, accounts, derivation)
    }
}

} // verus!

verus! {

/// Updates the fee configuration of the caller's platform record.
pub struct UpdatePlatformConfig {
    pub update_args: UpdatePlatformArgs,
}

impl UpdatePlatformConfig {
    /// Runs UpdatePlatform with the platform address already derived.
    pub fn process_with(
        &self,
        env: &Env,
        accounts: &mut Vec<Account>,
        derivation: Result<([u8; 32], u8), UniPinoNftErr>,
    ) -> (r: Result<Vec<Invocation>, UniPinoNftErr>)
        ensures
            matches_outcome(
                update_platform_outcome(
                    *env,
                    view_accounts(old(accounts)@),
                    self.update_args@,
                    derivation,
                ),
                r,
                old(accounts)@,
                final(accounts)@,
            ),
    {
        if accounts.len() < 2 {
            return Err(UniPinoNftErr::NotEnoughAccountKeys);
        }
        if !accounts[0].is_signer || !accounts[1].is_writable {
            return Err(UniPinoNftErr::Unauthorized);
        }
        if !keys_equal(&accounts[1].owner, &env.program_id) || accounts[1].lamports == 0 {
            return Err(UniPinoNftErr::NotInitialized);
        }
        let mut platform = Platform::try_from_bytes(accounts[1].data.as_slice())?;
        if !keys_equal(&platform.administrator, &accounts[0].key) {
            proof {
                vstd::array::axiom_array_ext_equal(platform.administrator, accounts[0].key);
            }
            return Err(UniPinoNftErr::Unauthorized);
        }
        let (address, bump) = derivation?;
        if !keys_equal(&address, &accounts[1].key) || bump != platform.bump {
            return Err(UniPinoNftErr::InvalidSeeds);
        }
        let ghost p = platform@;
        if self.update_args.is_receiver_valid != 0 {
            platform.fee_receiver = self.update_args.fee_receiver;
        }
        platform.mint_fee = self.update_args.mint_fee;
        assert(platform@ == updated_platform(p, self.update_args@));
        let location = Account {
            key: accounts[1].key,
            owner: accounts[1].owner,
            lamports: accounts[1].lamports,
            is_signer: accounts[1].is_signer,
            is_writable: accounts[1].is_writable,
            data: platform.to_bytes(),
        };
        let ghost before = view_accounts(accounts@);
        accounts.set(1, location);
        assert(view_accounts(accounts@) =~= before.update(1, rewritten(before[1], platform@.bytes())));
        let calls: Vec<Invocation> = Vec::new();
        assert(view_invocations(calls@) =~= Seq::empty());
        Ok(calls)
    }

    /// Runs UpdatePlatform: derives the platform address from the caller's
    /// key, then updates the record there.
    pub fn process(&self, env: &Env, accounts: &mut Vec<Account>) -> (r: Result<
        Vec<Invocation>,
        UniPinoNftErr,
    >)
        ensures
            matches_outcome(
                update_platform_outcome(
                    *env,
                    view_accounts(old(accounts)@),
                    self.update_args@,
                    platform_derivation(*env, view_accounts(old(accounts)@)),
                ),
                r,
                old(accounts)@,
                final(accounts)@,
            ),
    {
        if accounts.len() < 2 {
            return Err(UniPinoNftErr::NotEnoughAccountKeys);
        }
        let seeds = platform_seeds_of(&accounts[0].key);
        let derivation = derive_address(&seeds, &env.program_id);
        self.process_with(env, accounts, derivation)
    }
}

} // verus!
