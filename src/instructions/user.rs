//! Creating a user record under a platform record.
use crate::account::{
    allocated, is_live, keys_equal, set_lamports, with_lamports, matches_outcome, rewritten, view_accounts, view_invocations,
    Account, AccountView, Env, Invocation, InvocationView, Outcome, Signer,
};
use crate::error::UniPinoNftErr;
use crate::pda::{derive_address, derived, user_seeds, user_seeds_of};
use crate::state::platform::{is_platform_record, parse_platform, Platform, PlatformView};
use crate::state::user::{fresh_user, User, USER_LEN};
use vstd::prelude::*;

verus! {

/// The platform record with one more user.
pub open spec fn with_new_user(p: PlatformView) -> PlatformView {
    PlatformView { total_users: (p.total_users + 1) as u64, ..p }
}

/// What CreateUser does, given the derivation of the user address.
/// Accounts: the administrator, the platform record, the user location.
pub open spec fn create_user_outcome(
    env: Env,
    s: Seq<AccountView>,
    user_uuid: u128,
    derivation: Result<([u8; 32], u8), UniPinoNftErr>,
) -> Outcome {
    if s.len() < 3 {
        Err(UniPinoNftErr::NotEnoughAccountKeys)
    } else if !s[0].is_signer || !s[0].is_writable || !s[1].is_writable || !s[2].is_writable {
        Err(UniPinoNftErr::Unauthorized)
    } else if !is_live(s[1], env.program_id) {
        Err(UniPinoNftErr::NotInitialized)
    } else if !is_platform_record(s[1].data) {
        Err(UniPinoNftErr::MalformedRecord)
    } else {
        let p = parse_platform(s[1].data);
        if p.administrator != s[0].key@ {
            Err(UniPinoNftErr::Unauthorized)
        } else {
            match derivation {
                Err(e) => Err(e),
                Ok((address, bump)) => {
                    if address != s[2].key {
                        Err(UniPinoNftErr::InvalidSeeds)
                    } else if s[2].lamports > 0 {
                        Err(UniPinoNftErr::AlreadyExists)
                    } else if p.total_users == u64::MAX {
                        Err(UniPinoNftErr::CounterOverflow)
                    } else if s[0].lamports < env.rent.user {
                        Err(UniPinoNftErr::InsufficientFunds)
                    } else {
                        let user = fresh_user(s[1].key@, user_uuid, bump);
                        Ok(
                            (
                                s.update(
                                    0,
                                    with_lamports(s[0], (s[0].lamports - env.rent.user) as u64),
                                ).update(1, rewritten(s[1], with_new_user(p).bytes())).update(
                                    2,
                                    allocated(s[2], env.rent.user, env.program_id, user.bytes()),
                                ),
                                seq![
                                    InvocationView::CreateAccount {
                                        from: s[0].key,
                                        to: s[2].key,
                                        lamports: env.rent.user,
                                        space: USER_LEN as u64,
                                        owner: env.program_id,
                                        signers: seq![
                                            Signer::Platform { administrator: s[0].key, bump: p.bump },
                                            Signer::User {
                                                user_uuid,
                                                platform: s[1].key,
                                                platform_bump: p.bump,
                                                bump,
                                            },
                                        ],
                                    },
                                ],
                            ),
                        )
                    }
                },
            }
        }
    }
}

/// The derivation CreateUser performs: the user address of `user_uuid`
/// under the supplied platform record and its bump.
pub open spec fn user_derivation(env: Env, s: Seq<AccountView>, user_uuid: u128) -> Result<
    ([u8; 32], u8),
    UniPinoNftErr,
> {
    if s.len() >= 3 && is_platform_record(s[1].data) {
        derived(user_seeds(user_uuid, s[1].key@, parse_platform(s[1].data).bump), env.program_id@)
    } else {
        Err(UniPinoNftErr::AddressSpaceExhausted)
    }
}

/// Registers user `user_uuid` under the administrator's platform record.
pub struct CreateUser {
    pub user_uuid: u128,
}

impl CreateUser {
    /// Runs CreateUser with the user address already derived.
    pub fn process_with(
        &self,
        env: &Env,
        accounts: &mut Vec<Account>,
        derivation: Result<([u8; 32], u8), UniPinoNftErr>,
    ) -> (r: Result<Vec<Invocation>, UniPinoNftErr>)
        ensures
            matches_outcome(
                create_user_outcome(*env, view_accounts(old(accounts)@), self.user_uuid, derivation),
                r,
                old(accounts)@,
                final(accounts)@,
            ),
    {
        if accounts.len() < 3 {
            return Err(UniPinoNftErr::NotEnoughAccountKeys);
        }
        if !accounts[0].is_signer || !accounts[0].is_writable || !accounts[1].is_writable
            || !accounts[2].is_writable {
            return Err(UniPinoNftErr::Unauthorized);
        }
        if !keys_equal(&accounts[1].owner, &env.program_id) || accounts[1].lamports == 0 {
            return Err(UniPinoNftErr::NotInitialized);
        }
        let mut platform = Platform::try_from_bytes(accounts[1].data.as_slice())?;
        if !keys_equal(&platform.administrator, &accounts[0].key) {
            proof {
                vstd::array::axiom_array_ext_equal(platform.administrator, accounts[0].key);
            }
            return Err(UniPinoNftErr::Unauthorized);
        }
        let (address, bump) = derivation?;
        if !keys_equal(&address, &accounts[2].key) {
            return Err(UniPinoNftErr::InvalidSeeds);
        }
        if accounts[2].lamports > 0 {
            return Err(UniPinoNftErr::AlreadyExists);
        }
        if platform.total_users == u64::MAX {
            return Err(UniPinoNftErr::CounterOverflow);
        }
        if accounts[0].lamports < env.rent.user {
            return Err(UniPinoNftErr::InsufficientFunds);
        }
        let ghost start = view_accounts(accounts@);
        let payer_balance = accounts[0].lamports - env.rent.user;
        set_lamports(accounts, 0, payer_balance);
        assert(view_accounts(accounts@)[0] == accounts@[0]@ && view_accounts(accounts@)[1]
            == accounts@[1]@ && view_accounts(accounts@)[2] == accounts@[2]@);
        let ghost p = platform@;
        platform.total_users = platform.total_users + 1;
        assert(platform@ == with_new_user(p));
        let administrator = accounts[0].key;
        let platform_key = accounts[1].key;
        let user = User::new(platform_key, self.user_uuid, bump);
        let platform_location = Account {
            key: accounts[1].key,
            owner: accounts[1].owner,
            lamports: accounts[1].lamports,
            is_signer: accounts[1].is_signer,
            is_writable: accounts[1].is_writable,
            data: platform.to_bytes(),
        };
        let user_location = Account {
            key: accounts[2].key,
            owner: env.program_id,
            lamports: env.rent.user,
            is_signer: accounts[2].is_signer,
            is_writable: accounts[2].is_writable,
            data: user.to_bytes(),
        };
        let ghost before = view_accounts(accounts@);
        accounts.set(1, platform_location);
        accounts.set(2, user_location);
        assert(view_accounts(accounts@) =~= start.update(0, with_lamports(start[0], payer_balance)).update(
            1,
            rewritten(start[1], platform@.bytes()),
        ).update(2, allocated(start[2], env.rent.user, env.program_id, user@.bytes())));
        let signers = vec![
            Signer::Platform { administrator, bump: platform.bump },
            Signer::User {
                user_uuid: self.user_uuid,
                platform: platform_key,
                platform_bump: platform.bump,
                bump,
            },
        ];
        assert(signers@ =~= seq![
            Signer::Platform { administrator, bump: platform.bump },
            Signer::User {
                user_uuid: self.user_uuid,
                platform: platform_key,
                platform_bump: platform.bump,
                bump,
            },
        ]);
        let calls = vec![
            Invocation::CreateAccount {
                from: administrator,
                to: address,
                lamports: env.rent.user,
                space: USER_LEN as u64,
                owner: env.program_id,
                signers,
            },
        ];
        assert(view_invocations(calls@) =~= seq![calls@[0]@]);
        Ok(calls)
    }

    /// Runs CreateUser: derives the user address from the uuid and the
    /// platform record, then creates the record there.
    pub fn process(&self, env: &Env, accounts: &mut Vec<Account>) -> (r: Result<
        Vec<Invocation>,
        UniPinoNftErr,
    >)
        ensures
            matches_outcome(
                create_user_outcome(
                    *env,
                    view_accounts(old(accounts)@),
                    self.user_uuid,
                    user_derivation(*env, view_accounts(old(accounts)@), self.user_uuid),
                ),
                r,
                old(accounts)@,
                final(accounts)@,
            ),
    {
        if accounts.len() < 3 {
            return Err(UniPinoNftErr::NotEnoughAccountKeys);
        }
        let derivation = match Platform::try_from_bytes(accounts[1].data.as_slice()) {
            Ok(platform) => {
                let seeds = user_seeds_of(self.user_uuid, &accounts[1].key, platform.bump);
                derive_address(&seeds, &env.program_id)
            },
            Err(_) => Err(UniPinoNftErr::AddressSpaceExhausted),
        };
        self.process_with(env, accounts, derivation)
    }
}

} // verus!
