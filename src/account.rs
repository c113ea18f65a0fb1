//! The storage locations an operation reads and writes, the runtime
//! configuration it is given, and the outbound calls it asks for.
use crate::bytes::bytes_equal;
use vstd::prelude::*;

verus! {

/// Whether two keys are the same.
pub fn keys_equal(a: &[u8; 32], b: &[u8; 32]) -> (r: bool)
    ensures
        r == (*a == *b),
{
    let r = bytes_equal(a.as_slice(), b.as_slice());
    proof {
        if r {
            vstd::array::axiom_array_ext_equal(*a, *b);
        }
    }
    r
}

/// One storage location as the runtime presents it to an operation.
pub struct Account {
    pub key: [u8; 32],
    pub owner: [u8; 32],
    pub lamports: u64,
    pub is_signer: bool,
    pub is_writable: bool,
    pub data: Vec<u8>,
}

/// An account as a value.
pub ghost struct AccountView {
    pub key: [u8; 32],
    pub owner: [u8; 32],
    pub lamports: u64,
    pub is_signer: bool,
    pub is_writable: bool,
    pub data: Seq<u8>,
}

impl View for Account {
    type V = AccountView;

    open spec fn view(&self) -> AccountView {
        AccountView {
            key: self.key,
            owner: self.owner,
            lamports: self.lamports,
            is_signer: self.is_signer,
            is_writable: self.is_writable,
            data: self.data@,
        }
    }
}

pub open spec fn view_accounts(v: Seq<Account>) -> Seq<AccountView> {
    v.map_values(|a: Account| a@)
}

/// A location holds a live record of this program: it is owned by the
/// program and has a balance.
pub open spec fn is_live(a: AccountView, program_id: [u8; 32]) -> bool {
    a.owner == program_id && a.lamports > 0
}

/// The location after the runtime allocated it: the balance it was funded
/// with, its new owner and its contents.
pub open spec fn allocated(a: AccountView, lamports: u64, owner: [u8; 32], data: Seq<u8>) -> AccountView {
    AccountView { owner, lamports, data, ..a }
}

/// The location with a new balance.
pub open spec fn with_lamports(a: AccountView, lamports: u64) -> AccountView {
    AccountView { lamports, ..a }
}

/// Sets the balance of the account at position `i`.
pub fn set_lamports(accounts: &mut Vec<Account>, i: usize, lamports: u64)
    requires
        i < old(accounts)@.len(),
    ensures
        final(accounts)@.len() == old(accounts)@.len(),
        view_accounts(final(accounts)@) == view_accounts(old(accounts)@).update(
            i as int,
            with_lamports(old(accounts)@[i as int]@, lamports),
        ),
{
    let a = Account {
        key: accounts[i].key,
        owner: accounts[i].owner,
        lamports,
        is_signer: accounts[i].is_signer,
        is_writable: accounts[i].is_writable,
        data: accounts[i].data.clone(),
    };
    let ghost before = view_accounts(accounts@);
    accounts.set(i, a);
    assert(view_accounts(accounts@) =~= before.update(i as int, with_lamports(before[i as int], lamports)));
}

/// The location with new contents.
pub open spec fn rewritten(a: AccountView, data: Seq<u8>) -> AccountView {
    AccountView { data, ..a }
}

/// Minimum balances that the runtime asks of each kind of location.
#[derive(Clone, Copy)]
pub struct Rent {
    pub platform: u64,
    pub user: u64,
    pub mint: u64,
    pub metadata: u64,
}

/// What the runtime tells every operation: this program's identity, the
/// sub-ledger's identity and entry size, and the minimum balances.
#[derive(Clone, Copy)]
pub struct Env {
    pub program_id: [u8; 32],
    pub token_program_id: [u8; 32],
    pub mint_space: usize,
    pub rent: Rent,
}

/// A capability to sign for one derived address: the record kind's seeds
/// together with the bump that makes them derive the address.
#[derive(Clone, Copy)]
pub enum Signer {
    Platform { administrator: [u8; 32], bump: u8 },
    User { user_uuid: u128, platform: [u8; 32], platform_bump: u8, bump: u8 },
    Entry { user_uuid: u128, user: [u8; 32], token_program: [u8; 32], bump: u8 },
}

/// A call to the runtime or to the sub-ledger, made after the operation
/// has validated everything, in the order given.
pub enum Invocation {
    /// Allocate `space` bytes at `to`, owned by `owner`, funded by `from`.
    CreateAccount {
        from: [u8; 32],
        to: [u8; 32],
        lamports: u64,
        space: u64,
        owner: [u8; 32],
        signers: Vec<Signer>,
    },
    /// Move `lamports` from `from` to `to`.
    Transfer { from: [u8; 32], to: [u8; 32], lamports: u64 },
    /// Initialise the sub-ledger entry at `mint`.
    InitializeMint { mint: [u8; 32], decimals: u8, mint_authority: [u8; 32] },
    /// Close the sub-ledger entry at `account`, remitting to `destination`.
    CloseMint {
        account: [u8; 32],
        destination: [u8; 32],
        authority: [u8; 32],
        signers: Vec<Signer>,
    },
    /// Zero the backing at `account` and remit its `lamports` to
    /// `destination`.
    Reclaim { account: [u8; 32], destination: [u8; 32], lamports: u64 },
}

/// An invocation as a value.
pub ghost enum InvocationView {
    CreateAccount {
        from: [u8; 32],
        to: [u8; 32],
        lamports: u64,
        space: u64,
        owner: [u8; 32],
        signers: Seq<Signer>,
    },
    Transfer { from: [u8; 32], to: [u8; 32], lamports: u64 },
    InitializeMint { mint: [u8; 32], decimals: u8, mint_authority: [u8; 32] },
    CloseMint {
        account: [u8; 32],
        destination: [u8; 32],
        authority: [u8; 32],
        signers: Seq<Signer>,
    },
    Reclaim { account: [u8; 32], destination: [u8; 32], lamports: u64 },
}

impl View for Invocation {
    type V = InvocationView;

    open spec fn view(&self) -> InvocationView {
        match self {
            Invocation::CreateAccount { from, to, lamports, space, owner, signers } => {
                InvocationView::CreateAccount {
                    from: *from,
                    to: *to,
                    lamports: *lamports,
                    space: *space,
                    owner: *owner,
                    signers: signers@,
                }
            },
            Invocation::Transfer { from, to, lamports } => InvocationView::Transfer {
                from: *from,
                to: *to,
                lamports: *lamports,
            },
            Invocation::InitializeMint { mint, decimals, mint_authority } => {
                InvocationView::InitializeMint {
                    mint: *mint,
                    decimals: *decimals,
                    mint_authority: *mint_authority,
                }
            },
            Invocation::CloseMint { account, destination, authority, signers } => {
                InvocationView::CloseMint {
                    account: *account,
                    destination: *destination,
                    authority: *authority,
                    signers: signers@,
                }
            },
            Invocation::Reclaim { account, destination, lamports } => InvocationView::Reclaim {
                account: *account,
                destination: *destination,
                lamports: *lamports,
            },
        }
    }
}

pub open spec fn view_invocations(v: Seq<Invocation>) -> Seq<InvocationView> {
    v.map_values(|i: Invocation| i@)
}

/// What an operation does to its accounts and asks of the runtime, or the
/// error it stops with.
pub type Outcome = Result<(Seq<AccountView>, Seq<InvocationView>), crate::error::UniPinoNftErr>;

/// The accounts once the operation has run: the outcome's on success, the
/// given ones on failure.
pub open spec fn accounts_after(o: Outcome, s: Seq<AccountView>) -> Seq<AccountView> {
    match o {
        Ok((accounts, _)) => accounts,
        Err(_) => s,
    }
}

/// The executed operation agrees with `o`: on success the accounts are the
/// outcome's and the invocations are its calls; on failure the error is the
/// outcome's and the accounts are as they were.
pub open spec fn matches_outcome(
    o: Outcome,
    r: Result<Vec<Invocation>, crate::error::UniPinoNftErr>,
    before: Seq<Account>,
    after: Seq<Account>,
) -> bool {
    match o {
        Ok((accounts, calls)) => {
            &&& r is Ok
            &&& view_invocations(r->Ok_0@) == calls
            &&& view_accounts(after) == accounts
        },
        Err(e) => {
            &&& r is Err
            &&& r->Err_0 == e
            &&& after == before
        },
    }
}

} // verus!
