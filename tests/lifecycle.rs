use uni_pino_nft::account::{Account, Env, Invocation, Rent, Signer};
use uni_pino_nft::error::UniPinoNftErr;
use uni_pino_nft::instructions::nft::{BurnNft, MintNft, UpdateNFTMetadata};
use uni_pino_nft::instructions::platform::{InitPlatform, UpdatePlatformConfig};
use uni_pino_nft::instructions::user::CreateUser;
use uni_pino_nft::instructions::{MintNftArgs, UpdatePlatformArgs};
use uni_pino_nft::state::nft_meta::NftMeta;
use uni_pino_nft::state::platform::Platform;
use uni_pino_nft::state::user::User;

const ADMIN: u8 = 1;
const PLATFORM: u8 = 2;
const USER: u8 = 3;
const MINT: u8 = 4;
const META: u8 = 5;
const RECEIVER: u8 = 6;
const PROGRAM: u8 = 90;

fn env() -> Env {
    Env {
        program_id: [90; 32],
        token_program_id: [80; 32],
        mint_space: 82,
        rent: Rent { platform: 1_000, user: 500, mint: 300, metadata: 2_000 },
    }
}

fn location(key: u8) -> Account {
    Account {
        key: [key; 32],
        owner: [0; 32],
        lamports: 0,
        is_signer: false,
        is_writable: true,
        data: Vec::new(),
    }
}

fn admin() -> Account {
    Account { is_signer: true, lamports: 1_000_000, ..location(ADMIN) }
}

fn padded<const N: usize>(s: &[u8]) -> [u8; N] {
    let mut r = [0u8; N];
    r[..s.len()].copy_from_slice(s);
    r
}

fn take(accounts: &mut Vec<Account>, i: usize) -> Account {
    std::mem::replace(&mut accounts[i], location(0))
}

/// Runs InitPlatform for ADMIN and returns the live platform location.
fn live_platform() -> Account {
    let mut accounts = vec![admin(), location(PLATFORM)];
    InitPlatform.process_with(&env(), &mut accounts, Ok(([PLATFORM; 32], 254))).unwrap();
    take(&mut accounts, 1)
}

/// Runs CreateUser for uuid 7 under the given platform; returns both.
fn live_user(platform: Account) -> (Account, Account) {
    let mut accounts = vec![admin(), platform, location(USER)];
    CreateUser { user_uuid: 7 }
        .process_with(&env(), &mut accounts, Ok(([USER; 32], 253)))
        .unwrap();
    let user = take(&mut accounts, 2);
    (take(&mut accounts, 1), user)
}

fn mint_args(name: &[u8]) -> MintNftArgs {
    MintNftArgs {
        user_uuid: 7,
        asset_name: padded(name),
        uri: padded(b"https://example.org/x"),
        desc: padded(b"an asset"),
    }
}

fn mint_accounts(platform: Account, user: Account, receiver: u8) -> Vec<Account> {
    vec![
        admin(),
        platform,
        user,
        location(MINT),
        location(META),
        location(receiver),
        location(PROGRAM),
    ]
}

fn run_mint(accounts: &mut Vec<Account>, name: &[u8]) -> Result<Vec<Invocation>, UniPinoNftErr> {
    MintNft { mint_nft_args: mint_args(name) }.process_with(
        &env(),
        accounts,
        Ok(([MINT; 32], 252)),
        Ok(([META; 32], 251)),
    )
}

fn set_fee(platform: Account, receiver: u8, fee: u64) -> Account {
    let mut accounts = vec![admin(), platform];
    UpdatePlatformConfig {
        update_args: UpdatePlatformArgs {
            is_receiver_valid: 1,
            fee_receiver: [receiver; 32],
            mint_fee: fee,
        },
    }
    .process_with(&env(), &mut accounts, Ok(([PLATFORM; 32], 254)))
    .unwrap();
    take(&mut accounts, 1)
}

/// A platform, a user and one minted asset: the accounts of a burn.
fn minted() -> Vec<Account> {
    let (platform, user) = live_user(live_platform());
    let mut accounts = mint_accounts(platform, user, RECEIVER);
    run_mint(&mut accounts, b"X").unwrap();
    accounts.remove(5);
    accounts
}

#[test]
fn init_platform_writes_fresh_record() {
    let mut accounts = vec![admin(), location(PLATFORM)];
    let calls = InitPlatform
        .process_with(&env(), &mut accounts, Ok(([PLATFORM; 32], 254)))
        .unwrap();
    let p = Platform::try_from_bytes(&accounts[1].data).unwrap();
    assert_eq!(p.administrator, [ADMIN; 32]);
    assert_eq!(p.fee_receiver, [ADMIN; 32]);
    assert_eq!((p.total_users, p.total_mints, p.mint_fee, p.bump), (0, 0, 0, 254));
    assert_eq!(accounts[1].lamports, 1_000);
    assert_eq!(accounts[0].lamports, 1_000_000 - 1_000);
    assert_eq!(accounts[1].owner, [90; 32]);
    assert_eq!(calls.len(), 1);
    match &calls[0] {
        Invocation::CreateAccount { from, to, lamports, space, owner, signers } => {
            assert_eq!((*from, *to, *lamports, *space, *owner), ([ADMIN; 32], [PLATFORM; 32], 1_000, 225, [90; 32]));
            assert_eq!(signers.len(), 1);
            assert!(matches!(signers[0], Signer::Platform { administrator, bump: 254 } if administrator == [ADMIN; 32]));
        }
        _ => panic!("expected an allocation"),
    }
}

#[test]
fn init_platform_twice_fails_and_keeps_record() {
    let platform = live_platform();
    let before = platform.data.clone();
    let mut accounts = vec![admin(), platform];
    let r = InitPlatform.process_with(&env(), &mut accounts, Ok(([PLATFORM; 32], 254)));
    assert_eq!(r.err(), Some(UniPinoNftErr::AlreadyInitialized));
    assert_eq!(accounts[1].data, before);
    assert_eq!(accounts[1].lamports, 1_000);
}

#[test]
fn init_platform_needs_signer() {
    let mut accounts = vec![Account { is_signer: false, ..admin() }, location(PLATFORM)];
    let r = InitPlatform.process_with(&env(), &mut accounts, Ok(([PLATFORM; 32], 254)));
    assert_eq!(r.err(), Some(UniPinoNftErr::Unauthorized));
    assert!(accounts[1].data.is_empty());
}

#[test]
fn init_platform_wrong_location() {
    let mut accounts = vec![admin(), location(PLATFORM)];
    let r = InitPlatform.process_with(&env(), &mut accounts, Ok(([77; 32], 254)));
    assert_eq!(r.err(), Some(UniPinoNftErr::InvalidSeeds));
}

#[test]
fn init_platform_exhausted_derivation() {
    let mut accounts = vec![admin(), location(PLATFORM)];
    let r = InitPlatform.process_with(&env(), &mut accounts, Err(UniPinoNftErr::AddressSpaceExhausted));
    assert_eq!(r.err(), Some(UniPinoNftErr::AddressSpaceExhausted));
}

#[test]
fn init_platform_short_account_list() {
    let mut accounts = vec![admin()];
    let r = InitPlatform.process(&env(), &mut accounts);
    assert_eq!(r.err(), Some(UniPinoNftErr::NotEnoughAccountKeys));
}

#[test]
fn update_platform_sets_fee_and_receiver() {
    let platform = set_fee(live_platform(), RECEIVER, 100);
    let p = Platform::try_from_bytes(&platform.data).unwrap();
    assert_eq!(p.fee_receiver, [RECEIVER; 32]);
    assert_eq!(p.mint_fee, 100);
    assert_eq!(p.administrator, [ADMIN; 32]);
}

#[test]
fn update_platform_flag_unset_keeps_receiver() {
    let mut accounts = vec![admin(), live_platform()];
    UpdatePlatformConfig {
        update_args: UpdatePlatformArgs { is_receiver_valid: 0, fee_receiver: [RECEIVER; 32], mint_fee: 5 },
    }
    .process_with(&env(), &mut accounts, Ok(([PLATFORM; 32], 254)))
    .unwrap();
    let p = Platform::try_from_bytes(&accounts[1].data).unwrap();
    assert_eq!(p.fee_receiver, [ADMIN; 32]);
    assert_eq!(p.mint_fee, 5);
}

#[test]
fn update_platform_by_non_administrator_fails() {
    let platform = live_platform();
    let before = platform.data.clone();
    let intruder = Account { is_signer: true, lamports: 10, ..location(66) };
    let mut accounts = vec![intruder, platform];
    let r = UpdatePlatformConfig {
        update_args: UpdatePlatformArgs { is_receiver_valid: 1, fee_receiver: [66; 32], mint_fee: 1 },
    }
    .process_with(&env(), &mut accounts, Ok(([PLATFORM; 32], 254)));
    assert_eq!(r.err(), Some(UniPinoNftErr::Unauthorized));
    assert_eq!(accounts[1].data, before);
}

#[test]
fn update_platform_stale_bump_fails() {
    let mut accounts = vec![admin(), live_platform()];
    let r = UpdatePlatformConfig {
        update_args: UpdatePlatformArgs { is_receiver_valid: 0, fee_receiver: [0; 32], mint_fee: 1 },
    }
    .process_with(&env(), &mut accounts, Ok(([PLATFORM; 32], 200)));
    assert_eq!(r.err(), Some(UniPinoNftErr::InvalidSeeds));
}

#[test]
fn update_platform_uninitialized() {
    let mut accounts = vec![admin(), location(PLATFORM)];
    let r = UpdatePlatformConfig {
        update_args: UpdatePlatformArgs { is_receiver_valid: 0, fee_receiver: [0; 32], mint_fee: 1 },
    }
    .process_with(&env(), &mut accounts, Ok(([PLATFORM; 32], 254)));
    assert_eq!(r.err(), Some(UniPinoNftErr::NotInitialized));
}

#[test]
fn update_platform_malformed_record() {
    let platform = Account { owner: [90; 32], lamports: 5, data: vec![1; 225], ..location(PLATFORM) };
    let mut accounts = vec![admin(), platform];
    let r = UpdatePlatformConfig {
        update_args: UpdatePlatformArgs { is_receiver_valid: 0, fee_receiver: [0; 32], mint_fee: 1 },
    }
    .process_with(&env(), &mut accounts, Ok(([PLATFORM; 32], 254)));
    assert_eq!(r.err(), Some(UniPinoNftErr::MalformedRecord));
}

#[test]
fn create_user_writes_record_and_counts() {
    let (platform, user) = live_user(live_platform());
    let p = Platform::try_from_bytes(&platform.data).unwrap();
    assert_eq!(p.total_users, 1);
    let u = User::try_from_bytes(&user.data).unwrap();
    assert_eq!(u.user_uuid, 7);
    assert_eq!(u.owner, [PLATFORM; 32]);
    assert_eq!((u.nft_count, u.collection_count, u.bump), (0, 0, 253));
    assert_eq!(user.lamports, 500);
}

#[test]
fn create_user_signers_chain() {
    let mut accounts = vec![admin(), live_platform(), location(USER)];
    let calls = CreateUser { user_uuid: 7 }
        .process_with(&env(), &mut accounts, Ok(([USER; 32], 253)))
        .unwrap();
    match &calls[0] {
        Invocation::CreateAccount { to, space, signers, .. } => {
            assert_eq!((*to, *space), ([USER; 32], 129));
            assert_eq!(signers.len(), 2);
            assert!(matches!(signers[1], Signer::User { user_uuid: 7, platform_bump: 254, bump: 253, .. }));
        }
        _ => panic!("expected an allocation"),
    }
}

#[test]
fn create_user_wrong_location_allocates_nothing() {
    let platform = live_platform();
    let before = platform.data.clone();
    let mut accounts = vec![admin(), platform, location(USER)];
    let r = CreateUser { user_uuid: 7 }.process_with(&env(), &mut accounts, Ok(([99; 32], 253)));
    assert_eq!(r.err(), Some(UniPinoNftErr::InvalidSeeds));
    assert_eq!(accounts[1].data, before);
    assert!(accounts[2].data.is_empty());
    assert_eq!(accounts[2].lamports, 0);
}

#[test]
fn create_user_twice_fails_without_counting() {
    let (platform, user) = live_user(live_platform());
    let mut accounts = vec![admin(), platform, user];
    let r = CreateUser { user_uuid: 7 }.process_with(&env(), &mut accounts, Ok(([USER; 32], 253)));
    assert_eq!(r.err(), Some(UniPinoNftErr::AlreadyExists));
    let p = Platform::try_from_bytes(&accounts[1].data).unwrap();
    assert_eq!(p.total_users, 1);
}

#[test]
fn create_user_counter_overflow() {
    let mut p = Platform::new([ADMIN; 32], 254);
    p.total_users = u64::MAX;
    let platform = Account { owner: [90; 32], lamports: 1_000, data: p.to_bytes(), ..location(PLATFORM) };
    let mut accounts = vec![admin(), platform, location(USER)];
    let r = CreateUser { user_uuid: 7 }.process_with(&env(), &mut accounts, Ok(([USER; 32], 253)));
    assert_eq!(r.err(), Some(UniPinoNftErr::CounterOverflow));
}

#[test]
fn create_user_without_platform() {
    let mut accounts = vec![admin(), location(PLATFORM), location(USER)];
    let r = CreateUser { user_uuid: 7 }.process_with(&env(), &mut accounts, Ok(([USER; 32], 253)));
    assert_eq!(r.err(), Some(UniPinoNftErr::NotInitialized));
}

#[test]
fn create_user_by_non_administrator() {
    let intruder = Account { is_signer: true, ..location(66) };
    let mut accounts = vec![intruder, live_platform(), location(USER)];
    let r = CreateUser { user_uuid: 7 }.process_with(&env(), &mut accounts, Ok(([USER; 32], 253)));
    assert_eq!(r.err(), Some(UniPinoNftErr::Unauthorized));
}

#[test]
fn init_create_mint_scenario() {
    let (platform, user) = live_user(live_platform());
    let mut accounts = mint_accounts(platform, user, RECEIVER);
    run_mint(&mut accounts, b"X").unwrap();
    let p = Platform::try_from_bytes(&accounts[1].data).unwrap();
    assert_eq!(p.total_mints, 1);
    let u = User::try_from_bytes(&accounts[2].data).unwrap();
    assert_eq!(u.nft_count, 1);
    let m = NftMeta::try_from_bytes(&accounts[4].data).unwrap();
    assert_eq!(m.name[0], b'X');
    assert!(m.name[1..].iter().all(|b| *b == 0));
    assert!(m.collection.iter().all(|b| *b == 0));
    assert_eq!(&m.uri[..21], b"https://example.org/x");
    assert_eq!(&m.description[..8], b"an asset");
}

#[test]
fn mint_without_fee_makes_no_transfer() {
    let (platform, user) = live_user(live_platform());
    let mut accounts = mint_accounts(platform, user, 77);
    let calls = run_mint(&mut accounts, b"X").unwrap();
    assert!(calls.iter().all(|c| !matches!(c, Invocation::Transfer { .. })));
    assert_eq!(calls.len(), 3);
    assert!(matches!(calls[0], Invocation::CreateAccount { to, owner, space: 82, .. } if to == [MINT; 32] && owner == [80; 32]));
    assert!(matches!(calls[1], Invocation::InitializeMint { mint, decimals: 0, mint_authority } if mint == [MINT; 32] && mint_authority == [USER; 32]));
    match &calls[2] {
        Invocation::CreateAccount { to, space, signers, .. } => {
            assert_eq!((*to, *space), ([META; 32], 840));
            assert_eq!(signers.len(), 3);
            assert!(matches!(signers[2], Signer::Entry { user_uuid: 7, bump: 252, .. }));
        }
        _ => panic!("expected an allocation"),
    }
}

#[test]
fn mint_with_fee_transfers_first() {
    let platform = set_fee(live_platform(), RECEIVER, 100);
    let (platform, user) = live_user(platform);
    let mut accounts = mint_accounts(platform, user, RECEIVER);
    let calls = run_mint(&mut accounts, b"X").unwrap();
    assert_eq!(calls.len(), 4);
    assert!(matches!(calls[0], Invocation::Transfer { from, to, lamports: 100 } if from == [ADMIN; 32] && to == [RECEIVER; 32]));
    assert_eq!(accounts[5].lamports, 100);
    assert_eq!(accounts[0].lamports, 1_000_000 - 100 - 300 - 2_000);
    assert_eq!(accounts[3].lamports, 300);
    assert_eq!(accounts[4].lamports, 2_000);
}

#[test]
fn mint_with_wrong_fee_receiver_fails() {
    let platform = set_fee(live_platform(), RECEIVER, 100);
    let (platform, user) = live_user(platform);
    let mut accounts = mint_accounts(platform, user, 77);
    let platform_before = accounts[1].data.clone();
    let user_before = accounts[2].data.clone();
    let r = run_mint(&mut accounts, b"X");
    assert_eq!(r.err(), Some(UniPinoNftErr::Unauthorized));
    assert_eq!(accounts[1].data, platform_before);
    assert_eq!(accounts[2].data, user_before);
    assert_eq!(accounts[3].lamports, 0);
    assert!(accounts[3].data.is_empty());
}

#[test]
fn mint_wrong_entry_location() {
    let (platform, user) = live_user(live_platform());
    let mut accounts = mint_accounts(platform, user, RECEIVER);
    let r = MintNft { mint_nft_args: mint_args(b"X") }.process_with(
        &env(),
        &mut accounts,
        Ok(([44; 32], 252)),
        Ok(([META; 32], 251)),
    );
    assert_eq!(r.err(), Some(UniPinoNftErr::InvalidSeeds));
}

#[test]
fn mint_user_of_other_platform() {
    let (platform, _) = live_user(live_platform());
    let stranger = User::new([55; 32], 7, 253);
    let user = Account { owner: [90; 32], lamports: 500, data: stranger.to_bytes(), ..location(USER) };
    let mut accounts = mint_accounts(platform, user, RECEIVER);
    assert_eq!(run_mint(&mut accounts, b"X").err(), Some(UniPinoNftErr::Unauthorized));
}

#[test]
fn mint_short_account_list() {
    let mut accounts = vec![admin(), live_platform()];
    assert_eq!(run_mint(&mut accounts, b"X").err(), Some(UniPinoNftErr::NotEnoughAccountKeys));
}

#[test]
fn update_meta_overwrites_fields() {
    let mut accounts = minted();
    let meta = NftMeta {
        discriminator: [0; 8],
        name: padded(b"Y"),
        collection: padded(b"set"),
        uri: padded(b"u"),
        description: padded(b"d"),
    };
    let calls = UpdateNFTMetadata { nft_meta: meta }
        .process_with(&env(), &mut accounts, Ok(([META; 32], 251)))
        .unwrap();
    assert!(calls.is_empty());
    let m = NftMeta::try_from_bytes(&accounts[4].data).unwrap();
    assert_eq!(m.name[0], b'Y');
    assert_eq!(&m.collection[..3], b"set");
    assert_eq!(m.uri[0], b'u');
    assert_eq!(m.description[0], b'd');
}

#[test]
fn update_meta_wrong_metadata_location() {
    let mut accounts = minted();
    let meta = NftMeta::try_from_bytes(&accounts[4].data).unwrap();
    let r = UpdateNFTMetadata { nft_meta: meta }.process_with(&env(), &mut accounts, Ok(([45; 32], 251)));
    assert_eq!(r.err(), Some(UniPinoNftErr::InvalidSeeds));
}

#[test]
fn burn_reclaims_and_uncounts() {
    let mut accounts = minted();
    let calls = BurnNft.process_with(&env(), &mut accounts, Ok(([META; 32], 251))).unwrap();
    assert_eq!(accounts[0].lamports, 1_000_000);
    assert_eq!(accounts[3].lamports, 0);
    assert_eq!(accounts[4].lamports, 0);
    assert!(accounts[4].data.iter().all(|b| *b == 0));
    assert_eq!(accounts[4].data.len(), 840);
    let p = Platform::try_from_bytes(&accounts[1].data).unwrap();
    assert_eq!(p.total_mints, 0);
    let u = User::try_from_bytes(&accounts[2].data).unwrap();
    assert_eq!(u.nft_count, 0);
    assert_eq!(calls.len(), 2);
    assert!(matches!(calls[1], Invocation::Reclaim { account, destination, lamports: 2_000 } if account == [META; 32] && destination == [ADMIN; 32]));
    match &calls[0] {
        Invocation::CloseMint { account, destination, authority, signers } => {
            assert_eq!((*account, *destination, *authority), ([MINT; 32], [ADMIN; 32], [USER; 32]));
            assert!(matches!(signers[0], Signer::User { user_uuid: 7, platform_bump: 254, bump: 253, .. }));
        }
        _ => panic!("expected a close"),
    }
}

#[test]
fn burn_twice_fails_not_initialized() {
    let mut accounts = minted();
    BurnNft.process_with(&env(), &mut accounts, Ok(([META; 32], 251))).unwrap();
    let r = BurnNft.process_with(&env(), &mut accounts, Ok(([META; 32], 251)));
    assert_eq!(r.err(), Some(UniPinoNftErr::NotInitialized));
}

#[test]
fn burn_with_zero_counters_underflows() {
    let mut accounts = minted();
    let mut p = Platform::try_from_bytes(&accounts[1].data).unwrap();
    p.total_mints = 0;
    accounts[1].data = p.to_bytes();
    let r = BurnNft.process_with(&env(), &mut accounts, Ok(([META; 32], 251)));
    assert_eq!(r.err(), Some(UniPinoNftErr::CounterUnderflow));
}

#[test]
fn burn_balance_overflow() {
    let mut accounts = minted();
    accounts[0].lamports = u64::MAX;
    let r = BurnNft.process_with(&env(), &mut accounts, Ok(([META; 32], 251)));
    assert_eq!(r.err(), Some(UniPinoNftErr::CounterOverflow));
}

#[test]
fn burn_malformed_metadata() {
    let mut accounts = minted();
    accounts[4].data[0] = 0;
    let r = BurnNft.process_with(&env(), &mut accounts, Ok(([META; 32], 251)));
    assert_eq!(r.err(), Some(UniPinoNftErr::MalformedRecord));
}

#[test]
fn administrator_and_owner_survive_every_operation() {
    let platform = set_fee(live_platform(), ADMIN, 0);
    let (platform, user) = live_user(platform);
    let mut accounts = mint_accounts(platform, user, RECEIVER);
    run_mint(&mut accounts, b"X").unwrap();
    accounts.remove(5);
    BurnNft.process_with(&env(), &mut accounts, Ok(([META; 32], 251))).unwrap();
    let p = Platform::try_from_bytes(&accounts[1].data).unwrap();
    assert_eq!(p.administrator, [ADMIN; 32]);
    assert_eq!(p.total_users, 1);
    let u = User::try_from_bytes(&accounts[2].data).unwrap();
    assert_eq!(u.owner, [PLATFORM; 32]);
}

#[test]
fn mint_fee_to_administrator_moves_nothing() {
    let platform = set_fee(live_platform(), ADMIN, 100);
    let (platform, user) = live_user(platform);
    let mut accounts = mint_accounts(platform, user, ADMIN);
    accounts[5].is_signer = true;
    accounts[5].lamports = 1_000_000;
    let calls = run_mint(&mut accounts, b"X").unwrap();
    assert!(matches!(calls[0], Invocation::Transfer { lamports: 100, .. }));
    assert_eq!(accounts[0].lamports, 1_000_000 - 300 - 2_000);
}

#[test]
fn mint_insufficient_funds() {
    let (platform, user) = live_user(live_platform());
    let mut accounts = mint_accounts(platform, user, RECEIVER);
    accounts[0].lamports = 2_299;
    let before = accounts[1].data.clone();
    assert_eq!(run_mint(&mut accounts, b"X").err(), Some(UniPinoNftErr::InsufficientFunds));
    assert_eq!(accounts[1].data, before);
    assert_eq!(accounts[0].lamports, 2_299);
}

#[test]
fn mint_needs_program_slot() {
    let (platform, user) = live_user(live_platform());
    let mut accounts = mint_accounts(platform, user, RECEIVER);
    accounts.pop();
    assert_eq!(run_mint(&mut accounts, b"X").err(), Some(UniPinoNftErr::NotEnoughAccountKeys));
}

#[test]
fn mint_read_only_metadata_location() {
    let (platform, user) = live_user(live_platform());
    let mut accounts = mint_accounts(platform, user, RECEIVER);
    accounts[4].is_writable = false;
    assert_eq!(run_mint(&mut accounts, b"X").err(), Some(UniPinoNftErr::Unauthorized));
}

#[test]
fn burn_needs_program_slot() {
    let mut accounts = minted();
    accounts.pop();
    let r = BurnNft.process_with(&env(), &mut accounts, Ok(([META; 32], 251)));
    assert_eq!(r.err(), Some(UniPinoNftErr::NotEnoughAccountKeys));
}

#[test]
fn update_meta_needs_program_slot() {
    let mut accounts = minted();
    let meta = NftMeta::try_from_bytes(&accounts[4].data).unwrap();
    accounts.pop();
    let r = UpdateNFTMetadata { nft_meta: meta }.process_with(&env(), &mut accounts, Ok(([META; 32], 251)));
    assert_eq!(r.err(), Some(UniPinoNftErr::NotEnoughAccountKeys));
}

#[test]
fn init_platform_insufficient_funds() {
    let mut accounts = vec![Account { lamports: 999, ..admin() }, location(PLATFORM)];
    let r = InitPlatform.process_with(&env(), &mut accounts, Ok(([PLATFORM; 32], 254)));
    assert_eq!(r.err(), Some(UniPinoNftErr::InsufficientFunds));
    assert!(accounts[1].data.is_empty());
}

#[test]
fn create_user_read_only_platform() {
    let mut platform = live_platform();
    platform.is_writable = false;
    let mut accounts = vec![admin(), platform, location(USER)];
    let r = CreateUser { user_uuid: 7 }.process_with(&env(), &mut accounts, Ok(([USER; 32], 253)));
    assert_eq!(r.err(), Some(UniPinoNftErr::Unauthorized));
}

#[test]
fn create_user_debits_rent() {
    let mut accounts = vec![admin(), live_platform(), location(USER)];
    CreateUser { user_uuid: u128::MAX }
        .process_with(&env(), &mut accounts, Ok(([USER; 32], 253)))
        .unwrap();
    assert_eq!(accounts[0].lamports, 1_000_000 - 500);
    assert_eq!(User::try_from_bytes(&accounts[2].data).unwrap().user_uuid, u128::MAX);
}
