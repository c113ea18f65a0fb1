use uni_pino_nft::account::{Account, Env, Rent, Signer};
use uni_pino_nft::error::UniPinoNftErr;
use uni_pino_nft::instructions::{MintNftArgs, UniPinoNftInstruction, UpdatePlatformArgs};
use uni_pino_nft::pda::{derive_address, platform_seeds_of, user_seeds_of};
use uni_pino_nft::process_instruction;
use uni_pino_nft::state::nft_meta::NftMeta;
use uni_pino_nft::state::platform::Platform;
use uni_pino_nft::state::user::User;

fn env() -> Env {
    Env {
        program_id: [90; 32],
        token_program_id: [80; 32],
        mint_space: 82,
        rent: Rent { platform: 1_000, user: 500, mint: 300, metadata: 2_000 },
    }
}

fn accounts(n: u8) -> Vec<Account> {
    (0..n)
        .map(|k| Account {
            key: [k; 32],
            owner: [0; 32],
            lamports: 0,
            is_signer: k == 0,
            is_writable: true,
            data: Vec::new(),
        })
        .collect()
}

#[test]
fn platform_layout_and_round_trip() {
    let mut p = Platform::new([1; 32], 9);
    p.total_users = 0x0102;
    p.mint_fee = 100;
    let bytes = p.to_bytes();
    assert_eq!(bytes.len(), 225);
    assert_eq!(&bytes[..8], b"platform");
    assert_eq!(&bytes[72..80], &[0x02, 0x01, 0, 0, 0, 0, 0, 0]);
    assert_eq!(&bytes[88..96], &[100, 0, 0, 0, 0, 0, 0, 0]);
    assert_eq!(bytes[96], 9);
    let q = Platform::try_from_bytes(&bytes).unwrap();
    assert_eq!(q.to_bytes(), bytes);
    assert_eq!(q.total_users, 0x0102);
}

#[test]
fn platform_decode_rejects_wrong_tag_and_size() {
    let mut bytes = Platform::new([1; 32], 9).to_bytes();
    assert_eq!(Platform::try_from_bytes(&bytes[..224]).err(), Some(UniPinoNftErr::MalformedRecord));
    bytes[0] = b'x';
    assert_eq!(Platform::try_from_bytes(&bytes).err(), Some(UniPinoNftErr::MalformedRecord));
}

#[test]
fn user_layout_and_round_trip() {
    let u = User::new([2; 32], 7, 3);
    let bytes = u.to_bytes();
    assert_eq!(bytes.len(), 129);
    assert_eq!(&bytes[..8], b"usermeta");
    assert_eq!(bytes[8], 7);
    assert_eq!(&bytes[24..56], &[2; 32]);
    assert_eq!(bytes[64], 3);
    assert_eq!(User::try_from_bytes(&bytes).unwrap().to_bytes(), bytes);
}

#[test]
fn records_refuse_each_other() {
    let platform = Platform::new([1; 32], 9).to_bytes();
    let user = User::new([2; 32], 7, 3).to_bytes();
    assert_eq!(User::try_from_bytes(&platform).err(), Some(UniPinoNftErr::MalformedRecord));
    assert_eq!(NftMeta::try_from_bytes(&user).err(), Some(UniPinoNftErr::MalformedRecord));
    let zeroed = vec![0u8; 840];
    assert_eq!(NftMeta::try_from_bytes(&zeroed).err(), Some(UniPinoNftErr::MalformedRecord));
}

#[test]
fn nft_meta_round_trip() {
    let m = NftMeta::new([b'n'; 256], [b'c'; 64], [b'u'; 256], [b'd'; 256]);
    let bytes = m.to_bytes();
    assert_eq!(bytes.len(), 840);
    assert_eq!(&bytes[..8], b"nftmeta\0");
    assert_eq!(bytes[264], b'c');
    assert_eq!(bytes[328], b'u');
    assert_eq!(bytes[584], b'd');
    assert_eq!(NftMeta::try_from_bytes(&bytes).unwrap().to_bytes(), bytes);
}

#[test]
fn update_args_decode() {
    let mut data = vec![1u8];
    data.extend_from_slice(&[5; 32]);
    data.extend_from_slice(&300u64.to_le_bytes());
    let a = UpdatePlatformArgs::try_from_bytes(&data).unwrap();
    assert_eq!((a.is_receiver_valid, a.fee_receiver, a.mint_fee), (1, [5; 32], 300));
    assert_eq!(UpdatePlatformArgs::try_from_bytes(&data[..40]).err(), Some(UniPinoNftErr::InvalidInstructionData));
}

#[test]
fn mint_args_decode() {
    let mut data = 7u128.to_le_bytes().to_vec();
    data.extend_from_slice(&[b'a'; 256]);
    data.extend_from_slice(&[b'b'; 256]);
    data.extend_from_slice(&[b'c'; 256]);
    let a = MintNftArgs::try_from_bytes(&data).unwrap();
    assert_eq!(a.user_uuid, 7);
    assert_eq!((a.asset_name[0], a.uri[0], a.desc[255]), (b'a', b'b', b'c'));
    assert_eq!(MintNftArgs::try_from_bytes(&data[1..]).err(), Some(UniPinoNftErr::InvalidInstructionData));
}

#[test]
fn unpack_selectors() {
    assert!(matches!(UniPinoNftInstruction::unpack(&[0]), Ok(UniPinoNftInstruction::InitPlatform)));
    assert!(matches!(UniPinoNftInstruction::unpack(&[5, 1, 2]), Ok(UniPinoNftInstruction::BurnNFT)));
    let mut create = vec![2u8];
    create.extend_from_slice(&42u128.to_le_bytes());
    assert!(matches!(UniPinoNftInstruction::unpack(&create), Ok(UniPinoNftInstruction::CreateUser { user_uuid: 42 })));
    assert!(matches!(UniPinoNftInstruction::unpack(&[]), Err(UniPinoNftErr::UnknownOperation)));
    assert!(matches!(UniPinoNftInstruction::unpack(&[6]), Err(UniPinoNftErr::UnknownOperation)));
    assert!(matches!(UniPinoNftInstruction::unpack(&[2, 1]), Err(UniPinoNftErr::InvalidInstructionData)));
    assert!(matches!(UniPinoNftInstruction::unpack(&[4, 0]), Err(UniPinoNftErr::InvalidInstructionData)));
}

#[test]
fn dispatcher_unknown_operation() {
    let mut a = accounts(2);
    assert_eq!(process_instruction(&env(), &mut a, &[9]).err(), Some(UniPinoNftErr::UnknownOperation));
    assert_eq!(process_instruction(&env(), &mut a, &[]).err(), Some(UniPinoNftErr::UnknownOperation));
}

#[test]
fn dispatcher_bad_arguments() {
    let mut a = accounts(2);
    assert_eq!(process_instruction(&env(), &mut a, &[1, 0]).err(), Some(UniPinoNftErr::InvalidInstructionData));
    assert_eq!(process_instruction(&env(), &mut a, &[3]).err(), Some(UniPinoNftErr::InvalidInstructionData));
}

#[test]
fn dispatcher_short_account_lists() {
    let mut a = accounts(1);
    assert_eq!(process_instruction(&env(), &mut a, &[0]).err(), Some(UniPinoNftErr::NotEnoughAccountKeys));
    let mut create = vec![2u8];
    create.extend_from_slice(&7u128.to_le_bytes());
    let mut a = accounts(2);
    assert_eq!(process_instruction(&env(), &mut a, &create).err(), Some(UniPinoNftErr::NotEnoughAccountKeys));
    let mut a = accounts(5);
    assert_eq!(process_instruction(&env(), &mut a, &[5]).err(), Some(UniPinoNftErr::NotEnoughAccountKeys));
}

#[test]
fn dispatcher_burn_needs_signer() {
    let mut a = accounts(6);
    a[0].is_signer = false;
    assert_eq!(process_instruction(&env(), &mut a, &[5]).err(), Some(UniPinoNftErr::Unauthorized));
}

#[test]
fn seeds_of_each_kind() {
    let seeds = platform_seeds_of(&[1; 32]);
    assert_eq!(seeds, vec![b"administer".to_vec(), vec![1; 32]]);
    let seeds = user_seeds_of(7, &[2; 32], 254);
    assert_eq!(seeds, vec![b"user_wallet".to_vec(), 7u128.to_le_bytes().to_vec(), vec![2; 32], vec![254]]);
    let signer = Signer::Platform { administrator: [1; 32], bump: 250 };
    assert_eq!(signer.seeds(), vec![b"administer".to_vec(), vec![1; 32], vec![250]]);
    let signer = Signer::Entry { user_uuid: 1, user: [3; 32], token_program: [4; 32], bump: 9 };
    let mut uuid = vec![0u8; 16];
    uuid[0] = 1;
    assert_eq!(signer.seeds(), vec![uuid, vec![3; 32], vec![4; 32], vec![9]]);
}

#[test]
fn derivation_repeats() {
    let seeds = platform_seeds_of(&[1; 32]);
    let first = derive_address(&seeds, &[90; 32]);
    let second = derive_address(&seeds, &[90; 32]);
    assert_eq!(first, second);
}

#[test]
fn error_codes_and_messages() {
    assert_eq!(UniPinoNftErr::InvalidSeeds.code(), 0);
    assert_eq!(UniPinoNftErr::InvalidInstructionData.code(), 11);
    assert_eq!(UniPinoNftErr::CounterOverflow.to_str(), "counter overflow");
    assert_eq!(UniPinoNftErr::InsufficientFunds.code(), 12);
}
