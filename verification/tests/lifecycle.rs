use un_account::CheckedAccount;
use un_account::CloseDynamicPda;
use un_account::CloseNormalPdaInvalid;
use un_account::CreateDynamicPda;
use un_account::DynamicPdaAccount;
use un_account::ErrorCode;
use un_account::GetPdaInfo;
use un_account::Initialize;
use un_account::RawAccountHandle;
use un_account::bind_checked;
use un_account::close_dynamic_pda;
use un_account::close_normal_pda_invalid;
use un_account::create_dynamic_pda;
use un_account::encode_record;
use un_account::get_pda_info;
use un_account::initialize;
use un_account::zeroed;
use un_account::MAX_DATA_LEN;
use un_account::RECORD_SPACE;

const PROGRAM_ID: [u8; 32] = [7u8; 32];
const USER: [u8; 32] = [9u8; 32];

fn create_account(seed: &[u8], data: &[u8], lamports: u64) -> CheckedAccount {
    let ctx = CreateDynamicPda { user: USER };
    create_dynamic_pda(&ctx, &PROGRAM_ID, seed.to_vec(), data.to_vec(), lamports)
        .expect("creation should succeed for a valid seed")
}

#[test]
fn derive_is_deterministic() {
    let seed = b"alpha".to_vec();
    let first = un_account::derivation::derive(&PROGRAM_ID, &seed).unwrap();
    let second = un_account::derivation::derive(&PROGRAM_ID, &seed).unwrap();
    assert_eq!(first.0, second.0);
    assert_eq!(first.1, second.1);
}

#[test]
fn derive_matches_environment_primitive() {
    let seed = b"alpha".to_vec();
    let (address, bump) = un_account::derivation::derive(&PROGRAM_ID, &seed).unwrap();
    let pid = solana_program::pubkey::Pubkey::new_from_array(PROGRAM_ID);
    let (expected, expected_bump) =
        solana_program::pubkey::Pubkey::find_program_address(&[b"dynamic_pda", b"alpha"], &pid);
    assert_eq!(address, expected.to_bytes());
    assert_eq!(bump, expected_bump);
}

#[test]
fn derive_separates_seeds() {
    let a = un_account::derivation::derive(&PROGRAM_ID, &b"alpha".to_vec()).unwrap().0;
    let b = un_account::derivation::derive(&PROGRAM_ID, &b"beta".to_vec()).unwrap().0;
    assert_ne!(a, b);
    assert_ne!(a, PROGRAM_ID);
}

#[test]
fn derive_rejects_long_seed() {
    let seed = vec![1u8; 33];
    assert_eq!(un_account::derivation::derive(&PROGRAM_ID, &seed), Err(ErrorCode::SeedTooLong));
    let seed = vec![1u8; 32];
    assert!(un_account::derivation::derive(&PROGRAM_ID, &seed).is_ok());
}

#[test]
fn initialize_succeeds() {
    assert_eq!(initialize(&Initialize {}), Ok(()));
}

#[test]
fn create_binds_record_and_address() {
    let acc = create_account(b"alpha", b"hello", 1000);
    let (address, _bump) = un_account::derivation::derive(&PROGRAM_ID, &b"alpha".to_vec()).unwrap();
    assert_eq!(acc.address, address);
    assert_eq!(acc.lamports, 1000);
    assert_eq!(acc.record.seed, b"alpha".to_vec());
    assert_eq!(acc.record.data, b"hello".to_vec());
    assert_eq!(acc.record.authority, USER);
}

#[test]
fn get_pda_info_reports_fields() {
    let acc = create_account(b"alpha", b"hello", 0);
    let ctx = GetPdaInfo { pda_account: acc };
    let (seed, data, authority) = get_pda_info(&ctx);
    assert_eq!(seed, &b"alpha".to_vec());
    assert_eq!(data, &b"hello".to_vec());
    assert_eq!(authority, &USER);
}

#[test]
fn close_conserves_balance() {
    let acc = create_account(b"alpha", b"hello", 250);
    let receiver = RawAccountHandle { address: [3u8; 32], lamports: 1000, data: Vec::new() };
    let mut ctx = CloseDynamicPda { pda_account: acc.into_raw(), receiver };
    let r = close_dynamic_pda(&mut ctx, &PROGRAM_ID, &b"alpha".to_vec());
    assert_eq!(r, Ok(()));
    assert_eq!(ctx.pda_account.lamports, 0);
    assert_eq!(ctx.receiver.lamports, 1250);
}

#[test]
fn close_zeroes_all_bytes() {
    let acc = create_account(b"alpha", b"hello", 250);
    let raw = acc.into_raw();
    let len_before = raw.data.len();
    assert!(raw.data.iter().any(|b| *b != 0));
    let receiver = RawAccountHandle { address: [3u8; 32], lamports: 0, data: Vec::new() };
    let mut ctx = CloseDynamicPda { pda_account: raw, receiver };
    let r = close_dynamic_pda(&mut ctx, &PROGRAM_ID, &b"alpha".to_vec());
    assert_eq!(r, Ok(()));
    assert_eq!(ctx.pda_account.data.len(), len_before);
    assert!(ctx.pda_account.data.iter().all(|b| *b == 0));
    assert_eq!(ctx.pda_account.data, zeroed(len_before));
}

#[test]
fn close_with_mismatched_seed_mutates_nothing() {
    let acc = create_account(b"beta", b"live", 400);
    let raw = acc.into_raw();
    let bytes_before = raw.data.clone();
    let receiver = RawAccountHandle { address: [3u8; 32], lamports: 50, data: Vec::new() };
    let mut ctx = CloseDynamicPda { pda_account: raw, receiver };
    let r = close_dynamic_pda(&mut ctx, &PROGRAM_ID, &b"wrong".to_vec());
    assert_eq!(r, Err(ErrorCode::InvalidPdaAddress));
    assert_eq!(ctx.pda_account.lamports, 400);
    assert_eq!(ctx.pda_account.data, bytes_before);
    assert_eq!(ctx.receiver.lamports, 50);
}

#[test]
fn close_rejects_overflowing_drain() {
    let acc = create_account(b"alpha", b"hello", 2);
    let receiver = RawAccountHandle { address: [3u8; 32], lamports: u64::MAX - 1, data: Vec::new() };
    let mut ctx = CloseDynamicPda { pda_account: acc.into_raw(), receiver };
    let r = close_dynamic_pda(&mut ctx, &PROGRAM_ID, &b"alpha".to_vec());
    assert_eq!(r, Err(ErrorCode::ArithmeticOverflow));
    assert_eq!(ctx.pda_account.lamports, 2);
    assert_eq!(ctx.receiver.lamports, u64::MAX - 1);
}

#[test]
fn full_lifecycle_scenario() {
    // Create an account from seed "alpha" with payload "hello".
    let acc = create_account(b"alpha", b"hello", 777);
    let (address, _bump) = un_account::derivation::derive(&PROGRAM_ID, &b"alpha".to_vec()).unwrap();
    assert_eq!(acc.address, address);
    assert_eq!(acc.record.data, b"hello".to_vec());
    assert_eq!(acc.record.authority, USER);

    // Close it dynamically with the same seed: the receiver gains the
    // account's whole prior balance and the bytes become all zero.
    let receiver = RawAccountHandle { address: [3u8; 32], lamports: 1000, data: Vec::new() };
    let mut ctx = CloseDynamicPda { pda_account: acc.into_raw(), receiver };
    assert_eq!(close_dynamic_pda(&mut ctx, &PROGRAM_ID, &b"alpha".to_vec()), Ok(()));
    assert_eq!(ctx.receiver.lamports, 1777);
    assert_eq!(ctx.pda_account.lamports, 0);
    assert!(ctx.pda_account.data.iter().all(|b| *b == 0));

    // A closure attempt with a wrong seed against a different, still-live
    // account fails and mutates nothing.
    let other = create_account(b"gamma", b"live", 123);
    let other_raw = other.into_raw();
    let other_bytes = other_raw.data.clone();
    let receiver2 = RawAccountHandle { address: [3u8; 32], lamports: 1, data: Vec::new() };
    let mut ctx2 = CloseDynamicPda { pda_account: other_raw, receiver: receiver2 };
    assert_eq!(
        close_dynamic_pda(&mut ctx2, &PROGRAM_ID, &b"wrong".to_vec()),
        Err(ErrorCode::InvalidPdaAddress)
    );
    assert_eq!(ctx2.pda_account.lamports, 123);
    assert_eq!(ctx2.pda_account.data, other_bytes);
    assert_eq!(ctx2.receiver.lamports, 1);
}

#[test]
fn static_close_always_refused() {
    let acc = create_account(b"alpha", b"hello", 900);
    let receiver = RawAccountHandle { address: [3u8; 32], lamports: 10, data: Vec::new() };
    let mut ctx = CloseNormalPdaInvalid { pda_account: acc, receiver };
    let r = close_normal_pda_invalid(&mut ctx, &b"alpha".to_vec());
    assert_eq!(r, Err(ErrorCode::DirectMutationForbidden));
    assert_eq!(ctx.pda_account.lamports, 900);
    assert_eq!(ctx.pda_account.record.data, b"hello".to_vec());
    assert_eq!(ctx.receiver.lamports, 10);
}

#[test]
fn bind_checked_validates_address() {
    let record = DynamicPdaAccount {
        seed: b"alpha".to_vec(),
        data: b"hello".to_vec(),
        authority: USER,
    };
    let (address, _bump) = un_account::derivation::derive(&PROGRAM_ID, &b"alpha".to_vec()).unwrap();
    let bound = bind_checked(&PROGRAM_ID, address, 5, record.clone()).unwrap();
    assert_eq!(bound.address, address);
    assert_eq!(bound.lamports, 5);
    assert_eq!(bound.record.seed, b"alpha".to_vec());

    let r = bind_checked(&PROGRAM_ID, [8u8; 32], 5, record);
    assert_eq!(r.unwrap_err(), ErrorCode::InvalidPdaAddress);
}

#[test]
fn record_image_layout_is_exact() {
    let record = DynamicPdaAccount {
        seed: vec![1, 2],
        data: vec![3],
        authority: [5u8; 32],
    };
    let image = encode_record(&record);
    let mut expected = vec![2u8, 1, 2, 1, 3];
    expected.extend_from_slice(&[5u8; 32]);
    assert_eq!(image, expected);
}

#[test]
fn record_space_covers_largest_record() {
    assert_eq!(RECORD_SPACE, 174);
    let record = DynamicPdaAccount {
        seed: vec![0u8; 32],
        data: vec![0u8; MAX_DATA_LEN],
        authority: [0u8; 32],
    };
    let image = encode_record(&record);
    assert_eq!(image.len() + 8, RECORD_SPACE);
}

#[test]
fn record_image_round_trips() {
    let record = DynamicPdaAccount {
        seed: b"alpha".to_vec(),
        data: b"hello".to_vec(),
        authority: USER,
    };
    let image = encode_record(&record);
    let back = un_account::decode_record(&image).expect("a record image should decode");
    assert_eq!(back.seed, record.seed);
    assert_eq!(back.data, record.data);
    assert_eq!(back.authority, record.authority);
}

#[test]
fn decode_rejects_malformed_bytes() {
    assert!(un_account::decode_record(&Vec::new()).is_none());
    // A seed length over the bound.
    let mut image = vec![33u8];
    image.extend_from_slice(&[0u8; 80]);
    assert!(un_account::decode_record(&image).is_none());
    // A total length that does not match the declared lengths.
    let image = vec![0u8; 40];
    assert!(un_account::decode_record(&image).is_none());
}

#[test]
fn static_mutators_always_refused() {
    let mut acc = create_account(b"alpha", b"hello", 900);
    assert_eq!(acc.try_set_lamports(0), Err(ErrorCode::DirectMutationForbidden));
    assert_eq!(acc.try_wipe_data(), Err(ErrorCode::DirectMutationForbidden));
    assert_eq!(acc.lamports, 900);
    assert_eq!(acc.record.data, b"hello".to_vec());
}
