use solana_escrow_anchor::authority::find_escrow_authority;
use solana_escrow_anchor::escrow::{Escrow, RecordError};
use solana_escrow_anchor::identity::Identity;
use solana_escrow_anchor::initialize::{
    apply, initialize, prepare, EscrowAccount, EscrowError, HoldingAccount, Initialize,
    ReceivingAccount,
};

fn token_program() -> Identity {
    Identity::new(spl_token::id().to_bytes())
}

fn key(b: u8) -> Identity {
    Identity::new([b; 32])
}

fn program() -> Identity {
    Identity::new(
        anchor_lang::prelude::Pubkey::new_from_array([7u8; 32]).to_bytes(),
    )
}

/// Initializer A holds 500 units in H, wants 1000 units into R, storage E is fresh.
fn fresh_context() -> Initialize {
    Initialize {
        initializer: key(0xA),
        initializer_is_signer: true,
        initializer_lamports: 5_000_000,
        temp_token_account: HoldingAccount { key: key(0xB), authority: key(0xA), amount: 500 },
        token_to_receive_account: ReceivingAccount { key: key(0xC), owner: token_program() },
        escrow_account: EscrowAccount {
            key: key(0xE),
            lamports: 0,
            rent_exempt_minimum: 1_670_400,
            record: None,
        },
    }
}

fn same_state(a: &Initialize, b: &Initialize) -> bool {
    format!("{:?}", a) == format!("{:?}", b)
}

#[test]
fn scenario_initialize_1000() {
    let mut ctx = fresh_context();
    let r = initialize(&mut ctx, &program(), 1000, true);
    assert_eq!(r, Ok(()));
    let rec = ctx.escrow_account.record.expect("record stored");
    assert_eq!(rec.initializer_pubkey, key(0xA));
    assert_eq!(rec.temp_token_account_pubkey, key(0xB));
    assert_eq!(rec.initializer_token_to_receive_account_pubkey, key(0xC));
    assert_eq!(rec.expected_amount, 1000);
    let (pda, _) = find_escrow_authority(&program()).expect("authority");
    assert_eq!(ctx.temp_token_account.authority, pda);
    assert_ne!(ctx.temp_token_account.authority, key(0xA));
    assert_eq!(ctx.temp_token_account.amount, 500);
    assert_eq!(ctx.escrow_account.lamports, 1_670_400);
    assert_eq!(ctx.initializer_lamports, 5_000_000 - 1_670_400);
}

#[test]
fn authority_matches_program_address_search() {
    let pid = anchor_lang::prelude::Pubkey::new_from_array([7u8; 32]);
    let (expected, bump) = anchor_lang::prelude::Pubkey::find_program_address(&[b"escrow"], &pid);
    let (pda, b) = find_escrow_authority(&program()).expect("authority");
    assert_eq!(pda.bytes, expected.to_bytes());
    assert_eq!(b, bump);
    assert_ne!(pda, program());
}

#[test]
fn authority_is_deterministic() {
    let first = find_escrow_authority(&program()).expect("authority");
    let mut ctx = fresh_context();
    assert_eq!(initialize(&mut ctx, &program(), 1, true), Ok(()));
    let second = find_escrow_authority(&program()).expect("authority");
    assert_eq!(first.0, second.0);
    assert_eq!(first.1, second.1);
    let other = find_escrow_authority(&key(9)).expect("authority");
    assert_ne!(first.0, other.0);
}

#[test]
fn token_program_identity_is_accepted() {
    let mut ctx = fresh_context();
    ctx.token_to_receive_account.owner = Identity::new(anchor_spl::token::ID.to_bytes());
    assert_eq!(initialize(&mut ctx, &program(), 7, true), Ok(()));
}

#[test]
fn second_initialize_is_refused() {
    let mut ctx = fresh_context();
    assert_eq!(initialize(&mut ctx, &program(), 1000, true), Ok(()));
    let after_first = ctx;
    assert_eq!(initialize(&mut ctx, &program(), 42, true), Err(EscrowError::AlreadyInitialized));
    assert!(same_state(&ctx, &after_first));
    assert_eq!(ctx.escrow_account.record.unwrap().expected_amount, 1000);
}

#[test]
fn funded_storage_is_already_initialized() {
    let mut ctx = fresh_context();
    ctx.escrow_account.lamports = 1_670_400;
    let before = ctx;
    assert_eq!(initialize(&mut ctx, &program(), 1000, true), Err(EscrowError::AlreadyInitialized));
    assert!(same_state(&ctx, &before));
}

#[test]
fn wrong_receiving_owner_is_refused() {
    let mut ctx = fresh_context();
    ctx.token_to_receive_account.owner = key(0x11);
    let before = ctx;
    assert_eq!(
        initialize(&mut ctx, &program(), 1000, true),
        Err(EscrowError::InvalidReceivingAccount)
    );
    assert!(same_state(&ctx, &before));
    assert!(ctx.escrow_account.record.is_none());
}

#[test]
fn wrong_signer_is_unauthorized() {
    let mut ctx = fresh_context();
    ctx.temp_token_account.authority = key(0x22);
    let before = ctx;
    assert_eq!(initialize(&mut ctx, &program(), 1000, true), Err(EscrowError::Unauthorized));
    assert!(same_state(&ctx, &before));
    assert_eq!(ctx.temp_token_account.authority, key(0x22));
}

#[test]
fn missing_signature_is_unauthorized() {
    let mut ctx = fresh_context();
    ctx.initializer_is_signer = false;
    let before = ctx;
    assert_eq!(initialize(&mut ctx, &program(), 1000, true), Err(EscrowError::Unauthorized));
    assert!(same_state(&ctx, &before));
}

#[test]
fn rejected_delegation_rolls_back() {
    let mut ctx = fresh_context();
    let before = ctx;
    assert_eq!(
        initialize(&mut ctx, &program(), 1000, false),
        Err(EscrowError::CrossProgramCallFailed)
    );
    assert!(same_state(&ctx, &before));
    assert!(ctx.escrow_account.record.is_none());
    assert_eq!(ctx.temp_token_account.authority, key(0xA));
}

#[test]
fn unpaid_storage_fails_allocation() {
    let mut ctx = fresh_context();
    ctx.initializer_lamports = 1_670_399;
    let before = ctx;
    assert_eq!(initialize(&mut ctx, &program(), 1000, true), Err(EscrowError::AllocationFailed));
    assert!(same_state(&ctx, &before));
}

#[test]
fn exact_payment_suffices() {
    let mut ctx = fresh_context();
    ctx.escrow_account.lamports = 400;
    ctx.initializer_lamports = 1_670_000;
    assert_eq!(initialize(&mut ctx, &program(), 0, true), Ok(()));
    assert_eq!(ctx.initializer_lamports, 0);
    assert_eq!(ctx.escrow_account.lamports, 1_670_400);
}

#[test]
fn no_authority_is_refused() {
    let mut ctx = fresh_context();
    let before = ctx;
    assert_eq!(apply(&mut ctx, 1000, None, true), Err(EscrowError::NoProgramAddress));
    assert!(same_state(&ctx, &before));
}

#[test]
fn prepare_names_the_change_of_authority() {
    let ctx = fresh_context();
    let authority = find_escrow_authority(&program());
    let d = prepare(&ctx, authority).expect("accepted");
    assert_eq!(d.account, key(0xB));
    assert_eq!(d.current_authority, key(0xA));
    assert_eq!(d.new_authority, authority.unwrap().0);
}

#[test]
fn largest_amount_is_recorded() {
    let mut ctx = fresh_context();
    assert_eq!(initialize(&mut ctx, &program(), u64::MAX, true), Ok(()));
    assert_eq!(ctx.escrow_account.record.unwrap().expected_amount, u64::MAX);
}

#[test]
fn record_layout() {
    assert_eq!(Escrow::LEN, 112);
    let e = Escrow::new(key(1), key(2), key(3), 1000);
    let bytes = e.try_serialize();
    assert_eq!(bytes.len(), 112);
    let digest = anchor_lang::solana_program::hash::hash(b"account:Escrow").to_bytes();
    assert_eq!(&bytes[0..8], &digest[0..8]);
    assert_eq!(&bytes[8..40], &[1u8; 32][..]);
    assert_eq!(&bytes[40..72], &[2u8; 32][..]);
    assert_eq!(&bytes[72..104], &[3u8; 32][..]);
    assert_eq!(&bytes[104..112], &[232u8, 3, 0, 0, 0, 0, 0, 0][..]);
}

#[test]
fn record_round_trip() {
    let e = Escrow::new(key(0xA), key(0xB), key(0xC), 0x0102_0304_0506_0708);
    let back = Escrow::try_deserialize(&e.try_serialize()).expect("readable");
    assert_eq!(back.initializer_pubkey, key(0xA));
    assert_eq!(back.temp_token_account_pubkey, key(0xB));
    assert_eq!(back.initializer_token_to_receive_account_pubkey, key(0xC));
    assert_eq!(back.expected_amount, 0x0102_0304_0506_0708);
}

#[test]
fn record_format_errors() {
    let bytes = Escrow::new(key(1), key(2), key(3), 5).try_serialize();
    assert_eq!(Escrow::try_deserialize(&bytes[0..7]).unwrap_err(), RecordError::DiscriminatorNotFound);
    let mut wrong = bytes.clone();
    wrong[3] ^= 0xFF;
    assert_eq!(Escrow::try_deserialize(&wrong).unwrap_err(), RecordError::DiscriminatorMismatch);
    assert_eq!(Escrow::try_deserialize(&bytes[0..111]).unwrap_err(), RecordError::WrongSize);
    let mut longer = bytes.clone();
    longer.push(0);
    assert_eq!(Escrow::try_deserialize(&longer).unwrap_err(), RecordError::WrongSize);
}

#[test]
fn identity_comparison() {
    let mut a = [4u8; 32];
    assert!(key(4).same(&Identity::new(a)));
    a[31] = 5;
    assert!(!key(4).same(&Identity::new(a)));
}
