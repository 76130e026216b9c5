use vstd::prelude::*;
use crate::authority::{address_view, escrow_authority_of, find_escrow_authority};
use crate::escrow::Escrow;
use crate::identity::{token_program_id, token_program_key, Identity};

verus! {

/// Why creating an escrow was refused. Every refusal leaves all accounts as
/// they were.
#[derive(Clone, Copy, Debug, PartialEq, Eq, Structural)]
pub enum EscrowError {
    /// The record's storage account already holds a record or is already
    /// funded past the persistence threshold.
    AlreadyInitialized,
    /// The receiving account is not owned by the token program.
    InvalidReceivingAccount,
    /// The initializer did not sign, or is not the holding account's current
    /// authority.
    Unauthorized,
    /// The token program rejected the change of authority.
    CrossProgramCallFailed,
    /// The initializer cannot pay for the record's storage.
    AllocationFailed,
    /// No program address could be derived for the escrow authority.
    NoProgramAddress,
}

/// The token account whose contents are locked in the escrow.
#[derive(Clone, Copy, Debug)]
pub struct HoldingAccount {
    pub key: Identity,
    /// Who may move the funds or hand the account over.
    pub authority: Identity,
    /// The balance; creating an escrow never changes it.
    pub amount: u64,
}

/// The initializer's account for the counter-asset.
#[derive(Clone, Copy, Debug)]
pub struct ReceivingAccount {
    pub key: Identity,
    /// The program that owns the account.
    pub owner: Identity,
}

/// The storage account that is to hold the escrow record.
#[derive(Clone, Copy, Debug)]
pub struct EscrowAccount {
    pub key: Identity,
    pub lamports: u64,
    /// The balance at which the host keeps the account's data for good.
    pub rent_exempt_minimum: u64,
    pub record: Option<Escrow>,
}

/// The accounts that take part in creating one escrow, as the host presents
/// them.
#[derive(Clone, Copy, Debug)]
pub struct Initialize {
    pub initializer: Identity,
    pub initializer_is_signer: bool,
    /// The initializer's native balance, from which storage is paid.
    pub initializer_lamports: u64,
    pub temp_token_account: HoldingAccount,
    pub token_to_receive_account: ReceivingAccount,
    pub escrow_account: EscrowAccount,
}

/// The change of ownership that the token program is asked to make: the
/// account-owner authority of `account` passes from `current_authority` to
/// `new_authority`.
#[derive(Clone, Copy, Debug)]
pub struct SetAuthority {
    pub account: Identity,
    pub current_authority: Identity,
    pub new_authority: Identity,
}

/// A storage account is initialized once it holds a record or has reached
/// the persistence threshold.
pub open spec fn is_initialized(slot: EscrowAccount) -> bool {
    slot.record is Some || slot.lamports >= slot.rent_exempt_minimum
}

/// What the initializer pays to bring the storage account to the threshold.
pub open spec fn allocation_cost(slot: EscrowAccount) -> int {
    slot.rent_exempt_minimum - slot.lamports
}

/// The record that a successful creation stores.
pub open spec fn record_of(ctx: Initialize, amount: u64) -> Escrow {
    Escrow {
        initializer_pubkey: ctx.initializer,
        temp_token_account_pubkey: ctx.temp_token_account.key,
        initializer_token_to_receive_account_pubkey: ctx.token_to_receive_account.key,
        expected_amount: amount,
    }
}

/// The checks made before the token program is called, in their order.
pub open spec fn precheck(ctx: Initialize, authority: Option<(Identity, u8)>) -> Result<(), EscrowError> {
    if ctx.token_to_receive_account.owner@ != token_program_key() {
        Err(EscrowError::InvalidReceivingAccount)
    } else if is_initialized(ctx.escrow_account) {
        Err(EscrowError::AlreadyInitialized)
    } else if ctx.initializer_lamports < allocation_cost(ctx.escrow_account) {
        Err(EscrowError::AllocationFailed)
    } else if authority is None {
        Err(EscrowError::NoProgramAddress)
    } else if !ctx.initializer_is_signer || ctx.temp_token_account.authority@ != ctx.initializer@ {
        Err(EscrowError::Unauthorized)
    } else {
        Ok(())
    }
}

/// The outcome of a creation, given the derived authority and whether the
/// token program accepted the change of authority.
pub open spec fn outcome_of(
    ctx: Initialize,
    authority: Option<(Identity, u8)>,
    delegated: bool,
) -> Result<(), EscrowError> {
    match precheck(ctx, authority) {
        Err(e) => Err(e),
        Ok(()) => if delegated {
            Ok(())
        } else {
            Err(EscrowError::CrossProgramCallFailed)
        },
    }
}

/// The accounts after a successful creation: storage paid for and holding
/// the record, the holding account handed to `new_authority`.
pub open spec fn committed(ctx: Initialize, amount: u64, new_authority: Identity) -> Initialize {
    Initialize {
        initializer_lamports: (ctx.initializer_lamports - allocation_cost(ctx.escrow_account)) as u64,
        temp_token_account: HoldingAccount { authority: new_authority, ..ctx.temp_token_account },
        escrow_account: EscrowAccount {
            lamports: ctx.escrow_account.rent_exempt_minimum,
            record: Some(record_of(ctx, amount)),
            ..ctx.escrow_account
        },
        ..ctx
    }
}

/// The accounts after a creation attempt: all changes, or none.
pub open spec fn next_state(
    ctx: Initialize,
    amount: u64,
    authority: Option<(Identity, u8)>,
    delegated: bool,
) -> Initialize {
    if outcome_of(ctx, authority, delegated) is Ok {
        committed(ctx, amount, authority->Some_0.0)
    } else {
        ctx
    }
}

/// The checks made before the token program is called. On success, returns
/// the change of authority to ask of it.
pub fn prepare(ctx: &Initialize, authority: Option<(Identity, u8)>) -> (r: Result<SetAuthority, EscrowError>)
    ensures
        match r {
            Ok(d) => precheck(*ctx, authority) is Ok && d == (SetAuthority {
                account: ctx.temp_token_account.key,
                current_authority: ctx.initializer,
                new_authority: authority->Some_0.0,
            }),
            Err(e) => precheck(*ctx, authority) == Err::<(), EscrowError>(e),
        },
{
    let token_program = token_program_id();
    if !ctx.token_to_receive_account.owner.same(&token_program) {
        return Err(EscrowError::InvalidReceivingAccount);
    }
    let slot = &ctx.escrow_account;
    if slot.record.is_some() || slot.lamports >= slot.rent_exempt_minimum {
        return Err(EscrowError::AlreadyInitialized);
    }
    if ctx.initializer_lamports < slot.rent_exempt_minimum - slot.lamports {
        return Err(EscrowError::AllocationFailed);
    }
    match authority {
        None => Err(EscrowError::NoProgramAddress),
        Some((new_authority, _bump)) => {
            if !ctx.initializer_is_signer || !ctx.temp_token_account.authority.same(&ctx.initializer) {
                return Err(EscrowError::Unauthorized);
            }
            Ok(
                SetAuthority {
                    account: ctx.temp_token_account.key,
                    current_authority: ctx.initializer,
                    new_authority,
                },
            )
        },
    }
}

/// Completes a creation once the token program has answered: with
/// `delegated`, the record is stored, storage is paid for and the holding
/// account's authority is the derived one; otherwise nothing changes.
pub fn apply(ctx: &mut Initialize, amount: u64, authority: Option<(Identity, u8)>, delegated: bool) -> (r: Result<(), EscrowError>)
    ensures
        r == outcome_of(*old(ctx), authority, delegated),
        *final(ctx) == next_state(*old(ctx), amount, authority, delegated),
{
    match prepare(ctx, authority) {
        Err(e) => Err(e),
        Ok(d) => {
            if !delegated {
                return Err(EscrowError::CrossProgramCallFailed);
            }
            let cost = ctx.escrow_account.rent_exempt_minimum - ctx.escrow_account.lamports;
            ctx.initializer_lamports = ctx.initializer_lamports - cost;
            ctx.escrow_account.lamports = ctx.escrow_account.rent_exempt_minimum;
            ctx.escrow_account.record = Some(
                Escrow::new(
                    ctx.initializer,
                    ctx.temp_token_account.key,
                    ctx.token_to_receive_account.key,
                    amount,
                ),
            );
            ctx.temp_token_account.authority = d.new_authority;
            Ok(())
        },
    }
}

/// Creates an escrow of `amount` for the program `program_id`: derives the
/// program authority, checks the accounts, and commits the record together
/// with the change of authority, which the token program accepted when
/// `delegated` holds.
pub fn initialize(ctx: &mut Initialize, program_id: &Identity, amount: u64, delegated: bool) -> (r: Result<(), EscrowError>)
    ensures
        exists|a: Option<(Identity, u8)>|
            #[trigger] address_view(a) == escrow_authority_of(program_id@)
            && r == outcome_of(*old(ctx), a, delegated)
            && *final(ctx) == next_state(*old(ctx), amount, a, delegated),
{
    let authority = find_escrow_authority(program_id);
    apply(ctx, amount, authority, delegated)
}

/// Atomicity: after any attempt, either the record is stored and the holding
/// account belongs to the derived authority, or no account has changed.
pub proof fn lemma_all_or_nothing(
    ctx: Initialize,
    amount: u64,
    authority: Option<(Identity, u8)>,
    delegated: bool,
)
    ensures
        ({
            let after = next_state(ctx, amount, authority, delegated);
            ||| outcome_of(ctx, authority, delegated) is Ok
                && authority is Some
                && after.escrow_account.record == Some(record_of(ctx, amount))
                && after.temp_token_account.authority == authority->Some_0.0
            ||| outcome_of(ctx, authority, delegated) is Err && after == ctx
        }),
{
}

/// No re-initialization: once a creation has succeeded, a second attempt on
/// the same storage account, with the token program's ownership of the
/// receiving account intact, is refused as already initialized and changes
/// nothing.
pub proof fn lemma_no_reinit(
    ctx: Initialize,
    amount: u64,
    authority: Option<(Identity, u8)>,
    delegated: bool,
    second: Initialize,
    second_amount: u64,
    second_authority: Option<(Identity, u8)>,
    second_delegated: bool,
)
    requires
        outcome_of(ctx, authority, delegated) is Ok,
        second.escrow_account == next_state(ctx, amount, authority, delegated).escrow_account,
        second.token_to_receive_account.owner@ == token_program_key(),
    ensures
        outcome_of(second, second_authority, second_delegated) == Err::<(), EscrowError>(
            EscrowError::AlreadyInitialized,
        ),
        next_state(second, second_amount, second_authority, second_delegated) == second,
        second.escrow_account.record == Some(record_of(ctx, amount)),
{
}

/// Field fidelity: a successful creation stores exactly the initializer, the
/// holding account, the receiving account and the amount it was given, and
/// leaves the holding account's balance alone.
pub proof fn lemma_field_fidelity(
    ctx: Initialize,
    amount: u64,
    authority: Option<(Identity, u8)>,
    delegated: bool,
)
    requires
        outcome_of(ctx, authority, delegated) is Ok,
    ensures
        ({
            let after = next_state(ctx, amount, authority, delegated);
            &&& after.escrow_account.record matches Some(rec)
            &&& rec.initializer_pubkey == ctx.initializer
            &&& rec.temp_token_account_pubkey == ctx.temp_token_account.key
            &&& rec.initializer_token_to_receive_account_pubkey == ctx.token_to_receive_account.key
            &&& rec.expected_amount == amount
            &&& after.temp_token_account.amount == ctx.temp_token_account.amount
        }),
{
}

/// A receiving account that the token program does not own is refused, and
/// no record is created.
pub proof fn lemma_wrong_receiving_owner(
    ctx: Initialize,
    amount: u64,
    authority: Option<(Identity, u8)>,
    delegated: bool,
)
    requires
        ctx.token_to_receive_account.owner@ != token_program_key(),
    ensures
        outcome_of(ctx, authority, delegated) == Err::<(), EscrowError>(
            EscrowError::InvalidReceivingAccount,
        ),
        next_state(ctx, amount, authority, delegated) == ctx,
{
}

/// A signer that is not the holding account's current authority is refused
/// as unauthorized, and the holding account keeps its authority. The checks
/// that come first (receiving account, storage, payment, derivation) are
/// taken to pass.
pub proof fn lemma_unauthorized(
    ctx: Initialize,
    amount: u64,
    authority: Option<(Identity, u8)>,
    delegated: bool,
)
    requires
        ctx.token_to_receive_account.owner@ == token_program_key(),
        !is_initialized(ctx.escrow_account),
        ctx.initializer_lamports >= allocation_cost(ctx.escrow_account),
        authority is Some,
        !ctx.initializer_is_signer || ctx.temp_token_account.authority@ != ctx.initializer@,
    ensures
        outcome_of(ctx, authority, delegated) == Err::<(), EscrowError>(EscrowError::Unauthorized),
        next_state(ctx, amount, authority, delegated).temp_token_account.authority
            == ctx.temp_token_account.authority,
{
}

} // verus!
