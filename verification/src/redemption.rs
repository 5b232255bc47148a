//! Redemption of a ticket.
//!
//! A ticket names a beneficiary, an amount, a nonce and an expiry, and
//! carries the administrator's signature over its canonical message. It is
//! redeemed in this order, and the first check that fails ends the attempt
//! without any effect:
//!
//! 1. the ticket has not expired;
//! 2. the instruction before the claim is an Ed25519 verification of the
//!    ticket's signature, by the administrator's key, over the canonical
//!    message;
//! 3. no record exists yet for the beneficiary and the nonce: one is created;
//! 4. the payout from the vault to the beneficiary is authorised.

use crate::config::Config;
use crate::ed25519::well_formed;
use crate::error::EmissionsError;
use crate::introspection::{
    instruction_view, preceding_instruction, signed_by, verify_admin_signature,
    verify_companion_instruction, CompanionInstruction, InstructionsSysvar, ED25519_PROGRAM_ID,
};
use crate::ledger::{ClaimLedger, ClaimRecord};
use crate::ticket::{build_ticket_message, ticket_message, ticket_message_is_injective};
use vstd::prelude::*;

verus! {

/// What a claim is evaluated in: the configuration, the beneficiary, the
/// records of earlier claims, the instructions of the transaction, and the
/// time.
#[derive(Debug)]
pub struct Claim {
    /// The global configuration.
    pub config: Config,
    /// The beneficiary who claims.
    pub user: [u8; 32],
    /// The records of the tickets redeemed so far.
    pub claim_records: ClaimLedger,
    /// The account handed in as the instructions sysvar.
    pub instructions_sysvar: InstructionsSysvar,
    /// The current Unix time.
    pub unix_timestamp: i64,
}

/// The transfer that a successful claim authorises: `amount` units of the
/// configured token from the vault, under the vault's derived authority, to
/// the beneficiary.
#[derive(Clone, Copy, Debug, PartialEq, Eq)]
pub struct Payout {
    /// The program-derived address that signs for the vault.
    pub authority: [u8; 32],
    /// The bump seed of that address.
    pub authority_bump: u8,
    /// The mint of the token that is paid out.
    pub token_mint: [u8; 32],
    /// The beneficiary.
    pub recipient: [u8; 32],
    /// The number of units.
    pub amount: u64,
}

/// Whether the companion instruction vouches for the ticket: for the
/// administrator's key, the ticket's canonical message and its signature.
pub open spec fn ticket_is_signed(
    ctx: Claim,
    companion: Option<(Seq<u8>, Seq<u8>)>,
    amount: u64,
    nonce: u64,
    expiry: i64,
    signature: Seq<u8>,
) -> bool {
    signed_by(
        companion,
        ctx.config.admin_pubkey@,
        ticket_message(ctx.user@, amount, nonce, expiry),
        signature,
    )
}

/// The payout that redeeming a ticket authorises.
pub open spec fn payout_of(ctx: Claim, amount: u64) -> Payout {
    Payout {
        authority: ctx.config.vault_pda,
        authority_bump: ctx.config.vault_bump,
        token_mint: ctx.config.token_mint,
        recipient: ctx.user,
        amount,
    }
}

/// The record that redeeming a ticket creates.
pub open spec fn record_of(ctx: Claim, amount: u64, nonce: u64) -> ClaimRecord {
    ClaimRecord { user: ctx.user, nonce, amount, claimed_at: ctx.unix_timestamp }
}

/// What redeeming a ticket returns, given the instruction that precedes
/// the claim.
pub open spec fn redemption(
    ctx: Claim,
    companion: Option<(Seq<u8>, Seq<u8>)>,
    amount: u64,
    nonce: u64,
    expiry: i64,
    signature: Seq<u8>,
) -> Result<Payout, EmissionsError> {
    if ctx.unix_timestamp > expiry {
        Err(EmissionsError::TicketExpired)
    } else if !ticket_is_signed(ctx, companion, amount, nonce, expiry, signature) {
        Err(EmissionsError::InvalidSignature)
    } else if ctx.claim_records@.contains_key((ctx.user, nonce)) {
        Err(EmissionsError::AlreadyClaimed)
    } else {
        Ok(payout_of(ctx, amount))
    }
}

/// The records after redeeming a ticket: one more where the redemption
/// succeeds, the same otherwise.
pub open spec fn records_after(
    ctx: Claim,
    companion: Option<(Seq<u8>, Seq<u8>)>,
    amount: u64,
    nonce: u64,
    expiry: i64,
    signature: Seq<u8>,
) -> Map<([u8; 32], u64), ClaimRecord> {
    if redemption(ctx, companion, amount, nonce, expiry, signature) is Ok {
        ctx.claim_records@.insert((ctx.user, nonce), record_of(ctx, amount, nonce))
    } else {
        ctx.claim_records@
    }
}

/// Whether a claim changes nothing but, possibly, the records.
pub open spec fn same_setting(before: Claim, after: Claim) -> bool {
    &&& after.config == before.config
    &&& after.user == before.user
    &&& after.instructions_sysvar == before.instructions_sysvar
    &&& after.unix_timestamp == before.unix_timestamp
}

/// Creates the record of the ticket and authorises its payout, unless the
/// ticket was redeemed before.
fn record_and_authorize(ctx: &mut Claim, amount: u64, nonce: u64) -> (outcome: Result<
    Payout,
    EmissionsError,
>)
    ensures
        same_setting(*old(ctx), *final(ctx)),
        outcome == (if old(ctx).claim_records@.contains_key((old(ctx).user, nonce)) {
            Err(EmissionsError::AlreadyClaimed)
        } else {
            Ok(payout_of(*old(ctx), amount))
        }),
        final(ctx).claim_records@ == (if old(ctx).claim_records@.contains_key(
            (old(ctx).user, nonce),
        ) {
            old(ctx).claim_records@
        } else {
            old(ctx).claim_records@.insert(
                (old(ctx).user, nonce),
                record_of(*old(ctx), amount, nonce),
            )
        }),
{
    let record = ClaimRecord { user: ctx.user, nonce, amount, claimed_at: ctx.unix_timestamp };
    match ctx.claim_records.create(record) {
        Ok(()) => Ok(
            Payout {
                authority: ctx.config.vault_pda,
                authority_bump: ctx.config.vault_bump,
                token_mint: ctx.config.token_mint,
                recipient: ctx.user,
                amount,
            },
        ),
        Err(e) => Err(e),
    }
}

/// Redeems a ticket, given the instruction that precedes the claim in the
/// transaction (`None` where the claim comes first).
pub fn redeem(
    ctx: &mut Claim,
    companion: &Option<CompanionInstruction>,
    amount: u64,
    nonce: u64,
    expiry: i64,
    signature: [u8; 64],
) -> (outcome: Result<Payout, EmissionsError>)
    ensures
        outcome == redemption(
            *old(ctx),
            instruction_view(*companion),
            amount,
            nonce,
            expiry,
            signature@,
        ),
        final(ctx).claim_records@ == records_after(
            *old(ctx),
            instruction_view(*companion),
            amount,
            nonce,
            expiry,
            signature@,
        ),
        same_setting(*old(ctx), *final(ctx)),
        old(ctx).unix_timestamp > expiry ==> outcome matches Err(EmissionsError::TicketExpired),
{
    if ctx.unix_timestamp > expiry {
        return Err(EmissionsError::TicketExpired);
    }
    let message = build_ticket_message(&ctx.user, amount, nonce, expiry);
    match verify_companion_instruction(
        companion,
        &ctx.config.admin_pubkey,
        message.as_slice(),
        &signature,
    ) {
        Ok(()) => {},
        Err(e) => {
            return Err(e);
        },
    }
    record_and_authorize(ctx, amount, nonce)
}

/// Redeems a ticket: the instruction that precedes the claim is looked up
/// in the instructions sysvar.
pub fn claim(
    ctx: &mut Claim,
    amount: u64,
    nonce: u64,
    expiry: i64,
    signature: [u8; 64],
) -> (outcome: Result<Payout, EmissionsError>)
    ensures
        outcome == redemption(
            *old(ctx),
            preceding_instruction(
                old(ctx).instructions_sysvar.key@,
                old(ctx).instructions_sysvar.data@,
            ),
            amount,
            nonce,
            expiry,
            signature@,
        ),
        final(ctx).claim_records@ == records_after(
            *old(ctx),
            preceding_instruction(
                old(ctx).instructions_sysvar.key@,
                old(ctx).instructions_sysvar.data@,
            ),
            amount,
            nonce,
            expiry,
            signature@,
        ),
        same_setting(*old(ctx), *final(ctx)),
        old(ctx).unix_timestamp > expiry ==> outcome matches Err(EmissionsError::TicketExpired),
{
    if ctx.unix_timestamp > expiry {
        return Err(EmissionsError::TicketExpired);
    }
    let message = build_ticket_message(&ctx.user, amount, nonce, expiry);
    match verify_admin_signature(
        &ctx.instructions_sysvar,
        &ctx.config.admin_pubkey,
        message.as_slice(),
        &signature,
    ) {
        Ok(()) => {},
        Err(e) => {
            return Err(e);
        },
    }
    record_and_authorize(ctx, amount, nonce)
}

/// A valid ticket is redeemed exactly once. Where the ticket has not
/// expired, the companion instruction vouches for it, and no record exists
/// for its beneficiary and nonce, redeeming it succeeds and creates that
/// record; and redeeming the same ticket again, after that and before its
/// expiry, is rejected as already claimed.
pub proof fn redemption_is_single_use(
    ctx: Claim,
    later: Claim,
    companion: Option<(Seq<u8>, Seq<u8>)>,
    amount: u64,
    nonce: u64,
    expiry: i64,
    signature: Seq<u8>,
)
    requires
        ctx.unix_timestamp <= expiry,
        ticket_is_signed(ctx, companion, amount, nonce, expiry, signature),
        !ctx.claim_records@.contains_key((ctx.user, nonce)),
        later.config == ctx.config,
        later.user == ctx.user,
        later.claim_records@ == records_after(ctx, companion, amount, nonce, expiry, signature),
        later.unix_timestamp <= expiry,
    ensures
        redemption(ctx, companion, amount, nonce, expiry, signature) matches Ok(payout)
            && payout == payout_of(ctx, amount),
        later.claim_records@.contains_key((ctx.user, nonce)),
        later.claim_records@[(ctx.user, nonce)] == record_of(ctx, amount, nonce),
        redemption(later, companion, amount, nonce, expiry, signature) matches Err(
            EmissionsError::AlreadyClaimed,
        ),
{
}

/// A ticket whose record exists is not redeemed again: whatever else is
/// presented with its beneficiary and nonce, the attempt fails.
pub proof fn redeemed_ticket_stays_redeemed(
    ctx: Claim,
    companion: Option<(Seq<u8>, Seq<u8>)>,
    amount: u64,
    nonce: u64,
    expiry: i64,
    signature: Seq<u8>,
)
    requires
        ctx.claim_records@.contains_key((ctx.user, nonce)),
    ensures
        redemption(ctx, companion, amount, nonce, expiry, signature) is Err,
        records_after(ctx, companion, amount, nonce, expiry, signature) == ctx.claim_records@,
{
}

/// Records are permanent: redeeming a ticket neither removes nor changes a
/// record that exists, and creates at most the record of that ticket.
pub proof fn records_are_permanent(
    ctx: Claim,
    companion: Option<(Seq<u8>, Seq<u8>)>,
    amount: u64,
    nonce: u64,
    expiry: i64,
    signature: Seq<u8>,
    key: ([u8; 32], u64),
)
    ensures
        ctx.claim_records@.contains_key(key) ==> records_after(
            ctx,
            companion,
            amount,
            nonce,
            expiry,
            signature,
        ).contains_key(key),
        ctx.claim_records@.contains_key(key) ==> records_after(
            ctx,
            companion,
            amount,
            nonce,
            expiry,
            signature,
        )[key] == ctx.claim_records@[key],
        records_after(ctx, companion, amount, nonce, expiry, signature).contains_key(key)
            && !ctx.claim_records@.contains_key(key) ==> key == (ctx.user, nonce),
        records_after(ctx, companion, amount, nonce, expiry, signature).contains_key(key)
            && !ctx.claim_records@.contains_key(key) ==> redemption(
            ctx,
            companion,
            amount,
            nonce,
            expiry,
            signature,
        ) is Ok,
{
}

/// A ticket that expired is rejected as expired, whatever the companion
/// instruction holds and whatever was redeemed before.
pub proof fn expired_ticket_is_rejected(
    ctx: Claim,
    companion: Option<(Seq<u8>, Seq<u8>)>,
    amount: u64,
    nonce: u64,
    expiry: i64,
    signature: Seq<u8>,
)
    requires
        expiry < ctx.unix_timestamp,
    ensures
        redemption(ctx, companion, amount, nonce, expiry, signature) matches Err(
            EmissionsError::TicketExpired,
        ),
        records_after(ctx, companion, amount, nonce, expiry, signature) == ctx.claim_records@,
{
}

/// A signature covers one ticket. Where the companion instruction vouches
/// for a ticket, it vouches for no ticket that differs from it in amount,
/// nonce or expiry, and for none of another beneficiary.
pub proof fn signature_covers_one_ticket(
    ctx: Claim,
    other: Claim,
    companion: Option<(Seq<u8>, Seq<u8>)>,
    amount: u64,
    nonce: u64,
    expiry: i64,
    other_amount: u64,
    other_nonce: u64,
    other_expiry: i64,
    signature: Seq<u8>,
)
    requires
        ticket_is_signed(ctx, companion, amount, nonce, expiry, signature),
        other.config == ctx.config,
        other.user != ctx.user || other_amount != amount || other_nonce != nonce || other_expiry
            != expiry,
    ensures
        !ticket_is_signed(other, companion, other_amount, other_nonce, other_expiry, signature),
        other.unix_timestamp <= other_expiry ==> redemption(
            other,
            companion,
            other_amount,
            other_nonce,
            other_expiry,
            signature,
        ) matches Err(EmissionsError::InvalidSignature),
{
    if ticket_is_signed(other, companion, other_amount, other_nonce, other_expiry, signature) {
        ticket_message_is_injective(
            ctx.user@,
            amount,
            nonce,
            expiry,
            other.user@,
            other_amount,
            other_nonce,
            other_expiry,
        );
        assert(other.user =~= ctx.user);
    }
}

/// A ticket that has not expired is rejected for its signature where the
/// claim has no companion instruction, and where the companion instruction
/// is addressed to another program than the Ed25519 program.
pub proof fn foreign_companion_is_rejected(
    ctx: Claim,
    companion: Option<(Seq<u8>, Seq<u8>)>,
    amount: u64,
    nonce: u64,
    expiry: i64,
    signature: Seq<u8>,
)
    requires
        ctx.unix_timestamp <= expiry,
        companion matches Some((program_id, _)) ==> program_id != ED25519_PROGRAM_ID@,
    ensures
        redemption(ctx, companion, amount, nonce, expiry, signature) matches Err(
            EmissionsError::InvalidSignature,
        ),
        records_after(ctx, companion, amount, nonce, expiry, signature) == ctx.claim_records@,
{
}

/// A ticket that has not expired is rejected for its signature where the
/// companion instruction's payload is not well formed: where it is shorter
/// than a header, announces another number of signatures than one, or
/// places its signature, public key or message past its own end.
pub proof fn malformed_companion_is_rejected(
    ctx: Claim,
    program_id: Seq<u8>,
    data: Seq<u8>,
    amount: u64,
    nonce: u64,
    expiry: i64,
    signature: Seq<u8>,
)
    requires
        ctx.unix_timestamp <= expiry,
        !well_formed(data),
    ensures
        redemption(ctx, Some((program_id, data)), amount, nonce, expiry, signature) matches Err(
            EmissionsError::InvalidSignature,
        ),
        records_after(ctx, Some((program_id, data)), amount, nonce, expiry, signature)
            == ctx.claim_records@,
{
}

/// Tickets filed under different keys do not interfere. Where two tickets
/// differ in beneficiary or nonce, redeeming one first changes neither what
/// redeeming the other returns nor the records that both leave behind.
pub proof fn independent_tickets_commute(
    one: Claim,
    other: Claim,
    one_after_other: Claim,
    other_after_one: Claim,
    companion: Option<(Seq<u8>, Seq<u8>)>,
    amount: u64,
    nonce: u64,
    expiry: i64,
    signature: Seq<u8>,
    other_companion: Option<(Seq<u8>, Seq<u8>)>,
    other_amount: u64,
    other_nonce: u64,
    other_expiry: i64,
    other_signature: Seq<u8>,
)
    requires
        (one.user, nonce) != (other.user, other_nonce),
        other.claim_records@ == one.claim_records@,
        same_setting(one, one_after_other),
        same_setting(other, other_after_one),
        one_after_other.claim_records@ == records_after(
            other,
            other_companion,
            other_amount,
            other_nonce,
            other_expiry,
            other_signature,
        ),
        other_after_one.claim_records@ == records_after(
            one,
            companion,
            amount,
            nonce,
            expiry,
            signature,
        ),
    ensures
        redemption(one_after_other, companion, amount, nonce, expiry, signature) == redemption(
            one,
            companion,
            amount,
            nonce,
            expiry,
            signature,
        ),
        redemption(
            other_after_one,
            other_companion,
            other_amount,
            other_nonce,
            other_expiry,
            other_signature,
        ) == redemption(
            other,
            other_companion,
            other_amount,
            other_nonce,
            other_expiry,
            other_signature,
        ),
        records_after(one_after_other, companion, amount, nonce, expiry, signature)
            == records_after(
            other_after_one,
            other_companion,
            other_amount,
            other_nonce,
            other_expiry,
            other_signature,
        ),
{
    assert(records_after(one_after_other, companion, amount, nonce, expiry, signature)
        =~= records_after(
        other_after_one,
        other_companion,
        other_amount,
        other_nonce,
        other_expiry,
        other_signature,
    ));
}

} // verus!
