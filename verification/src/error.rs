//! The ways in which a claim is rejected.

use vstd::prelude::*;

verus! {

/// Why a claim was rejected. Every rejection is final for that ticket.
#[derive(Clone, Copy, Debug, PartialEq, Eq, Structural)]
pub enum EmissionsError {
    /// The current time is past the ticket's expiry.
    TicketExpired,
    /// A record for this beneficiary and nonce already exists.
    AlreadyClaimed,
    /// The preceding instruction does not vouch for this ticket: it is
    /// missing, belongs to another program, is malformed, or carries another
    /// signature, key or message.
    InvalidSignature,
}

} // verus!
