use vstd::prelude::*;
use crate::error::ShadowProtocolError;
use crate::state::{
    counter_step, Address, ProtocolState, AUTHORITY_TRANSFER_TIMELOCK, DEFAULT_PROTOCOL_FEE, MAX_PROTOCOL_FEE,
};

verus! {

/// Why completing a pending authority transfer is refused, if it is: the caller must be the
/// authority, a transfer must be pending, and its deadline must have been reached.
pub open spec fn complete_transfer_rejection(
    protocol: ProtocolState,
    signer: Address,
    now: i64,
) -> Option<ShadowProtocolError> {
    if signer != protocol.authority {
        Some(ShadowProtocolError::Unauthorized)
    } else if protocol.pending_authority is None || protocol.authority_transfer_timelock is None {
        Some(ShadowProtocolError::NoPendingAuthorityTransfer)
    } else if now < protocol.authority_transfer_timelock->Some_0 {
        Some(ShadowProtocolError::AuthorityTransferTimelockNotElapsed)
    } else {
        None
    }
}

/// The configuration once the pending authority has taken over.
pub open spec fn transfer_completed(protocol: ProtocolState) -> ProtocolState {
    ProtocolState {
        authority: protocol.pending_authority->Some_0,
        pending_authority: None,
        authority_transfer_timelock: None,
        ..protocol
    }
}

/// A fresh configuration: default fee, not paused, auction ids starting at 1, no transfer pending.
pub fn initialize_protocol(authority: Address, fee_recipient: Address) -> (r: ProtocolState)
    ensures
        r.wf(),
        r.authority == authority,
        r.protocol_fee == DEFAULT_PROTOCOL_FEE,
        r.fee_recipient == fee_recipient,
        !r.paused,
        r.next_auction_id == 1,
        r.pending_authority is None,
        r.authority_transfer_timelock is None,
{
    ProtocolState {
        authority,
        protocol_fee: DEFAULT_PROTOCOL_FEE,
        fee_recipient,
        paused: false,
        next_auction_id: 1,
        pending_authority: None,
        authority_transfer_timelock: None,
    }
}

/// Pauses or resumes the protocol; only the authority may.
pub fn set_pause_state(protocol: &mut ProtocolState, signer: Address, paused: bool) -> (r: Result<(), ShadowProtocolError>)
    ensures
        old(protocol).wf() ==> final(protocol).wf(),
        counter_step(*old(protocol), *final(protocol), None),
        signer != old(protocol).authority ==> r == Err::<(), _>(ShadowProtocolError::Unauthorized)
            && *final(protocol) == *old(protocol),
        signer == old(protocol).authority ==> r is Ok && *final(protocol) == (ProtocolState {
            paused,
            ..*old(protocol)
        }),
{
    if signer != protocol.authority {
        return Err(ShadowProtocolError::Unauthorized);
    }
    protocol.paused = paused;
    Ok(())
}

/// Sets the protocol fee; only the authority may, and the fee is capped at `MAX_PROTOCOL_FEE`.
pub fn update_protocol_fee(protocol: &mut ProtocolState, signer: Address, new_fee: u16) -> (r: Result<(), ShadowProtocolError>)
    ensures
        old(protocol).wf() ==> final(protocol).wf(),
        counter_step(*old(protocol), *final(protocol), None),
        signer != old(protocol).authority ==> r == Err::<(), _>(ShadowProtocolError::Unauthorized),
        signer == old(protocol).authority && new_fee > MAX_PROTOCOL_FEE ==> r == Err::<(), _>(
            ShadowProtocolError::InvalidProtocolFee,
        ),
        r is Err ==> *final(protocol) == *old(protocol),
        signer == old(protocol).authority && new_fee <= MAX_PROTOCOL_FEE ==> r is Ok && *final(protocol)
            == (ProtocolState { protocol_fee: new_fee, ..*old(protocol) }),
{
    if signer != protocol.authority {
        return Err(ShadowProtocolError::Unauthorized);
    }
    if new_fee > MAX_PROTOCOL_FEE {
        return Err(ShadowProtocolError::InvalidProtocolFee);
    }
    protocol.protocol_fee = new_fee;
    Ok(())
}

/// Sets where protocol fees go; only the authority may.
pub fn update_fee_recipient(protocol: &mut ProtocolState, signer: Address, new_recipient: Address) -> (r: Result<(), ShadowProtocolError>)
    ensures
        old(protocol).wf() ==> final(protocol).wf(),
        counter_step(*old(protocol), *final(protocol), None),
        signer != old(protocol).authority ==> r == Err::<(), _>(ShadowProtocolError::Unauthorized)
            && *final(protocol) == *old(protocol),
        signer == old(protocol).authority ==> r is Ok && *final(protocol) == (ProtocolState {
            fee_recipient: new_recipient,
            ..*old(protocol)
        }),
{
    if signer != protocol.authority {
        return Err(ShadowProtocolError::Unauthorized);
    }
    protocol.fee_recipient = new_recipient;
    Ok(())
}

/// First step of an authority transfer: records the new authority and the moment
/// (`now + AUTHORITY_TRANSFER_TIMELOCK`) from which the transfer may complete.
pub fn initiate_authority_transfer(
    protocol: &mut ProtocolState,
    signer: Address,
    new_authority: Address,
    now: i64,
) -> (r: Result<(), ShadowProtocolError>)
    ensures
        old(protocol).wf() ==> final(protocol).wf(),
        counter_step(*old(protocol), *final(protocol), None),
        signer != old(protocol).authority ==> r == Err::<(), _>(ShadowProtocolError::Unauthorized),
        signer == old(protocol).authority && old(protocol).pending_authority is Some ==> r == Err::<(), _>(
            ShadowProtocolError::AuthorityTransferPending,
        ),
        signer == old(protocol).authority && old(protocol).pending_authority is None && now
            + AUTHORITY_TRANSFER_TIMELOCK > i64::MAX ==> r == Err::<(), _>(ShadowProtocolError::InvalidTimestamp),
        r is Err ==> *final(protocol) == *old(protocol),
        signer == old(protocol).authority && old(protocol).pending_authority is None && now
            + AUTHORITY_TRANSFER_TIMELOCK <= i64::MAX ==> r is Ok && *final(protocol) == (ProtocolState {
            pending_authority: Some(new_authority),
            authority_transfer_timelock: Some((now + AUTHORITY_TRANSFER_TIMELOCK) as i64),
            ..*old(protocol)
        }),
{
    if signer != protocol.authority {
        return Err(ShadowProtocolError::Unauthorized);
    }
    if protocol.pending_authority.is_some() {
        return Err(ShadowProtocolError::AuthorityTransferPending);
    }
    let deadline = match now.checked_add(AUTHORITY_TRANSFER_TIMELOCK) {
        Some(d) => d,
        None => return Err(ShadowProtocolError::InvalidTimestamp),
    };
    protocol.pending_authority = Some(new_authority);
    protocol.authority_transfer_timelock = Some(deadline);
    Ok(())
}

/// Second step of an authority transfer: once the deadline is reached, the pending authority
/// takes over and the pending state is cleared.
pub fn complete_authority_transfer(protocol: &mut ProtocolState, signer: Address, now: i64) -> (r: Result<(), ShadowProtocolError>)
    ensures
        old(protocol).wf() ==> final(protocol).wf(),
        counter_step(*old(protocol), *final(protocol), None),
        (match complete_transfer_rejection(*old(protocol), signer, now) {
            Some(e) => r == Err::<(), _>(e) && *final(protocol) == *old(protocol),
            None => r is Ok && *final(protocol) == transfer_completed(*old(protocol)),
        }),
{
    if signer != protocol.authority {
        return Err(ShadowProtocolError::Unauthorized);
    }
    let new_authority = match protocol.pending_authority {
        Some(a) => a,
        None => return Err(ShadowProtocolError::NoPendingAuthorityTransfer),
    };
    let deadline = match protocol.authority_transfer_timelock {
        Some(d) => d,
        None => return Err(ShadowProtocolError::NoPendingAuthorityTransfer),
    };
    if now < deadline {
        return Err(ShadowProtocolError::AuthorityTransferTimelockNotElapsed);
    }
    protocol.authority = new_authority;
    protocol.pending_authority = None;
    protocol.authority_transfer_timelock = None;
    Ok(())
}

/// Drops a pending authority transfer.
pub fn cancel_authority_transfer(protocol: &mut ProtocolState, signer: Address) -> (r: Result<(), ShadowProtocolError>)
    ensures
        old(protocol).wf() ==> final(protocol).wf(),
        counter_step(*old(protocol), *final(protocol), None),
        signer != old(protocol).authority ==> r == Err::<(), _>(ShadowProtocolError::Unauthorized),
        signer == old(protocol).authority && old(protocol).pending_authority is None ==> r == Err::<(), _>(
            ShadowProtocolError::NoPendingAuthorityTransfer,
        ),
        r is Err ==> *final(protocol) == *old(protocol),
        signer == old(protocol).authority && old(protocol).pending_authority is Some ==> r is Ok && *final(protocol) == (ProtocolState { pending_authority: None, authority_transfer_timelock: None, ..*old(protocol) }),
{
    if signer != protocol.authority {
        return Err(ShadowProtocolError::Unauthorized);
    }
    if protocol.pending_authority.is_none() {
        return Err(ShadowProtocolError::NoPendingAuthorityTransfer);
    }
    protocol.pending_authority = None;
    protocol.authority_transfer_timelock = None;
    Ok(())
}

/// Hands the authority over at once, without the timelock.
pub fn transfer_authority(protocol: &mut ProtocolState, signer: Address, new_authority: Address) -> (r: Result<(), ShadowProtocolError>)
    ensures
        old(protocol).wf() ==> final(protocol).wf(),
        counter_step(*old(protocol), *final(protocol), None),
        signer != old(protocol).authority ==> r == Err::<(), _>(ShadowProtocolError::Unauthorized)
            && *final(protocol) == *old(protocol),
        signer == old(protocol).authority ==> r is Ok && *final(protocol) == (ProtocolState {
            authority: new_authority,
            ..*old(protocol)
        }),
{
    if signer != protocol.authority {
        return Err(ShadowProtocolError::Unauthorized);
    }
    protocol.authority = new_authority;
    Ok(())
}

/// A pending authority transfer cannot complete before its deadline; from the deadline on the
/// authority completes it, which hands over the authority and clears the pending state, after
/// which any further completion is refused whoever asks and whenever.
pub proof fn lemma_authority_transfer_completes_once(
    protocol: ProtocolState,
    now: i64,
    later_signer: Address,
    later_now: i64,
)
    requires
        protocol.pending_authority is Some,
        protocol.authority_transfer_timelock is Some,
    ensures
        now < protocol.authority_transfer_timelock->Some_0 ==> complete_transfer_rejection(
            protocol,
            protocol.authority,
            now,
        ) == Some(ShadowProtocolError::AuthorityTransferTimelockNotElapsed),
        now >= protocol.authority_transfer_timelock->Some_0 ==> complete_transfer_rejection(
            protocol,
            protocol.authority,
            now,
        ) is None,
        transfer_completed(protocol).authority == protocol.pending_authority->Some_0,
        transfer_completed(protocol).pending_authority is None,
        transfer_completed(protocol).authority_transfer_timelock is None,
        complete_transfer_rejection(transfer_completed(protocol), later_signer, later_now) is Some,
{
}

} // verus!
