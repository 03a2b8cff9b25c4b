use vstd::prelude::*;
use crate::bidding::{marked_winner, BidBook};
use crate::bytes::{le_value, read_array32, read_le_u32, read_le_u64};
use crate::error::ShadowProtocolError;
use crate::state::{Address, AuctionAccount, AuctionStatus, BatchSettlement, BatchStatus, ComputationOutputs};

verus! {

/// The outcome of a sealed-bid computation as it is delivered: 32 bytes of winner, the
/// winning amount as 8 little-endian bytes, then an optional second price (a tag byte, 0 for
/// none or 1 followed by 8 little-endian bytes).
#[derive(Clone, Copy, Debug)]
pub struct AuctionResult {
    pub winner: Address,
    pub winning_amount: u64,
    pub second_price: Option<u64>,
}

/// A batch outcome as delivered: the number of results as 4 little-endian bytes, then each
/// result encoded as above.
#[derive(Clone, Debug)]
pub struct BatchResult {
    pub results: Vec<AuctionResult>,
}

/// Where the result encoded at `pos` ends, when one is encoded there.
pub open spec fn result_end(s: Seq<u8>, pos: int) -> Option<int> {
    if pos < 0 || pos + 41 > s.len() {
        None
    } else if s[pos + 40] == 0 {
        Some(pos + 41)
    } else if s[pos + 40] == 1 && pos + 49 <= s.len() {
        Some(pos + 49)
    } else {
        None
    }
}

/// `r` is the result encoded at `pos`.
pub open spec fn encodes_result(s: Seq<u8>, pos: int, r: AuctionResult) -> bool {
    &&& result_end(s, pos) is Some
    &&& r.winner.bytes@ == s.subrange(pos, pos + 32)
    &&& r.winning_amount == le_value(s.subrange(pos + 32, pos + 40))
    &&& if s[pos + 40] == 0 {
        r.second_price is None
    } else {
        r.second_price == Some(le_value(s.subrange(pos + 41, pos + 49)) as u64)
    }
}

/// Declared number of results of an encoded batch.
pub open spec fn batch_count(s: Seq<u8>) -> nat {
    le_value(s.subrange(0, 4))
}

/// Where the first `n` results of an encoded batch end, when they are all well formed.
pub open spec fn entries_end(s: Seq<u8>, n: nat) -> Option<int>
    decreases n,
{
    if n == 0 {
        Some(4)
    } else {
        match entries_end(s, (n - 1) as nat) {
            Some(p) => result_end(s, p),
            None => None,
        }
    }
}

/// `rs` are the first results encoded in a batch.
pub open spec fn encodes_entries(s: Seq<u8>, rs: Seq<AuctionResult>) -> bool
    decreases rs.len(),
{
    if rs.len() == 0 {
        true
    } else {
        &&& encodes_entries(s, rs.drop_last())
        &&& entries_end(s, (rs.len() - 1) as nat) is Some
        &&& encodes_result(s, entries_end(s, (rs.len() - 1) as nat)->Some_0, rs.last())
    }
}

/// `s` is exactly one encoded batch.
pub open spec fn is_encoded_batch(s: Seq<u8>) -> bool {
    s.len() >= 4 && entries_end(s, batch_count(s)) == Some(s.len() as int)
}

proof fn lemma_entries_end_stays_none(s: Seq<u8>, i: nat, n: nat)
    requires
        i <= n,
        entries_end(s, i) is None,
    ensures
        entries_end(s, n) is None,
    decreases n - i,
{
    if i < n {
        lemma_entries_end_stays_none(s, i, (n - 1) as nat);
    }
}

/// Decodes the result encoded at `pos`, returning it with the position just past it.
pub fn decode_auction_result_at(data: &Vec<u8>, pos: usize) -> (r: Option<(AuctionResult, usize)>)
    ensures
        r is None <==> result_end(data@, pos as int) is None,
        r is Some ==> encodes_result(data@, pos as int, r->Some_0.0) && result_end(data@, pos as int)
            == Some(r->Some_0.1 as int),
{
    let len = data.len();
    if pos > len || len - pos < 41 {
        return None;
    }
    let winner = Address::new(read_array32(data, pos));
    let winning_amount = read_le_u64(data, pos + 32);
    let tag = data[pos + 40];
    if tag == 0 {
        Some((AuctionResult { winner, winning_amount, second_price: None }, pos + 41))
    } else if tag == 1 && len - pos >= 49 {
        let second = read_le_u64(data, pos + 41);
        Some((AuctionResult { winner, winning_amount, second_price: Some(second) }, pos + 49))
    } else {
        None
    }
}

/// Decodes a buffer that holds exactly one encoded result.
pub fn decode_auction_result(data: &Vec<u8>) -> (r: Option<AuctionResult>)
    ensures
        r is None <==> result_end(data@, 0) != Some(data@.len() as int),
        r is Some ==> encodes_result(data@, 0, r->Some_0),
{
    match decode_auction_result_at(data, 0) {
        Some((result, end)) => {
            if end == data.len() {
                Some(result)
            } else {
                None
            }
        },
        None => None,
    }
}

/// Decodes a buffer that holds exactly one encoded batch.
pub fn decode_batch_result(data: &Vec<u8>) -> (r: Option<BatchResult>)
    ensures
        r is Some <==> is_encoded_batch(data@),
        r is Some ==> r->Some_0.results@.len() == batch_count(data@) && encodes_entries(
            data@,
            r->Some_0.results@,
        ),
{
    if data.len() < 4 {
        return None;
    }
    let count = read_le_u32(data, 0);
    let mut results: Vec<AuctionResult> = Vec::new();
    let mut pos: usize = 4;
    let mut i: u32 = 0;
    while i < count
        invariant
            data@.len() >= 4,
            count == batch_count(data@),
            i <= count,
            results@.len() == i,
            entries_end(data@, i as nat) == Some(pos as int),
            encodes_entries(data@, results@),
        decreases count - i,
    {
        match decode_auction_result_at(data, pos) {
            Some((result, end)) => {
                let ghost before = results@;
                results.push(result);
                assert(results@.drop_last() =~= before);
                pos = end;
            },
            None => {
                proof {
                    lemma_entries_end_stays_none(data@, (i + 1) as nat, count as nat);
                }
                return None;
            },
        }
        i = i + 1;
    }
    if pos == data.len() {
        Some(BatchResult { results })
    } else {
        None
    }
}

/// Applies a sealed-bid outcome to an auction that awaits it (status `Ended`): the auction is
/// settled at `now` with the delivered winner, who pays the second price when one is delivered
/// and the winning amount otherwise, and the winner's bid is flagged. An auction in any other
/// status gives `InvalidAuctionStatus`, a computation error `ComputationFailed`, and bytes that
/// do not hold exactly one result `DecryptionFailed`; these leave everything unchanged.
pub fn handle_sealed_bid_settlement(
    auction: &mut AuctionAccount,
    book: &mut BidBook,
    output: &ComputationOutputs,
    now: i64,
) -> (r: Result<(), ShadowProtocolError>)
    requires
        old(book).wf(),
    ensures
        final(book).wf(),
        old(auction).status != AuctionStatus::Ended ==> r == Err::<(), _>(ShadowProtocolError::InvalidAuctionStatus),
        old(auction).status == AuctionStatus::Ended && output is Error ==> r == Err::<(), _>(
            ShadowProtocolError::ComputationFailed,
        ),
        old(auction).status == AuctionStatus::Ended && output is Bytes && result_end(output->Bytes_0@, 0) != Some(
            output->Bytes_0@.len() as int,
        ) ==> r == Err::<(), _>(ShadowProtocolError::DecryptionFailed),
        r is Err ==> *final(auction) == *old(auction) && final(book)@ == old(book)@,
        old(auction).status == AuctionStatus::Ended && output is Bytes && result_end(output->Bytes_0@, 0) == Some(
            output->Bytes_0@.len() as int,
        ) ==> r is Ok,
        r is Ok ==> exists|result: AuctionResult|
            encodes_result(output->Bytes_0@, 0, result) && *final(auction) == (AuctionAccount {
                winner: Some(result.winner),
                winning_amount: match result.second_price {
                    Some(p) => p,
                    None => result.winning_amount,
                },
                status: AuctionStatus::Settled,
                settled_at: Some(now),
                ..*old(auction)
            }) && final(book)@ == marked_winner(old(book)@, old(auction).auction_id, result.winner),
{
    if auction.status != AuctionStatus::Ended {
        return Err(ShadowProtocolError::InvalidAuctionStatus);
    }
    match output {
        ComputationOutputs::Bytes(data) => {
            let result = match decode_auction_result(data) {
                Some(result) => result,
                None => return Err(ShadowProtocolError::DecryptionFailed),
            };
            auction.winner = Some(result.winner);
            auction.winning_amount = match result.second_price {
                Some(p) => p,
                None => result.winning_amount,
            };
            auction.status = AuctionStatus::Settled;
            auction.settled_at = Some(now);
            book.mark_winner(auction.auction_id, result.winner);
            Ok(())
        },
        ComputationOutputs::Error(_) => Err(ShadowProtocolError::ComputationFailed),
    }
}

/// Applies the hidden-reserve check of a Dutch auction that a bid has closed (status `Ended`).
/// When the first delivered byte is non-zero the reserve was met: the auction is settled at
/// `now` and `true` tells the caller to release the escrowed asset to the winner. Otherwise the
/// sale is forfeited: the auction is cancelled with no winner. An auction in any other status
/// gives `InvalidAuctionStatus` and a computation error `ComputationFailed`; neither changes
/// anything.
pub fn handle_dutch_auction_result(
    auction: &mut AuctionAccount,
    output: &ComputationOutputs,
    now: i64,
) -> (r: Result<bool, ShadowProtocolError>)
    ensures
        old(auction).status != AuctionStatus::Ended ==> r == Err::<bool, _>(ShadowProtocolError::InvalidAuctionStatus),
        old(auction).status == AuctionStatus::Ended && output is Error ==> r == Err::<bool, _>(
            ShadowProtocolError::ComputationFailed,
        ),
        r is Err ==> *final(auction) == *old(auction),
        old(auction).status == AuctionStatus::Ended && output is Bytes ==> r == Ok::<bool, ShadowProtocolError>(
            output->Bytes_0@.len() > 0 && output->Bytes_0@[0] != 0,
        ),
        r == Ok::<bool, ShadowProtocolError>(true) ==> *final(auction) == (AuctionAccount {
            status: AuctionStatus::Settled,
            settled_at: Some(now),
            ..*old(auction)
        }),
        r == Ok::<bool, ShadowProtocolError>(false) ==> *final(auction) == (AuctionAccount {
            status: AuctionStatus::Cancelled,
            winner: None,
            winning_amount: 0,
            ..*old(auction)
        }),
{
    if auction.status != AuctionStatus::Ended {
        return Err(ShadowProtocolError::InvalidAuctionStatus);
    }
    match output {
        ComputationOutputs::Bytes(data) => {
            let meets_reserve = data.len() > 0 && data[0] != 0;
            if meets_reserve {
                auction.status = AuctionStatus::Settled;
                auction.settled_at = Some(now);
            } else {
                auction.status = AuctionStatus::Cancelled;
                auction.winner = None;
                auction.winning_amount = 0;
            }
            Ok(meets_reserve)
        },
        ComputationOutputs::Error(_) => Err(ShadowProtocolError::ComputationFailed),
    }
}

/// Applies a batch outcome to a batch whose computation is under way (status `Settling`).
/// Well-formed results settle the batch at `now` and give the number of settled auctions;
/// malformed results give `BatchSettlementFailed` and change nothing; a computation error marks
/// the batch `Failed` and gives `BatchSettlementFailed`. A batch in any other status, `Failed`
/// included, is left as it is and gives `BatchSettlementFailed`.
pub fn handle_batch_settlement(
    batch: &mut BatchSettlement,
    output: &ComputationOutputs,
    now: i64,
) -> (r: Result<u64, ShadowProtocolError>)
    ensures
        old(batch).status != BatchStatus::Settling ==> r == Err::<u64, _>(ShadowProtocolError::BatchSettlementFailed)
            && *final(batch) == *old(batch),
        old(batch).status == BatchStatus::Settling && output is Error ==> r == Err::<u64, _>(
            ShadowProtocolError::BatchSettlementFailed,
        ) && *final(batch) == (BatchSettlement { status: BatchStatus::Failed, ..*old(batch) }),
        old(batch).status == BatchStatus::Settling && output is Bytes && !is_encoded_batch(output->Bytes_0@) ==> r
            == Err::<u64, _>(ShadowProtocolError::BatchSettlementFailed) && *final(batch) == *old(batch),
        old(batch).status == BatchStatus::Settling && output is Bytes && is_encoded_batch(output->Bytes_0@) ==> r == Ok::<u64, ShadowProtocolError>(
            batch_count(output->Bytes_0@) as u64,
        ) && *final(batch) == (BatchSettlement {
            status: BatchStatus::Settled,
            settled_at: Some(now),
            ..*old(batch)
        }),
{
    if batch.status != BatchStatus::Settling {
        return Err(ShadowProtocolError::BatchSettlementFailed);
    }
    match output {
        ComputationOutputs::Bytes(data) => {
            let results = match decode_batch_result(data) {
                Some(results) => results,
                None => return Err(ShadowProtocolError::BatchSettlementFailed),
            };
            let settled_count = results.results.len() as u64;
            batch.status = BatchStatus::Settled;
            batch.settled_at = Some(now);
            Ok(settled_count)
        },
        ComputationOutputs::Error(_) => {
            batch.status = BatchStatus::Failed;
            Err(ShadowProtocolError::BatchSettlementFailed)
        },
    }
}

} // verus!
