use vstd::prelude::*;

verus! {

/// A bid takes part in winner determination when it meets both the minimum bid and the reserve.
pub open spec fn qualifies(amount: int, minimum_bid: int, reserve_price: int) -> bool {
    amount >= minimum_bid && amount >= reserve_price
}

/// Outcome of one pass over the bids: the winning bid's position and amount, and the best
/// qualifying amount among the other bids.
#[derive(Clone, Copy, Debug)]
pub struct Ranking {
    pub winner_index: usize,
    pub highest: u128,
    pub second_highest: Option<u128>,
}

/// `r` ranks the first `n` of `amounts`: `None` when none of them qualifies; otherwise the
/// earliest of the highest qualifying bids wins, and `second_highest` is the highest qualifying
/// amount among the others (`None` when the winner is the only qualifying bid).
pub open spec fn ranks_prefix(
    amounts: Seq<u128>,
    minimum_bid: u128,
    reserve_price: u128,
    n: int,
    r: Option<Ranking>,
) -> bool {
    match r {
        None => forall|j: int| 0 <= j < n ==> !qualifies(amounts[j] as int, minimum_bid as int, reserve_price as int),
        Some(k) => {
            let w = k.winner_index as int;
            &&& 0 <= w < n
            &&& qualifies(amounts[w] as int, minimum_bid as int, reserve_price as int)
            &&& k.highest == amounts[w]
            &&& forall|j: int|
                0 <= j < n && qualifies(amounts[j] as int, minimum_bid as int, reserve_price as int)
                    ==> amounts[j] <= k.highest
            &&& forall|j: int|
                0 <= j < w && qualifies(amounts[j] as int, minimum_bid as int, reserve_price as int)
                    ==> amounts[j] < k.highest
            &&& match k.second_highest {
                None => forall|j: int|
                    0 <= j < n && j != w ==> !qualifies(
                        amounts[j] as int,
                        minimum_bid as int,
                        reserve_price as int,
                    ),
                Some(s) => {
                    &&& exists|j: int|
                        0 <= j < n && j != w && qualifies(
                            amounts[j] as int,
                            minimum_bid as int,
                            reserve_price as int,
                        ) && amounts[j] == s
                    &&& forall|j: int|
                        0 <= j < n && j != w && qualifies(
                            amounts[j] as int,
                            minimum_bid as int,
                            reserve_price as int,
                        ) ==> amounts[j] <= s
                },
            }
        },
    }
}

pub open spec fn ranks(amounts: Seq<u128>, minimum_bid: u128, reserve_price: u128, r: Option<Ranking>) -> bool {
    ranks_prefix(amounts, minimum_bid, reserve_price, amounts.len() as int, r)
}

/// `v` is the highest qualifying amount.
pub open spec fn is_highest_qualifying(amounts: Seq<u128>, minimum_bid: u128, reserve_price: u128, v: int) -> bool {
    &&& exists|i: int|
        0 <= i < amounts.len() && qualifies(amounts[i] as int, minimum_bid as int, reserve_price as int)
            && amounts[i] == v
    &&& forall|i: int|
        0 <= i < amounts.len() && qualifies(amounts[i] as int, minimum_bid as int, reserve_price as int)
            ==> amounts[i] <= v
}

/// `v` is the second-highest qualifying amount: with one highest qualifying bid set aside,
/// the highest of the remaining qualifying ones (equal to the highest when two bids tie).
pub open spec fn is_second_highest_qualifying(
    amounts: Seq<u128>,
    minimum_bid: u128,
    reserve_price: u128,
    v: int,
) -> bool {
    exists|w: int|
        0 <= w < amounts.len() && qualifies(amounts[w] as int, minimum_bid as int, reserve_price as int)
            && is_highest_qualifying(amounts, minimum_bid, reserve_price, amounts[w] as int) && (exists|j: int|
            0 <= j < amounts.len() && j != w && qualifies(
                amounts[j] as int,
                minimum_bid as int,
                reserve_price as int,
            ) && amounts[j] == v) && (forall|j: int|
            0 <= j < amounts.len() && j != w && qualifies(
                amounts[j] as int,
                minimum_bid as int,
                reserve_price as int,
            ) ==> amounts[j] <= v)
}

/// Position `w` holds the winning bid: it qualifies, no qualifying bid is higher, and every
/// earlier qualifying bid is lower (ties go to the bid seen first).
pub open spec fn is_winner_at(amounts: Seq<u128>, minimum_bid: u128, reserve_price: u128, w: int) -> bool {
    &&& 0 <= w < amounts.len()
    &&& qualifies(amounts[w] as int, minimum_bid as int, reserve_price as int)
    &&& is_highest_qualifying(amounts, minimum_bid, reserve_price, amounts[w] as int)
    &&& forall|j: int|
        0 <= j < w && qualifies(amounts[j] as int, minimum_bid as int, reserve_price as int)
            ==> amounts[j] < amounts[w]
}

/// At least two different bids qualify.
pub open spec fn two_qualify(amounts: Seq<u128>, minimum_bid: u128, reserve_price: u128) -> bool {
    exists|i: int, j: int|
        0 <= i < amounts.len() && 0 <= j < amounts.len() && i != j && qualifies(
            amounts[i] as int,
            minimum_bid as int,
            reserve_price as int,
        ) && qualifies(amounts[j] as int, minimum_bid as int, reserve_price as int)
}

pub open spec fn none_qualify(amounts: Seq<u128>, minimum_bid: u128, reserve_price: u128) -> bool {
    forall|i: int| 0 <= i < amounts.len() ==> !qualifies(amounts[i] as int, minimum_bid as int, reserve_price as int)
}

/// The price a sealed-bid auction settles at: the highest qualifying bid in first-price mode;
/// in second-price mode the second-highest qualifying bid when at least two bids qualify, and
/// otherwise the reserve price.
pub proof fn lemma_ranking_prices(
    amounts: Seq<u128>,
    minimum_bid: u128,
    reserve_price: u128,
    r: Option<Ranking>,
)
    requires
        ranks(amounts, minimum_bid, reserve_price, r),
    ensures
        r is None <==> none_qualify(amounts, minimum_bid, reserve_price),
        r is None ==> !two_qualify(amounts, minimum_bid, reserve_price),
        r is Some ==> is_highest_qualifying(amounts, minimum_bid, reserve_price, r->Some_0.highest as int),
        r is Some ==> is_winner_at(amounts, minimum_bid, reserve_price, r->Some_0.winner_index as int),
        r is Some ==> (r->Some_0.second_highest is Some <==> two_qualify(amounts, minimum_bid, reserve_price)),
        r is Some && r->Some_0.second_highest is Some ==> is_second_highest_qualifying(
            amounts,
            minimum_bid,
            reserve_price,
            r->Some_0.second_highest->Some_0 as int,
        ),
{
    if let Some(k) = r {
        let w = k.winner_index as int;
        assert(qualifies(amounts[w] as int, minimum_bid as int, reserve_price as int));
        assert(!none_qualify(amounts, minimum_bid, reserve_price));
        assert(is_highest_qualifying(amounts, minimum_bid, reserve_price, k.highest as int));
        if two_qualify(amounts, minimum_bid, reserve_price) {
            let (i, j) = choose|i: int, j: int|
                0 <= i < amounts.len() && 0 <= j < amounts.len() && i != j && qualifies(
                    amounts[i] as int,
                    minimum_bid as int,
                    reserve_price as int,
                ) && qualifies(amounts[j] as int, minimum_bid as int, reserve_price as int);
            assert(i != w || j != w);
            assert(k.second_highest is Some);
        }
        if let Some(s) = k.second_highest {
            let j = choose|j: int|
                0 <= j < amounts.len() && j != w && qualifies(
                    amounts[j] as int,
                    minimum_bid as int,
                    reserve_price as int,
                ) && amounts[j] == s;
            assert(two_qualify(amounts, minimum_bid, reserve_price));
            assert(is_second_highest_qualifying(amounts, minimum_bid, reserve_price, s as int));
        }
    }
}

/// Single pass over the bids keeping the running highest and second-highest qualifying amounts.
/// A bid above the highest becomes the winner and pushes the previous highest down to second;
/// a bid that does not exceed the highest can only raise the second; equal amounts never
/// displace the earlier bid.
pub fn rank_bids(amounts: &Vec<u128>, minimum_bid: u128, reserve_price: u128) -> (r: Option<Ranking>)
    ensures
        ranks(amounts@, minimum_bid, reserve_price, r),
{
    let mut best: Option<Ranking> = None;
    let mut i: usize = 0;
    while i < amounts.len()
        invariant
            i <= amounts.len(),
            ranks_prefix(amounts@, minimum_bid, reserve_price, i as int, best),
        decreases amounts.len() - i,
    {
        let a = amounts[i];
        if a >= minimum_bid && a >= reserve_price {
            match best {
                None => {
                    best = Some(Ranking { winner_index: i, highest: a, second_highest: None });
                },
                Some(k) => {
                    if a > k.highest {
                        let ghost w = k.winner_index as int;
                        assert(w != i as int && amounts@[w] == k.highest);
                        best = Some(Ranking { winner_index: i, highest: a, second_highest: Some(k.highest) });
                    } else {
                        let raise = match k.second_highest {
                            None => true,
                            Some(s) => a > s,
                        };
                        if raise {
                            best = Some(Ranking { second_highest: Some(a), ..k });
                        }
                    }
                },
            }
        }
        i = i + 1;
    }
    best
}

} // verus!
