//! The dispatch mechanism itself, made explicit for the coin enumeration:
//! an ordered table of (pattern, value) entries, where a pattern is a literal
//! coin or a wildcard, the first structurally matching entry wins, and a
//! table can only be constructed when its entries cover every coin.

use vstd::prelude::*;
use crate::coins::Coin;

verus! {

/// One pattern of a dispatch entry: a literal coin, or a wildcard that
/// matches every coin.
#[derive(Clone, Copy, Debug, PartialEq, Eq, Structural)]
pub enum CoinPattern {
    Literal(Coin),
    Wildcard,
}

/// Whether a pattern structurally matches a coin: a literal matches exactly
/// its own coin, a wildcard matches every coin.
pub open spec fn pattern_matches(pattern: CoinPattern, coin: Coin) -> bool {
    match pattern {
        CoinPattern::Literal(tag) => tag == coin,
        CoinPattern::Wildcard => true,
    }
}

/// The value of the first entry, in declaration order, whose pattern matches
/// the coin; nothing when no entry matches.
pub open spec fn first_match(entries: Seq<(CoinPattern, u8)>, coin: Coin) -> Option<u8>
    decreases entries.len(),
{
    if entries.len() == 0 {
        None
    } else if pattern_matches(entries[0].0, coin) {
        Some(entries[0].1)
    } else {
        first_match(entries.skip(1), coin)
    }
}

/// Some entry's pattern matches the coin.
pub open spec fn covers(entries: Seq<(CoinPattern, u8)>, coin: Coin) -> bool {
    exists|i: int| 0 <= i < entries.len() && pattern_matches(#[trigger] entries[i].0, coin)
}

/// Every coin is matched by some entry.
pub open spec fn exhaustive(entries: Seq<(CoinPattern, u8)>) -> bool {
    forall|coin: Coin| first_match(entries, coin) is Some
}

/// First-match selection succeeds exactly when some entry covers the coin.
pub proof fn lemma_first_match_covers(entries: Seq<(CoinPattern, u8)>, coin: Coin)
    ensures
        first_match(entries, coin) is Some <==> covers(entries, coin),
    decreases entries.len(),
{
    if entries.len() == 0 {
    } else if pattern_matches(entries[0].0, coin) {
        assert(covers(entries, coin));
    } else {
        lemma_first_match_covers(entries.skip(1), coin);
        if covers(entries.skip(1), coin) {
            let i = choose|i: int|
                0 <= i < entries.skip(1).len() && pattern_matches(#[trigger] entries.skip(1)[i].0, coin);
            assert(entries.skip(1)[i] == entries[i + 1]);
            assert(pattern_matches(entries[i + 1].0, coin));
        }
        if covers(entries, coin) {
            let i = choose|i: int|
                0 <= i < entries.len() && pattern_matches(#[trigger] entries[i].0, coin);
            assert(i != 0);
            assert(entries.skip(1)[i - 1] == entries[i]);
            assert(covers(entries.skip(1), coin));
        }
    }
}

/// An ordered dispatch table over the coin enumeration. A table can only be
/// built by [`CoinDispatcher::new`], which rejects entry lists that leave
/// some coin uncovered, so every held table is exhaustive.
pub struct CoinDispatcher {
    entries: Vec<(CoinPattern, u8)>,
}

impl View for CoinDispatcher {
    type V = Seq<(CoinPattern, u8)>;

    closed spec fn view(&self) -> Seq<(CoinPattern, u8)> {
        self.entries@
    }
}

impl CoinDispatcher {
    /// The entries cover every coin.
    pub open spec fn wf(&self) -> bool {
        exhaustive(self@)
    }

    /// Builds a table from ordered entries, rejecting at definition time an
    /// entry list that leaves some coin uncovered: the result is present
    /// exactly when the entries are exhaustive.
    pub fn new(entries: Vec<(CoinPattern, u8)>) -> (dispatcher: Option<CoinDispatcher>)
        ensures
            dispatcher is Some <==> exhaustive(entries@),
            dispatcher matches Some(d) ==> d@ == entries@ && d.wf(),
    {
        let mut covers_penny = false;
        let mut covers_nickel = false;
        let mut covers_dime = false;
        let mut covers_quarter = false;
        let n = entries.len();
        for k in 0..n
            invariant
                n == entries.len(),
                covers_penny <==> exists|i: int|
                    0 <= i < k && pattern_matches(#[trigger] entries@[i].0, Coin::Penny),
                covers_nickel <==> exists|i: int|
                    0 <= i < k && pattern_matches(#[trigger] entries@[i].0, Coin::Nickel),
                covers_dime <==> exists|i: int|
                    0 <= i < k && pattern_matches(#[trigger] entries@[i].0, Coin::Dime),
                covers_quarter <==> exists|i: int|
                    0 <= i < k && pattern_matches(#[trigger] entries@[i].0, Coin::Quarter),
        {
            let (pattern, _) = entries[k];
            proof {
                assert(entries@[k as int].0 == pattern);
            }
            match pattern {
                CoinPattern::Wildcard => {
                    covers_penny = true;
                    covers_nickel = true;
                    covers_dime = true;
                    covers_quarter = true;
                },
                CoinPattern::Literal(tag) => {
                    match tag {
                        Coin::Penny => { covers_penny = true; },
                        Coin::Nickel => { covers_nickel = true; },
                        Coin::Dime => { covers_dime = true; },
                        Coin::Quarter => { covers_quarter = true; },
                    }
                },
            }
        }
        proof {
            lemma_first_match_covers(entries@, Coin::Penny);
            lemma_first_match_covers(entries@, Coin::Nickel);
            lemma_first_match_covers(entries@, Coin::Dime);
            lemma_first_match_covers(entries@, Coin::Quarter);
        }
        if covers_penny && covers_nickel && covers_dime && covers_quarter {
            proof {
                assert forall|coin: Coin| first_match(entries@, coin) is Some by {
                    lemma_first_match_covers(entries@, coin);
                    match coin {
                        Coin::Penny => assert(covers(entries@, Coin::Penny)),
                        Coin::Nickel => assert(covers(entries@, Coin::Nickel)),
                        Coin::Dime => assert(covers(entries@, Coin::Dime)),
                        Coin::Quarter => assert(covers(entries@, Coin::Quarter)),
                    }
                }
            }
            Some(CoinDispatcher { entries })
        } else {
            None
        }
    }

    /// Selects the value of the first entry whose pattern matches the coin.
    /// A well-formed table always has one.
    pub fn dispatch(&self, coin: Coin) -> (value: u8)
        requires
            self.wf(),
        ensures
            first_match(self@, coin) == Some(value),
    {
        let n = self.entries.len();
        proof {
            assert(self@.skip(0) =~= self@);
        }
        for k in 0..n
            invariant
                self.wf(),
                n == self.entries.len(),
                first_match(self@, coin) == first_match(self@.skip(k as int), coin),
        {
            let (pattern, value) = self.entries[k];
            proof {
                assert(self@.skip(k as int)[0] == self@[k as int]);
            }
            let matched = match pattern {
                CoinPattern::Wildcard => true,
                CoinPattern::Literal(tag) => tag == coin,
            };
            if matched {
                return value;
            }
            proof {
                assert(self@.skip(k as int).skip(1) =~= self@.skip(k as int + 1));
            }
        }
        proof {
            assert(self@.skip(n as int) =~= Seq::<(CoinPattern, u8)>::empty());
            assert(first_match(self@, coin) is None);
            assert(false);
        }
        vstd::pervasive::unreached()
    }
}

/// The fully enumerated coin table: one literal entry per coin, each mapped
/// to its cent value, in declaration order and with no wildcard.
pub open spec fn standard_entries() -> Seq<(CoinPattern, u8)> {
    seq![
        (CoinPattern::Literal(Coin::Penny), 1u8),
        (CoinPattern::Literal(Coin::Nickel), 5u8),
        (CoinPattern::Literal(Coin::Dime), 10u8),
        (CoinPattern::Literal(Coin::Quarter), 25u8),
    ]
}

/// Dispatching any coin through the fully enumerated table selects exactly
/// its cent value: the table mechanism reproduces the direct mapping.
pub proof fn lemma_standard_dispatch(coin: Coin)
    ensures
        first_match(standard_entries(), coin) == Some(crate::coins::coin_value(coin)),
{
    reveal_with_fuel(first_match, 5);
    let entries = standard_entries();
    assert(entries.skip(1)[0] == entries[1]);
    assert(entries.skip(1).skip(1) =~= entries.skip(2));
    assert(entries.skip(2)[0] == entries[2]);
    assert(entries.skip(2).skip(1) =~= entries.skip(3));
    assert(entries.skip(3)[0] == entries[3]);
    assert(entries.skip(3).skip(1) =~= entries.skip(4));
    assert(entries.skip(4).len() == 0);
}

/// Builds the fully enumerated coin table.
pub fn standard_dispatcher() -> (dispatcher: CoinDispatcher)
    ensures
        dispatcher@ == standard_entries(),
        dispatcher.wf(),
{
    let mut entries: Vec<(CoinPattern, u8)> = Vec::new();
    entries.push((CoinPattern::Literal(Coin::Penny), 1));
    entries.push((CoinPattern::Literal(Coin::Nickel), 5));
    entries.push((CoinPattern::Literal(Coin::Dime), 10));
    entries.push((CoinPattern::Literal(Coin::Quarter), 25));
    proof {
        assert(entries@ =~= standard_entries());
    }
    let dispatcher = CoinDispatcher::new(entries);
    proof {
        assert forall|coin: Coin| first_match(standard_entries(), coin) is Some by {
            lemma_standard_dispatch(coin);
        }
    }
    dispatcher.unwrap()
}

} // verus!
