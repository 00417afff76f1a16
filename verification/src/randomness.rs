//! Replacement-free sampling of the winning hand from revealed random bytes.
//!
//! A pool of 52 card indices (card = suit * 13 + value) is consumed over four
//! rounds: each round reads two bytes as a big-endian 16-bit value, reduces it
//! modulo the current pool size, and removes the selected card. When fewer
//! than two bytes remain before a read, the cursor wraps back to the front of
//! the buffer; the oracle supplies at least 32 bytes in practice, so the wrap
//! is a documented quirk, not a code path a well-formed reveal exercises.

use vstd::prelude::*;
use crate::codec::{
    cards_of, encode_spec, lemma_codec_round_trip, push_symbol, suit_at, suit_index_of,
    suit_symbol, valid_card, valid_combination, value_at, value_index_of, value_symbol,
};

verus! {

/// The full deck, as card indices in ascending order.
pub open spec fn all_cards() -> Seq<int> {
    Seq::new(52, |i: int| i)
}

/// The big-endian 16-bit value at `idx`.
pub open spec fn read_u16(bytes: Seq<u8>, idx: int) -> int {
    bytes[idx] * 256 + bytes[idx + 1]
}

/// Where a two-byte read at `cursor` actually happens: at the front when
/// fewer than two bytes remain.
pub open spec fn wrap_cursor(len: int, cursor: int) -> int {
    if cursor + 1 >= len {
        0
    } else {
        cursor
    }
}

/// Read cursor, remaining pool and chosen card indices after `n` sampling
/// rounds over `bytes`.
pub open spec fn sample_state(bytes: Seq<u8>, n: nat) -> (int, Seq<int>, Seq<int>)
    decreases n,
{
    if n == 0 {
        (0, all_cards(), Seq::empty())
    } else {
        let (cursor0, avail, chosen) = sample_state(bytes, (n - 1) as nat);
        let cursor = wrap_cursor(bytes.len() as int, cursor0);
        let sel = read_u16(bytes, cursor) % (avail.len() as int);
        (cursor + 2, avail.remove(sel), chosen.push(avail[sel]))
    }
}

/// The four card indices sampled from `bytes`.
pub open spec fn sampled_cards(bytes: Seq<u8>) -> Seq<int> {
    sample_state(bytes, 4).2
}

/// The symbols of card index `card`.
pub open spec fn card_symbols(card: int) -> (char, char) {
    (suit_symbol(card / 13), value_symbol(card % 13))
}

/// The index of a card in the deck: its suit's alphabet position times
/// thirteen plus its value's.
pub open spec fn card_index_of(card: (char, char)) -> int {
    suit_index_of(card.0) * 13 + value_index_of(card.1)
}

/// The valid cards are exactly the 52 deck indices: every index names a
/// valid card, and every valid card names back its index. Together with the
/// codec's round trip this makes the accepted combinations exactly the
/// four-fold product of the 52-card deck.
pub proof fn lemma_deck_bijection(card: (char, char), index: int)
    ensures
        valid_card(card) ==> 0 <= card_index_of(card) < 52 && card_symbols(card_index_of(card))
            == card,
        0 <= index < 52 ==> valid_card(card_symbols(index)) && card_index_of(
            card_symbols(index),
        ) == index,
{
    if valid_card(card) {
        let s = suit_index_of(card.0);
        let v = value_index_of(card.1);
        assert(0 <= s < 4 && 0 <= v < 13);
        assert(0 <= s * 13 + v < 52) by (nonlinear_arith)
            requires 0 <= s < 4, 0 <= v < 13;
        assert((s * 13 + v) / 13 == s && (s * 13 + v) % 13 == v) by (nonlinear_arith)
            requires 0 <= s < 4, 0 <= v < 13;
    }
    if 0 <= index < 52 {
        assert(0 <= index / 13 < 4 && 0 <= index % 13 < 13) by (nonlinear_arith)
            requires 0 <= index < 52;
        let s = index / 13;
        let v = index % 13;
        assert(suit_index_of(suit_symbol(s)) == s);
        assert(value_index_of(value_symbol(v)) == v);
        vstd::arithmetic::div_mod::lemma_fundamental_div_mod(index, 13);
    }
}

/// The combination generated from `bytes`: the sampled cards, encoded.
pub open spec fn generate_spec(bytes: Seq<u8>) -> Seq<char> {
    encode_spec(sampled_cards(bytes).map_values(|card: int| card_symbols(card)))
}

/// After `n` rounds the pool holds `52 - n` distinct in-range cards, the `n`
/// chosen cards are distinct and in range, no chosen card is still in the
/// pool, and the cursor is within two bytes of the buffer.
proof fn lemma_sample_state_props(bytes: Seq<u8>, n: nat)
    requires
        bytes.len() >= 2,
        n <= 4,
    ensures
        0 <= sample_state(bytes, n).0 <= bytes.len(),
        sample_state(bytes, n).1.len() == 52 - n,
        sample_state(bytes, n).2.len() == n,
        forall|i: int| 0 <= i < 52 - n ==> 0 <= #[trigger] sample_state(bytes, n).1[i] < 52,
        forall|i: int| 0 <= i < n ==> 0 <= #[trigger] sample_state(bytes, n).2[i] < 52,
        forall|i: int, j: int| 0 <= i < j < 52 - n
            ==> sample_state(bytes, n).1[i] != sample_state(bytes, n).1[j],
        forall|i: int, j: int| 0 <= i < j < n
            ==> sample_state(bytes, n).2[i] != sample_state(bytes, n).2[j],
        forall|i: int, j: int| 0 <= i < n && 0 <= j < 52 - n
            ==> sample_state(bytes, n).2[i] != sample_state(bytes, n).1[j],
    decreases n,
{
    if n > 0 {
        lemma_sample_state_props(bytes, (n - 1) as nat);
        let (cursor0, avail, chosen) = sample_state(bytes, (n - 1) as nat);
        let cursor = wrap_cursor(bytes.len() as int, cursor0);
        let sel = read_u16(bytes, cursor) % (avail.len() as int);
        assert(0 <= read_u16(bytes, cursor));
        assert(0 <= sel < avail.len());
        assert(sample_state(bytes, n).1 =~= avail.remove(sel));
        assert forall|i: int, j: int| 0 <= i < j < 52 - n implies
            sample_state(bytes, n).1[i] != sample_state(bytes, n).1[j] by {
            let i0 = if i < sel { i } else { i + 1 };
            let j0 = if j < sel { j } else { j + 1 };
            assert(avail.remove(sel)[i] == avail[i0]);
            assert(avail.remove(sel)[j] == avail[j0]);
        }
        assert forall|i: int, j: int| 0 <= i < n && 0 <= j < 52 - n implies
            sample_state(bytes, n).2[i] != sample_state(bytes, n).1[j] by {
            let j0 = if j < sel { j } else { j + 1 };
            assert(avail.remove(sel)[j] == avail[j0]);
            if i < n - 1 {
                assert(sample_state(bytes, n).2[i] == chosen[i]);
            } else {
                assert(sample_state(bytes, n).2[i] == avail[sel]);
            }
        }
    }
}

/// Distinct in-range card indices have distinct symbol pairs.
proof fn lemma_card_symbols_injective(a: int, b: int)
    requires
        0 <= a < 52,
        0 <= b < 52,
        card_symbols(a) == card_symbols(b),
    ensures
        a == b,
{
    assert(a / 13 == b / 13);
    assert(a % 13 == b % 13);
    vstd::arithmetic::div_mod::lemma_fundamental_div_mod(a, 13);
    vstd::arithmetic::div_mod::lemma_fundamental_div_mod(b, 13);
}

/// Whatever bytes the oracle reveals, the generated combination is a
/// well-formed hand of four pairwise-distinct cards.
pub proof fn lemma_generate_spec_wf(bytes: Seq<u8>)
    requires
        bytes.len() >= 2,
    ensures
        valid_combination(generate_spec(bytes)),
        cards_of(generate_spec(bytes)) == sampled_cards(bytes).map_values(
            |card: int| card_symbols(card),
        ),
        forall|i: int, j: int| 0 <= i < j < 4 ==> cards_of(generate_spec(bytes))[i] != cards_of(
            generate_spec(bytes),
        )[j],
{
    let chosen = sampled_cards(bytes);
    let mapped = chosen.map_values(|card: int| card_symbols(card));
    lemma_sample_state_props(bytes, 4);
    assert forall|i: int| 0 <= i < 4 implies valid_card(#[trigger] mapped[i]) by {
        lemma_deck_bijection(mapped[i], chosen[i]);
    }
    lemma_codec_round_trip(mapped);
    assert forall|i: int, j: int| 0 <= i < j < 4 implies mapped[i] != mapped[j] by {
        if mapped[i] == mapped[j] {
            lemma_card_symbols_injective(chosen[i], chosen[j]);
        }
    }
}

/// The elements of a pool of card indices, as mathematical integers.
pub open spec fn pool_ints(s: Seq<usize>) -> Seq<int> {
    s.map_values(|v: usize| v as int)
}

/// Maps revealed random bytes to a combination by replacement-free sampling,
/// so the four cards of the result are pairwise distinct.
pub fn generate_combination_from_randomness(randomness_data: &[u8]) -> (r: String)
    requires
        randomness_data@.len() >= 2,
    ensures
        r@ == generate_spec(randomness_data@),
        valid_combination(r@),
        cards_of(r@) == sampled_cards(randomness_data@).map_values(|card: int| card_symbols(card)),
        forall|i: int, j: int| 0 <= i < j < 4 ==> cards_of(r@)[i] != cards_of(r@)[j],
{
    let ghost bytes = randomness_data@;
    let mut available_cards: Vec<usize> = Vec::new();
    let mut k: usize = 0;
    while k < 52
        invariant
            k <= 52,
            available_cards@.len() == k,
            forall|i: int| 0 <= i < k ==> available_cards@[i] == i,
        decreases 52 - k,
    {
        available_cards.push(k);
        k = k + 1;
    }
    assert(pool_ints(available_cards@) =~= all_cards());

    let mut combination = String::new();
    let mut byte_index: usize = 0;
    let ghost mut chosen: Seq<int> = Seq::empty();
    let mut round: usize = 0;
    while round < 4
        invariant
            randomness_data@ == bytes,
            bytes.len() >= 2,
            round <= 4,
            byte_index as int == sample_state(bytes, round as nat).0,
            pool_ints(available_cards@) == sample_state(bytes, round as nat).1,
            chosen == sample_state(bytes, round as nat).2,
            combination@ == encode_spec(chosen.map_values(|card: int| card_symbols(card))),
        decreases 4 - round,
    {
        proof {
            lemma_sample_state_props(bytes, round as nat);
            lemma_sample_state_props(bytes, (round + 1) as nat);
        }
        if byte_index >= randomness_data.len() - 1 {
            byte_index = 0;
        }
        assert(byte_index as int == wrap_cursor(bytes.len() as int, sample_state(bytes, round as nat).0));
        let b0 = randomness_data[byte_index];
        let b1 = randomness_data[byte_index + 1];
        let random_value: usize = (b0 as usize) * 256 + (b1 as usize);
        assert(random_value as int == read_u16(bytes, byte_index as int));
        let cards_remaining = available_cards.len();
        assert(cards_remaining as int == 52 - round);
        let selected_index = random_value % cards_remaining;
        let ghost pool_before = pool_ints(available_cards@);
        let card_index = available_cards.remove(selected_index);
        assert(card_index as int == pool_before[selected_index as int]);
        assert(0 <= card_index < 52);
        let suit_index = card_index / 13;
        let value_index = card_index % 13;
        let ghost sym = card_symbols(card_index as int);
        let suit_char = suit_at(suit_index);
        let value_char = value_at(value_index);
        assert(suit_char == sym.0 && value_char == sym.1);
        push_symbol(&mut combination, suit_char);
        push_symbol(&mut combination, value_char);
        proof {
            chosen = chosen.push(card_index as int);
            assert(pool_ints(available_cards@) =~= pool_before.remove(selected_index as int));
            assert(chosen == sample_state(bytes, (round + 1) as nat).2);
            assert(combination@ =~= encode_spec(chosen.map_values(|card: int| card_symbols(card))))
                by {
                let mapped = chosen.map_values(|card: int| card_symbols(card));
                let prev = chosen.drop_last().map_values(|card: int| card_symbols(card));
                assert(chosen.drop_last() == sample_state(bytes, round as nat).2);
                assert(mapped =~= prev.push(sym));
            }
        }
        byte_index = byte_index + 2;
        round = round + 1;
    }
    proof {
        lemma_generate_spec_wf(bytes);
    }
    combination
}

} // verus!
