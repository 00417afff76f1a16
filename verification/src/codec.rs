//! The combination codec: four cards are written as an eight-character
//! token, a suit symbol at each even offset and a value symbol at each odd
//! offset. Player tickets and the generated winning hand go through the same
//! validation.

use vstd::prelude::*;
use crate::errors::ErrorCode;
use crate::constants::COMBINATION_LENGTH;

verus! {

/// Position of `c` in the suit alphabet `S C H W`, or `-1`.
pub open spec fn suit_index_of(c: char) -> int {
    if c == 'S' {
        0
    } else if c == 'C' {
        1
    } else if c == 'H' {
        2
    } else if c == 'W' {
        3
    } else {
        -1
    }
}

/// Whether `c` is a suit symbol.
pub open spec fn is_suit(c: char) -> bool {
    suit_index_of(c) >= 0
}

/// Position of `c` in the value alphabet `2 3 4 5 6 7 8 9 T J Q K A`, or `-1`.
pub open spec fn value_index_of(c: char) -> int {
    if c == '2' {
        0
    } else if c == '3' {
        1
    } else if c == '4' {
        2
    } else if c == '5' {
        3
    } else if c == '6' {
        4
    } else if c == '7' {
        5
    } else if c == '8' {
        6
    } else if c == '9' {
        7
    } else if c == 'T' {
        8
    } else if c == 'J' {
        9
    } else if c == 'Q' {
        10
    } else if c == 'K' {
        11
    } else if c == 'A' {
        12
    } else {
        -1
    }
}

/// Whether `c` is a value symbol.
pub open spec fn is_value(c: char) -> bool {
    value_index_of(c) >= 0
}

/// The suit symbol at position `i` of the suit alphabet; positions outside
/// the alphabet give `W`.
pub open spec fn suit_symbol(i: int) -> char {
    if i == 0 {
        'S'
    } else if i == 1 {
        'C'
    } else if i == 2 {
        'H'
    } else {
        'W'
    }
}

/// The value symbol at position `i` of the value alphabet; positions outside
/// the alphabet give `A`.
pub open spec fn value_symbol(i: int) -> char {
    if i == 0 {
        '2'
    } else if i == 1 {
        '3'
    } else if i == 2 {
        '4'
    } else if i == 3 {
        '5'
    } else if i == 4 {
        '6'
    } else if i == 5 {
        '7'
    } else if i == 6 {
        '8'
    } else if i == 7 {
        '9'
    } else if i == 8 {
        'T'
    } else if i == 9 {
        'J'
    } else if i == 10 {
        'Q'
    } else if i == 11 {
        'K'
    } else {
        'A'
    }
}

/// A card is a suit symbol paired with a value symbol.
pub open spec fn valid_card(card: (char, char)) -> bool {
    is_suit(card.0) && is_value(card.1)
}

/// The cards written in `s`: character pairs, in order.
pub open spec fn cards_of(s: Seq<char>) -> Seq<(char, char)> {
    Seq::new(s.len() / 2, |i: int| (s[2 * i], s[2 * i + 1]))
}

/// Whether `s` encodes a hand of four cards.
pub open spec fn valid_combination(s: Seq<char>) -> bool {
    s.len() == COMBINATION_LENGTH && forall|i: int|
        0 <= i < 4 ==> valid_card(#[trigger] cards_of(s)[i])
}

/// The first malformed card at or after position `i`, scanned suit before
/// value, as `validate` reports it.
pub open spec fn first_card_error(cards: Seq<(char, char)>, i: int) -> Option<ErrorCode>
    decreases cards.len() - i when 0 <= i <= cards.len()
{
    if i >= cards.len() {
        None
    } else if !is_suit(cards[i].0) {
        Some(ErrorCode::InvalidCombinationSuit)
    } else if !is_value(cards[i].1) {
        Some(ErrorCode::InvalidCombinationValue)
    } else {
        first_card_error(cards, i + 1)
    }
}

/// The exact outcome of validating `s`: `None` when `s` is a well-formed
/// combination, otherwise the error `validate` returns.
pub open spec fn combination_error(s: Seq<char>) -> Option<ErrorCode> {
    if s.len() != COMBINATION_LENGTH {
        Some(ErrorCode::InvalidCombinationLength)
    } else {
        first_card_error(cards_of(s), 0)
    }
}

/// The eight-character token that writes the four cards of `cards`: each
/// card's suit symbol, then its value symbol.
pub open spec fn encode_spec(cards: Seq<(char, char)>) -> Seq<char> {
    Seq::new(cards.len() * 2, |i: int| if i % 2 == 0 {
        cards[i / 2].0
    } else {
        cards[i / 2].1
    })
}

/// Decoding inverts encoding on any card sequence.
pub proof fn lemma_cards_of_encode(cards: Seq<(char, char)>)
    ensures
        cards_of(encode_spec(cards)) == cards,
{
    assert(cards_of(encode_spec(cards)) =~= cards);
}

/// Encoding inverts decoding on any even-length character sequence.
pub proof fn lemma_encode_cards_of(s: Seq<char>)
    requires
        s.len() % 2 == 0,
    ensures
        encode_spec(cards_of(s)) == s,
{
    assert(encode_spec(cards_of(s)) =~= s);
}

/// Round trip of the codec: a hand of four valid cards encodes to a token
/// that validation accepts and decodes back to the same hand.
pub proof fn lemma_codec_round_trip(cards: Seq<(char, char)>)
    requires
        cards.len() == 4,
        forall|i: int| 0 <= i < 4 ==> valid_card(#[trigger] cards[i]),
    ensures
        valid_combination(encode_spec(cards)),
        combination_error(encode_spec(cards)) is None,
        cards_of(encode_spec(cards)) == cards,
{
    lemma_cards_of_encode(cards);
    lemma_all_valid_means_no_error(cards, 0);
}

/// Validation accepts exactly the encodings of valid hands: every accepted
/// token is the encoding of its own four valid cards.
pub proof fn lemma_valid_combination_is_encoded(s: Seq<char>)
    requires
        combination_error(s) is None,
    ensures
        valid_combination(s),
        cards_of(s).len() == 4,
        forall|i: int| 0 <= i < 4 ==> valid_card(#[trigger] cards_of(s)[i]),
        encode_spec(cards_of(s)) == s,
{
    lemma_no_error_means_valid(cards_of(s), 0);
    lemma_encode_cards_of(s);
}

/// A scan over valid cards reports no error.
proof fn lemma_all_valid_means_no_error(cards: Seq<(char, char)>, i: int)
    requires
        0 <= i <= cards.len(),
        forall|j: int| 0 <= j < cards.len() ==> valid_card(#[trigger] cards[j]),
    ensures
        first_card_error(cards, i) is None,
    decreases cards.len() - i,
{
    if i < cards.len() {
        lemma_all_valid_means_no_error(cards, i + 1);
    }
}

/// A scan that found no error up to the end means every card is valid.
proof fn lemma_no_error_means_valid(cards: Seq<(char, char)>, i: int)
    requires
        0 <= i <= cards.len(),
        first_card_error(cards, i) is None,
    ensures
        forall|j: int| i <= j < cards.len() ==> valid_card(#[trigger] cards[j]),
    decreases cards.len() - i,
{
    if i < cards.len() {
        lemma_no_error_means_valid(cards, i + 1);
    }
}

/// Decodes and validates a combination. Returns the four cards when `s` is
/// well formed, and the exact error otherwise: a length error first, then the
/// first bad symbol, suit before value within a card.
pub fn verify_combination(combination: &String) -> (r: Result<Vec<(char, char)>, ErrorCode>)
    ensures
        match r {
            Ok(cards) => combination_error(combination@) is None
                && valid_combination(combination@)
                && cards@ == cards_of(combination@),
            Err(e) => combination_error(combination@) == Some(e),
        },
{
    let s = combination.as_str();
    if s.unicode_len() != COMBINATION_LENGTH {
        return Err(ErrorCode::InvalidCombinationLength);
    }
    let ghost all = cards_of(combination@);
    let mut cards: Vec<(char, char)> = Vec::new();
    let mut i: usize = 0;
    while i < 4
        invariant
            combination@.len() == 8,
            s@ == combination@,
            all == cards_of(combination@),
            i <= 4,
            cards@ =~= all.take(i as int),
            first_card_error(all, 0) == first_card_error(all, i as int),
        decreases 4 - i,
    {
        let suit = s.get_char(2 * i);
        let value = s.get_char(2 * i + 1);
        assert(all[i as int] == (suit, value));
        if !(suit == 'S' || suit == 'C' || suit == 'H' || suit == 'W') {
            assert(first_card_error(all, i as int) == Some(ErrorCode::InvalidCombinationSuit));
            return Err(ErrorCode::InvalidCombinationSuit);
        }
        if !(value == '2' || value == '3' || value == '4' || value == '5' || value == '6'
            || value == '7' || value == '8' || value == '9' || value == 'T' || value == 'J'
            || value == 'Q' || value == 'K' || value == 'A') {
            assert(first_card_error(all, i as int) == Some(ErrorCode::InvalidCombinationValue));
            return Err(ErrorCode::InvalidCombinationValue);
        }
        cards.push((suit, value));
        assert(cards@ =~= all.take(i as int + 1));
        i = i + 1;
    }
    proof {
        lemma_no_error_means_valid(all, 0);
        assert(cards@ =~= all);
    }
    Ok(cards)
}

/// The suit symbol at position `i` of the suit alphabet.
pub fn suit_at(i: usize) -> (c: char)
    requires
        i < 4,
    ensures
        c == suit_symbol(i as int),
        suit_index_of(c) == i,
{
    if i == 0 {
        'S'
    } else if i == 1 {
        'C'
    } else if i == 2 {
        'H'
    } else {
        'W'
    }
}

/// The value symbol at position `i` of the value alphabet.
pub fn value_at(i: usize) -> (c: char)
    requires
        i < 13,
    ensures
        c == value_symbol(i as int),
        value_index_of(c) == i,
{
    if i == 0 {
        '2'
    } else if i == 1 {
        '3'
    } else if i == 2 {
        '4'
    } else if i == 3 {
        '5'
    } else if i == 4 {
        '6'
    } else if i == 5 {
        '7'
    } else if i == 6 {
        '8'
    } else if i == 7 {
        '9'
    } else if i == 8 {
        'T'
    } else if i == 9 {
        'J'
    } else if i == 10 {
        'Q'
    } else if i == 11 {
        'K'
    } else {
        'A'
    }
}

/// Appends one symbol of the card alphabets to `s`.
pub fn push_symbol(s: &mut String, c: char)
    requires
        is_suit(c) || is_value(c),
    ensures
        final(s)@ == old(s)@ + seq![c],
{
    if c == 'S' {
        proof { reveal_strlit("S"); }
        assert(("S")@ =~= seq!['S']);
        s.append("S");
    } else if c == 'C' {
        proof { reveal_strlit("C"); }
        assert(("C")@ =~= seq!['C']);
        s.append("C");
    } else if c == 'H' {
        proof { reveal_strlit("H"); }
        assert(("H")@ =~= seq!['H']);
        s.append("H");
    } else if c == 'W' {
        proof { reveal_strlit("W"); }
        assert(("W")@ =~= seq!['W']);
        s.append("W");
    } else if c == '2' {
        proof { reveal_strlit("2"); }
        assert(("2")@ =~= seq!['2']);
        s.append("2");
    } else if c == '3' {
        proof { reveal_strlit("3"); }
        assert(("3")@ =~= seq!['3']);
        s.append("3");
    } else if c == '4' {
        proof { reveal_strlit("4"); }
        assert(("4")@ =~= seq!['4']);
        s.append("4");
    } else if c == '5' {
        proof { reveal_strlit("5"); }
        assert(("5")@ =~= seq!['5']);
        s.append("5");
    } else if c == '6' {
        proof { reveal_strlit("6"); }
        assert(("6")@ =~= seq!['6']);
        s.append("6");
    } else if c == '7' {
        proof { reveal_strlit("7"); }
        assert(("7")@ =~= seq!['7']);
        s.append("7");
    } else if c == '8' {
        proof { reveal_strlit("8"); }
        assert(("8")@ =~= seq!['8']);
        s.append("8");
    } else if c == '9' {
        proof { reveal_strlit("9"); }
        assert(("9")@ =~= seq!['9']);
        s.append("9");
    } else if c == 'T' {
        proof { reveal_strlit("T"); }
        assert(("T")@ =~= seq!['T']);
        s.append("T");
    } else if c == 'J' {
        proof { reveal_strlit("J"); }
        assert(("J")@ =~= seq!['J']);
        s.append("J");
    } else if c == 'Q' {
        proof { reveal_strlit("Q"); }
        assert(("Q")@ =~= seq!['Q']);
        s.append("Q");
    } else if c == 'K' {
        proof { reveal_strlit("K"); }
        assert(("K")@ =~= seq!['K']);
        s.append("K");
    } else {
        proof { reveal_strlit("A"); }
        assert(("A")@ =~= seq!['A']);
        s.append("A");
    }
}

/// Encodes a hand of four valid cards as its eight-character token.
pub fn encode_combination(cards: &Vec<(char, char)>) -> (r: String)
    requires
        cards@.len() == 4,
        forall|i: int| 0 <= i < 4 ==> valid_card(#[trigger] cards@[i]),
    ensures
        r@ == encode_spec(cards@),
        valid_combination(r@),
        cards_of(r@) == cards@,
{
    let mut s = String::new();
    let mut i: usize = 0;
    while i < 4
        invariant
            cards@.len() == 4,
            forall|j: int| 0 <= j < 4 ==> valid_card(#[trigger] cards@[j]),
            i <= 4,
            s@ =~= encode_spec(cards@.take(i as int)),
        decreases 4 - i,
    {
        let card = cards[i];
        push_symbol(&mut s, card.0);
        push_symbol(&mut s, card.1);
        assert(s@ =~= encode_spec(cards@.take(i as int + 1)));
        i = i + 1;
    }
    proof {
        assert(cards@.take(4) =~= cards@);
        lemma_codec_round_trip(cards@);
    }
    s
}

} // verus!
