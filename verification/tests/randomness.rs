use draco_protocol::codec::verify_combination;
use draco_protocol::randomness::generate_combination_from_randomness;

#[test]
fn known_buffer_generates_the_expected_combination() {
    let combination = generate_combination_from_randomness(&[1, 2, 3, 4, 5, 6, 7, 8]);
    assert_eq!(combination, "WKS9HKHA");
}

#[test]
fn zero_bytes_pick_the_first_remaining_card_each_round() {
    let combination = generate_combination_from_randomness(&[0u8; 32]);
    assert_eq!(combination, "S2S3S4S5");
}

#[test]
fn two_byte_buffer_wraps_the_cursor_back_to_the_front() {
    // With only two bytes, every round re-reads the same big-endian value;
    // the pool still shrinks, so the cards still differ.
    let combination = generate_combination_from_randomness(&[0, 0]);
    assert_eq!(combination, "S2S3S4S5");
}

#[test]
fn ascending_buffer_generates_the_expected_combination() {
    let data: Vec<u8> = (0..32).collect();
    let combination = generate_combination_from_randomness(&data);
    assert_eq!(combination, "S3S8H7H2");
}

#[test]
fn generated_combinations_always_validate_and_never_repeat_a_card() {
    // Exercise many byte buffers, including short ones that wrap, and check
    // that the four sampled cards are pairwise distinct and well formed.
    let mut seed: u64 = 0x9E37_79B9_7F4A_7C15;
    for round in 0..200 {
        let len = 2 + (round % 31) as usize;
        let mut data = Vec::new();
        for _ in 0..len {
            seed = seed.wrapping_mul(6364136223846793005).wrapping_add(1442695040888963407);
            data.push((seed >> 56) as u8);
        }
        let combination = generate_combination_from_randomness(&data);
        let cards = verify_combination(&combination).unwrap();
        for i in 0..4 {
            for j in (i + 1)..4 {
                assert_ne!(cards[i], cards[j], "repeated card for buffer {:?}", data);
            }
        }
    }
}
