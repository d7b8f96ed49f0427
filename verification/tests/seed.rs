use cyberdamus::utils::{build_seed_message, fisher_yates_draw_three, generate_entropy_seed};

#[test]
fn seed_message_lays_out_the_inputs() {
    let message = build_seed_message(&[7u8; 32], 1000, 5, 1);
    let mut expected = vec![7u8; 32];
    expected.extend_from_slice(&[232, 3, 0, 0, 0, 0, 0, 0]);
    expected.extend_from_slice(&[5, 0, 0, 0, 0, 0, 0, 0]);
    expected.extend_from_slice(&[1, 0, 0, 0, 0, 0, 0, 0]);
    assert_eq!(message, expected);
}

#[test]
fn seed_message_takes_negative_times_in_twos_complement() {
    let message = build_seed_message(&[0u8; 32], -86401, u64::MAX, 258);
    assert_eq!(message.len(), 56);
    assert_eq!(&message[32..40], &[127, 174, 254, 255, 255, 255, 255, 255]);
    assert_eq!(&message[40..48], &[255u8; 8]);
    assert_eq!(&message[48..56], &[2, 1, 0, 0, 0, 0, 0, 0]);
    let least = build_seed_message(&[0u8; 32], i64::MIN, 0, 0);
    assert_eq!(&least[32..40], &[0, 0, 0, 0, 0, 0, 0, 128]);
    let greatest = build_seed_message(&[0u8; 32], i64::MAX, 0, 0);
    assert_eq!(&greatest[32..40], &[255, 255, 255, 255, 255, 255, 255, 127]);
}

#[test]
fn seed_is_the_sha256_of_the_message() {
    let seed = generate_entropy_seed(&[7u8; 32], 1000, 5, 1);
    assert_eq!(
        seed,
        [
            109, 57, 92, 162, 232, 245, 39, 250, 207, 6, 194, 239, 229, 8, 192, 20, 119, 102, 180,
            29, 214, 194, 165, 151, 24, 200, 55, 84, 158, 11, 195, 91
        ]
    );
    let negative = generate_entropy_seed(&[0u8; 32], -1, 0, 0);
    assert_eq!(
        negative,
        [
            147, 87, 143, 131, 254, 174, 54, 217, 112, 175, 164, 164, 35, 55, 144, 204, 60, 86,
            189, 169, 164, 90, 142, 126, 188, 103, 138, 128, 205, 99, 140, 138
        ]
    );
}

#[test]
fn seed_changes_with_each_input() {
    let base = generate_entropy_seed(&[7u8; 32], 1000, 5, 1);
    let mut other_user = [7u8; 32];
    other_user[31] = 8;
    assert_ne!(generate_entropy_seed(&other_user, 1000, 5, 1), base);
    assert_ne!(generate_entropy_seed(&[7u8; 32], 1001, 5, 1), base);
    assert_ne!(generate_entropy_seed(&[7u8; 32], 1000, 6, 1), base);
    assert_ne!(generate_entropy_seed(&[7u8; 32], 1000, 5, 2), base);
    // the same number in another position is another message
    assert_ne!(generate_entropy_seed(&[7u8; 32], 5, 1000, 1), base);
    assert_ne!(generate_entropy_seed(&[7u8; 32], 1000, 1, 5), base);
}

#[test]
fn seed_is_the_same_for_the_same_inputs() {
    assert_eq!(
        generate_entropy_seed(&[3u8; 32], -5, 9, 11),
        generate_entropy_seed(&[3u8; 32], -5, 9, 11)
    );
}

#[test]
fn consecutive_fortunes_draw_from_different_seeds() {
    let user = [7u8; 32];
    let first_seed = generate_entropy_seed(&user, 1000, 5, 1);
    let second_seed = generate_entropy_seed(&user, 1000, 5, 2);
    assert_ne!(first_seed, second_seed);
    assert_eq!(fisher_yates_draw_three(first_seed), [31, 46, 42]);
    assert_eq!(fisher_yates_draw_three(second_seed), [77, 60, 21]);
    assert_eq!(generate_entropy_seed(&user, 1000, 5, 1), first_seed);
}
