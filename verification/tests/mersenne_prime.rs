use gossip_node::mersenne_prime::{
    find_next_mersenne_prime, lucas_lehmer_test, LAST_EXPONENT, MAX_EXPONENT,
};

#[test]
fn lucas_lehmer_accepts_the_known_exponents() {
    for p in [2u32, 3, 5, 7, 13, 17, 19, 31, 61] {
        assert!(lucas_lehmer_test(p), "{}", p);
    }
}

#[test]
fn lucas_lehmer_rejects_eleven() {
    assert!(!lucas_lehmer_test(11));
}

#[test]
fn lucas_lehmer_rejects_prime_exponents_of_composites() {
    for p in [11u32, 23, 29, 37, 41, 43, 47, 53, 59] {
        assert!(!lucas_lehmer_test(p), "{}", p);
    }
}

#[test]
fn lucas_lehmer_rejects_what_is_not_prime() {
    for p in [0u32, 1, 4, 6, 8, 9, 10, 12, 15, 21, 25, 27, 33, 49, 62, 63] {
        assert!(!lucas_lehmer_test(p), "{}", p);
    }
}

#[test]
fn lucas_lehmer_agrees_with_the_list_of_exponents() {
    let known = [2u32, 3, 5, 7, 13, 17, 19, 31, 61];
    for p in 0..=MAX_EXPONENT {
        assert_eq!(lucas_lehmer_test(p), known.contains(&p), "{}", p);
    }
}

#[test]
fn next_mersenne_prime_after_small_exponents() {
    assert_eq!(find_next_mersenne_prime(2), 3);
    assert_eq!(find_next_mersenne_prime(3), 5);
    assert_eq!(find_next_mersenne_prime(5), 7);
    assert_eq!(find_next_mersenne_prime(7), 13);
}

#[test]
fn next_mersenne_prime_skips_what_fails() {
    assert_eq!(find_next_mersenne_prime(0), 2);
    assert_eq!(find_next_mersenne_prime(1), 2);
    assert_eq!(find_next_mersenne_prime(8), 13);
    assert_eq!(find_next_mersenne_prime(13), 17);
    assert_eq!(find_next_mersenne_prime(17), 19);
    assert_eq!(find_next_mersenne_prime(19), 31);
    assert_eq!(find_next_mersenne_prime(30), 31);
}

#[test]
fn next_mersenne_prime_reaches_the_last_exponent() {
    assert_eq!(find_next_mersenne_prime(31), LAST_EXPONENT);
    assert_eq!(find_next_mersenne_prime(LAST_EXPONENT - 1), LAST_EXPONENT);
    assert_eq!(LAST_EXPONENT, 61);
}
