use ari::crypto::hash::{hash_slice, HashAlgorithm, IncrementalHash};
use ari::fmt::hex::to_hex;
use ari::random::{alpha_string, alphanumeric_string, array_16, array_32, string};

#[test]
fn a_random_string_is_made_of_its_alphabet() {
    let alphabet = ['x', 'y', 'é', '日'];
    let text = string(&alphabet, 200);
    assert_eq!(text.chars().count(), 200);
    assert!(text.chars().all(|c| alphabet.contains(&c)));
    assert_eq!(string(&alphabet, 0), "");
    assert_eq!(string(&['z'], 5), "zzzzz");
}

#[test]
fn a_random_string_of_no_alphabet_is_empty() {
    assert_eq!(string(&[], 10), "");
    assert_eq!(string(&[], 0), "");
}

#[test]
fn a_random_string_uses_all_of_a_small_alphabet() {
    let text = string(&['a', 'b'], 400);
    assert!(text.contains('a'));
    assert!(text.contains('b'));
}

#[test]
fn alpha_strings_are_lower_case_letters() {
    let text = alpha_string(500);
    assert_eq!(text.len(), 500);
    assert!(text.chars().all(|c| c.is_ascii_lowercase()));
    assert_eq!(alpha_string(0), "");
    assert_ne!(alpha_string(40), alpha_string(40));
}

#[test]
fn alphanumeric_strings_are_letters_and_digits() {
    let text = alphanumeric_string(2000);
    assert_eq!(text.len(), 2000);
    assert!(text.chars().all(|c| c.is_ascii_lowercase() || c.is_ascii_digit()));
    assert!(text.chars().any(|c| c.is_ascii_digit()));
    assert!(text.chars().any(|c| c.is_ascii_lowercase()));
    assert_eq!(alphanumeric_string(0), "");
}

#[test]
fn random_bytes_of_the_length_asked_for() {
    assert_eq!(ari::random::vec(0).len(), 0);
    assert_eq!(ari::random::vec(1).len(), 1);
    assert_eq!(ari::random::vec(1000).len(), 1000);
    assert_ne!(ari::random::vec(32), ari::random::vec(32));
    assert_ne!(ari::random::vec(64), vec![0u8; 64]);
}

#[test]
fn random_arrays() {
    assert_ne!(array_16(), array_16());
    assert_ne!(array_32(), array_32());
    assert_ne!(array_32(), [0u8; 32]);
}

fn digest(data: &[u8], algorithm: HashAlgorithm) -> String {
    to_hex(hash_slice(data, algorithm).as_ref())
}

#[test]
fn digests_of_abc() {
    assert_eq!(digest(b"abc", HashAlgorithm::Sha1), "a9993e364706816aba3e25717850c26c9cd0d89d");
    assert_eq!(
        digest(b"abc", HashAlgorithm::Sha256),
        "ba7816bf8f01cfea414140de5dae2223b00361a396177a9cb410ff61f20015ad"
    );
    assert_eq!(
        digest(b"abc", HashAlgorithm::Sha384),
        "cb00753f45a35e8bb5a03d699ac65007272c32ab0eded1631a8b605a43ff5bed8086072ba1e7cc2358baeca134c825a7"
    );
    assert_eq!(
        digest(b"abc", HashAlgorithm::Sha512),
        "ddaf35a193617abacc417349ae20413112e6fa4e89a97ea20a9eeee64b55d39a2192992a274fc1a836ba3c23a3feebbd454d4423643ce80e2a9ac94fa54ca49f"
    );
}

#[test]
fn digests_of_nothing() {
    assert_eq!(digest(b"", HashAlgorithm::Sha1), "da39a3ee5e6b4b0d3255bfef95601890afd80709");
    assert_eq!(
        digest(b"", HashAlgorithm::Sha256),
        "e3b0c44298fc1c149afbf4c8996fb92427ae41e4649b934ca495991b7852b855"
    );
}

#[test]
fn digests_have_the_length_of_their_algorithm() {
    assert_eq!(hash_slice(b"x", HashAlgorithm::Sha1).as_ref().len(), 20);
    assert_eq!(hash_slice(b"x", HashAlgorithm::Sha256).as_ref().len(), 32);
    assert_eq!(hash_slice(b"x", HashAlgorithm::Sha384).as_ref().len(), 48);
    assert_eq!(hash_slice(b"x", HashAlgorithm::Sha512).as_ref().len(), 64);
}

#[test]
fn a_digest_in_pieces_is_the_digest_of_the_whole() {
    let data: Vec<u8> = (0..1000u32).map(|i| (i * 7) as u8).collect();
    for algorithm in [HashAlgorithm::Sha1, HashAlgorithm::Sha256, HashAlgorithm::Sha384, HashAlgorithm::Sha512] {
        let whole = hash_slice(&data, algorithm);
        for size in [1usize, 7, 64, 128, 999, 1000] {
            let mut hash = IncrementalHash::new(algorithm);
            for chunk in data.chunks(size) {
                hash.update(chunk);
            }
            assert_eq!(hash.finish().as_ref(), whole.as_ref());
        }
        let mut hash = IncrementalHash::new(algorithm);
        hash.update(&[]);
        hash.update(&data);
        assert_eq!(hash.finish().as_ref(), whole.as_ref());
    }
}

#[test]
fn an_incremental_digest_of_nothing() {
    let hash = IncrementalHash::new(HashAlgorithm::Sha256);
    assert_eq!(
        to_hex(hash.finish().as_ref()),
        "e3b0c44298fc1c149afbf4c8996fb92427ae41e4649b934ca495991b7852b855"
    );
}
