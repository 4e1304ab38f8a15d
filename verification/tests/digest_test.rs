use furnace::digest::{hash_bytes, hash_text};

#[test]
fn digest_of_nothing() {
    assert_eq!(
        hash_bytes(b""),
        "e3b0c44298fc1c149afbf4c8996fb92427ae41e4649b934ca495991b7852b855"
    );
}

#[test]
fn digest_of_known_text() {
    assert_eq!(
        hash_text("abc"),
        "ba7816bf8f01cfea414140de5dae2223b00361a396177a9cb410ff61f20015ad"
    );
    assert_eq!(
        hash_bytes(b"hello world"),
        "b94d27b9934d3e08a52e52d7da7dabfac484efe37a5380ee9088f7ace2efcde9"
    );
}

#[test]
fn digest_is_deterministic() {
    let data: Vec<u8> = (0..=255u8).collect();
    assert_eq!(hash_bytes(&data), hash_bytes(&data));
    assert_eq!(hash_text("fn main() {}"), hash_text("fn main() {}"));
}

#[test]
fn digest_tells_different_bytes_apart() {
    assert_ne!(hash_text("fn a() {}"), hash_text("fn b() {}"));
    assert_ne!(hash_bytes(&[0]), hash_bytes(&[]));
    assert_ne!(hash_bytes(&[0]), hash_bytes(&[0, 0]));
}

#[test]
fn digest_is_sixty_four_lowercase_hex_digits() {
    let hash = hash_bytes(&[0xff, 0x00, 0xab]);
    assert_eq!(hash.len(), 64);
    assert!(hash.chars().all(|c| c.is_ascii_digit() || ('a'..='f').contains(&c)));
}

#[test]
fn digest_of_text_is_that_of_its_bytes() {
    let text = "héllo → wörld";
    assert_eq!(hash_text(text), hash_bytes(text.as_bytes()));
}
