use web_hook::get_token;
use web_hook::token::token_for;
use web_hook::token::token_from_digest;
use web_hook::token::token_material;
use web_hook::token::TOKEN_LEN;
use web_hook::AppData;

fn config(secret: &str) -> AppData {
    AppData {
        dir: String::from("./logs/web_hook_test"),
        secret: String::from(secret),
        ua: String::from("foobar"),
    }
}

fn is_url_safe(c: char) -> bool {
    c.is_ascii_alphanumeric() || c == '-' || c == '_'
}

#[test]
fn known_token_of_secret_and_timestamp() {
    let token = get_token(Some("123"), &config("12345"));
    assert_eq!(
        token,
        Some(String::from("sGUTG_BJFh9DRUcxsnMb0DyOq6iO09uCHonwLyvWGns"))
    );
    assert_eq!(
        token_for("12345", "123"),
        "sGUTG_BJFh9DRUcxsnMb0DyOq6iO09uCHonwLyvWGns"
    );
}

#[test]
fn no_timestamp_no_token() {
    assert_eq!(get_token(None, &config("12345")), None);
}

#[test]
fn derivation_repeats_itself() {
    let first = get_token(Some("1700000000"), &config("s3cret"));
    let second = get_token(Some("1700000000"), &config("s3cret"));
    assert!(first.is_some());
    assert_eq!(first, second);
}

#[test]
fn other_timestamp_other_token() {
    let a = token_for("12345", "123");
    let b = token_for("12345", "124");
    assert_ne!(a, b);
}

#[test]
fn other_secret_other_token() {
    let a = token_for("12345", "123");
    let b = token_for("12346", "123");
    assert_ne!(a, b);
}

#[test]
fn token_is_not_its_material() {
    let text = token_material("12345", "123");
    let token = token_for("12345", "123");
    assert_ne!(token, text);
    assert!(!token.contains("12345"));
}

#[test]
fn tokens_have_one_length_and_one_alphabet() {
    for (secret, ts) in [("12345", "123"), ("", ""), ("pässwörd", "2024-01-01T00:00:00Z")] {
        let token = token_for(secret, ts);
        assert_eq!(token.chars().count(), TOKEN_LEN);
        assert!(token.chars().all(is_url_safe));
    }
}

#[test]
fn material_wraps_the_timestamp_in_the_secret() {
    assert_eq!(token_material("12345", "123"), "12345!!123##12345");
    assert_eq!(token_material("", ""), "!!##");
    assert_eq!(token_material("k", "中文"), "k!!中文##k");
}

#[test]
fn material_can_coincide_where_both_parts_differ() {
    assert_eq!(token_material("", "##!!X##!!"), token_material("!!##", "X"));
    assert_eq!(token_for("", "##!!X##!!"), token_for("!!##", "X"));
}

#[test]
fn digest_text_of_zeros_and_ones() {
    assert_eq!(token_from_digest(&[0u8; 32]), "A".repeat(43));
    assert_eq!(token_from_digest(&[0xffu8; 32]), format!("{}8", "_".repeat(42)));
}

#[test]
fn digest_text_uses_the_url_safe_symbols() {
    assert_eq!(
        token_from_digest(&[0xfbu8; 32]),
        "-_v7-_v7-_v7-_v7-_v7-_v7-_v7-_v7-_v7-_v7-_s"
    );
}

#[test]
fn digest_text_of_counted_bytes() {
    let mut counted = [0u8; 32];
    for (i, b) in counted.iter_mut().enumerate() {
        *b = i as u8;
    }
    assert_eq!(
        token_from_digest(&counted),
        "AAECAwQFBgcICQoLDA0ODxAREhMUFRYXGBkaGxwdHh8"
    );
}

#[test]
fn digest_text_of_a_known_digest() {
    let digest: [u8; 32] = [
        0xb0, 0x65, 0x13, 0x1b, 0xf0, 0x49, 0x16, 0x1f, 0x43, 0x45, 0x47, 0x31, 0xb2, 0x73, 0x1b,
        0xd0, 0x3c, 0x8e, 0xab, 0xa8, 0x8e, 0xd3, 0xdb, 0x82, 0x1e, 0x89, 0xf0, 0x2f, 0x2b, 0xd6,
        0x1a, 0x7b,
    ];
    assert_eq!(
        token_from_digest(&digest),
        "sGUTG_BJFh9DRUcxsnMb0DyOq6iO09uCHonwLyvWGns"
    );
}

#[test]
fn token_of_empty_secret_and_timestamp() {
    assert_eq!(token_material("", ""), "!!##");
    assert_eq!(token_for("", ""), "TPzODqxtIvYSayvBkeqapkOyuxDrN854YT7ovONS9WI");
}
