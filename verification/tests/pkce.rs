use dj_uploader::pkce::{
    generate_code_challenge, generate_code_verifier, generate_state, PkceMaterial,
};

fn is_url_safe(c: char) -> bool {
    c.is_ascii_alphanumeric() || c == '-' || c == '_'
}

#[test]
fn challenge_matches_the_published_example() {
    assert_eq!(
        generate_code_challenge("dBjftJeZ4CVP-mB92K27uhbUJU1p1r_wW1gFWFOEjXk"),
        "E9Melhoa2OwvFrEMTJguCHaoeK1t8URWbuGJSstw-cM"
    );
}

#[test]
fn challenge_of_the_empty_verifier() {
    assert_eq!(generate_code_challenge(""), "47DEQpj8HBSa-_TImW-5JCeuQeRkm5NMpJWZG3hSuFU");
}

#[test]
fn challenge_is_deterministic() {
    let verifier = generate_code_verifier();
    let first = generate_code_challenge(&verifier);
    let second = generate_code_challenge(&verifier);
    assert_eq!(first, second);
    assert_ne!(first, verifier);
    assert_eq!(first.len(), 43);
    assert!(first.chars().all(is_url_safe));
}

#[test]
fn challenge_hashes_the_bytes_of_the_text() {
    assert_ne!(generate_code_challenge("abc"), generate_code_challenge("abd"));
    assert_eq!(generate_code_challenge("\u{e9}").len(), 43);
    assert_ne!(generate_code_challenge("\u{e9}"), generate_code_challenge("e"));
}

#[test]
fn verifier_encodes_thirty_two_bytes() {
    let verifier = generate_code_verifier();
    assert_eq!(verifier.len(), 43);
    assert!(verifier.chars().all(is_url_safe));
    assert_ne!(verifier, generate_code_verifier());
}

#[test]
fn state_is_thirty_two_letters_and_digits() {
    let state = generate_state();
    assert_eq!(state.chars().count(), 32);
    assert!(state.chars().all(|c| c.is_ascii_alphanumeric()));
    assert_ne!(state, generate_state());
}

#[test]
fn material_pairs_verifier_and_challenge() {
    let material = PkceMaterial::generate();
    assert_eq!(material.challenge, generate_code_challenge(&material.verifier));
    let given = PkceMaterial::from_verifier("dBjftJeZ4CVP-mB92K27uhbUJU1p1r_wW1gFWFOEjXk".to_string());
    assert_eq!(given.verifier, "dBjftJeZ4CVP-mB92K27uhbUJU1p1r_wW1gFWFOEjXk");
    assert_eq!(given.challenge, "E9Melhoa2OwvFrEMTJguCHaoeK1t8URWbuGJSstw-cM");
}
