use page::{
    classify, decrypt, encrypt, select_credential, Credential, Failure, Identity,
    Mode, PageError,
};

const SECRET_A: &str = "AGE-SECRET-KEY-1YZVY3YTS3LQQ40WS0SQ6WUX0RGXQMWV92RJN8AF0E29ZE9ELF02SHDK39M";
const SECRET_B: &str = "AGE-SECRET-KEY-1ZT65FCLJ4AESVQTYG9CGGEVGETELTRMVC9649GN9V92TUU3TA53SNKC8J6";
const SECRET_C: &str = "AGE-SECRET-KEY-1395K0UCNFSMT6EFDCY4JAY2SX5Q94ELRCFC5G9E7383JCERYN02SYZWW48";
const KNOWN_SECRET: &str =
    "AGE-SECRET-KEY-1GQ9778VQXMMJVE8SK7J6VT8UJ4HDQAJUVSFCWCM02D8GEWQ72PVQ2Y5J33";
const KNOWN_PUBLIC: &str = "age1t7rxyev2z3rw82stdlrrepyc39nvn86l5078zqkf5uasdy86jp6svpy7pa";

fn identity(secret: &str) -> Identity {
    Identity::from_secret(secret.to_string()).expect("valid secret")
}

fn public_of(secret: &str) -> Vec<String> {
    identity(secret).public()
}

fn header_len(ciphertext: &[u8]) -> usize {
    let marker = b"\n--- ";
    let start = ciphertext
        .windows(marker.len())
        .position(|w| w == marker)
        .expect("header has a tag line");
    let end = ciphertext[start + 1..]
        .iter()
        .position(|b| *b == b'\n')
        .expect("tag line ends");
    start + 1 + end + 1
}

#[test]
fn round_trip_to_recipients() {
    let message = b"attack at dawn".to_vec();
    let ciphertext = encrypt(&message, Some(public_of(SECRET_A)), None).unwrap();
    assert_ne!(ciphertext, message);
    let plain = decrypt(&ciphertext, Some(vec![identity(SECRET_A)]), None).unwrap();
    assert_eq!(plain, message);
}

#[test]
fn round_trip_with_passphrase() {
    let message = b"the passphrase mode".to_vec();
    let ciphertext = encrypt(&message, None, Some("correct horse".to_string())).unwrap();
    let plain = decrypt(&ciphertext, None, Some("correct horse".to_string())).unwrap();
    assert_eq!(plain, message);
}

#[test]
fn wrong_passphrase_fails() {
    let ciphertext = encrypt(b"hidden", None, Some("one".to_string())).unwrap();
    assert_eq!(
        decrypt(&ciphertext, None, Some("two".to_string())),
        Err(PageError::DecryptionFailed)
    );
}

#[test]
fn identity_not_among_recipients_fails() {
    let ciphertext = encrypt(b"for a only", Some(public_of(SECRET_A)), None).unwrap();
    assert_eq!(
        decrypt(&ciphertext, Some(vec![identity(SECRET_B)]), None),
        Err(PageError::DecryptionFailed)
    );
}

#[test]
fn passphrase_offered_for_recipient_ciphertext() {
    let ciphertext = encrypt(b"message", Some(public_of(SECRET_A)), None).unwrap();
    assert_eq!(
        decrypt(&ciphertext, None, Some("any passphrase".to_string())),
        Err(PageError::ModeMismatch)
    );
}

#[test]
fn identities_offered_for_passphrase_ciphertext() {
    let ciphertext = encrypt(b"message", None, Some("pw".to_string())).unwrap();
    assert_eq!(
        decrypt(&ciphertext, Some(vec![identity(SECRET_A)]), None),
        Err(PageError::ModeMismatch)
    );
}

#[test]
fn flipped_payload_bit_fails_integrity() {
    let message = vec![7u8; 1000];
    let ciphertext = encrypt(&message, Some(public_of(SECRET_A)), None).unwrap();
    let start = header_len(&ciphertext);
    for pos in [start, start + 16, start + 500, ciphertext.len() - 1] {
        for bit in [0u8, 3, 7] {
            let mut tampered = ciphertext.clone();
            tampered[pos] ^= 1 << bit;
            assert_eq!(
                decrypt(&tampered, Some(vec![identity(SECRET_A)]), None),
                Err(PageError::Integrity)
            );
        }
    }
}

#[test]
fn flipped_header_bit_never_yields_plaintext() {
    let ciphertext = encrypt(b"short", Some(public_of(SECRET_A)), None).unwrap();
    let end = header_len(&ciphertext);
    for pos in 0..end {
        for bit in 0..8u8 {
            let mut tampered = ciphertext.clone();
            tampered[pos] ^= 1 << bit;
            assert!(decrypt(&tampered, Some(vec![identity(SECRET_A)]), None).is_err());
        }
    }
}

#[test]
fn flipped_tag_bit_fails_integrity() {
    let ciphertext = encrypt(b"short", Some(public_of(SECRET_A)), None).unwrap();
    let end = header_len(&ciphertext);
    // Flipping the case of a letter inside the tag line keeps the header
    // readable and changes the tag itself.
    let tag_start = end - 44;
    let pos = (tag_start..end - 2)
        .find(|i| ciphertext[*i].is_ascii_alphabetic())
        .expect("the tag holds a letter");
    let mut tampered = ciphertext.clone();
    tampered[pos] ^= 0x20;
    assert_eq!(
        decrypt(&tampered, Some(vec![identity(SECRET_A)]), None),
        Err(PageError::Integrity)
    );
}

#[test]
fn both_or_neither_credential_is_usage_error() {
    assert_eq!(
        encrypt(b"m", Some(public_of(SECRET_A)), Some("p".to_string())),
        Err(PageError::Usage)
    );
    assert_eq!(encrypt(b"m", None, None), Err(PageError::Usage));
    let ciphertext = encrypt(b"m", Some(public_of(SECRET_A)), None).unwrap();
    assert_eq!(
        decrypt(&ciphertext, Some(vec![identity(SECRET_A)]), Some("p".to_string())),
        Err(PageError::Usage)
    );
    assert_eq!(decrypt(&ciphertext, None, None), Err(PageError::Usage));
}

#[test]
fn empty_recipient_list_is_usage_error() {
    assert_eq!(encrypt(b"m", Some(Vec::new()), None), Err(PageError::Usage));
}

#[test]
fn each_of_two_recipients_decrypts_alone() {
    let message = b"shared".to_vec();
    let mut keys = public_of(SECRET_A);
    keys.extend(public_of(SECRET_B));
    let ciphertext = encrypt(&message, Some(keys), None).unwrap();
    assert_eq!(decrypt(&ciphertext, Some(vec![identity(SECRET_A)]), None).unwrap(), message);
    assert_eq!(decrypt(&ciphertext, Some(vec![identity(SECRET_B)]), None).unwrap(), message);
    assert_eq!(
        decrypt(&ciphertext, Some(vec![identity(SECRET_C)]), None),
        Err(PageError::DecryptionFailed)
    );
}

#[test]
fn later_candidate_identity_is_tried() {
    let ciphertext = encrypt(b"second fits", Some(public_of(SECRET_B)), None).unwrap();
    let ids = vec![identity(SECRET_C), identity(SECRET_A), identity(SECRET_B)];
    assert_eq!(decrypt(&ciphertext, Some(ids), None).unwrap(), b"second fits".to_vec());
}

#[test]
fn empty_message_round_trips() {
    let ciphertext = encrypt(b"", Some(public_of(SECRET_A)), None).unwrap();
    assert_eq!(decrypt(&ciphertext, Some(vec![identity(SECRET_A)]), None).unwrap(), Vec::<u8>::new());
}

#[test]
fn large_message_round_trips_and_truncation_fails() {
    let message: Vec<u8> = (0..200_000u32).map(|i| (i % 251) as u8).collect();
    let ciphertext = encrypt(&message, Some(public_of(SECRET_A)), None).unwrap();
    assert_eq!(decrypt(&ciphertext, Some(vec![identity(SECRET_A)]), None).unwrap(), message);
    let cut = &ciphertext[..ciphertext.len() - 100];
    let r = decrypt(cut, Some(vec![identity(SECRET_A)]), None);
    assert!(r == Err(PageError::Truncation) || r == Err(PageError::Integrity));
    let whole_chunks = &ciphertext[..header_len(&ciphertext) + 16 + 2 * (65536 + 16)];
    let r = decrypt(whole_chunks, Some(vec![identity(SECRET_A)]), None);
    assert!(r == Err(PageError::Truncation) || r == Err(PageError::Integrity));
}

#[test]
fn malformed_public_key_is_key_format_error() {
    let mut keys = public_of(SECRET_A);
    keys.push("age1notakey".to_string());
    assert_eq!(encrypt(b"m", Some(keys), None), Err(PageError::KeyFormat));
}

#[test]
fn garbage_ciphertext_is_format_error() {
    assert_eq!(
        decrypt(b"not an age file at all\n", Some(vec![identity(SECRET_A)]), None),
        Err(PageError::Format)
    );
    assert_eq!(decrypt(b"", None, Some("p".to_string())), Err(PageError::Format));
}

#[test]
fn known_secret_gives_known_public_key() {
    assert_eq!(public_of(KNOWN_SECRET), vec![KNOWN_PUBLIC.to_string()]);
}

#[test]
fn multi_line_secret_gives_one_key_per_line() {
    let secret = format!("# two keys\n{}\n\n{}\n", SECRET_A, KNOWN_SECRET);
    let id = Identity::new(secret).unwrap();
    let public = id.public();
    assert_eq!(public.len(), 2);
    assert_eq!(public[0], public_of(SECRET_A)[0]);
    assert_eq!(public[1], KNOWN_PUBLIC.to_string());
    let ciphertext = encrypt(b"either key", Some(vec![KNOWN_PUBLIC.to_string()]), None).unwrap();
    assert_eq!(decrypt(&ciphertext, Some(vec![id]), None).unwrap(), b"either key".to_vec());
}

#[test]
fn malformed_secret_is_format_error() {
    assert!(matches!(Identity::from_secret("not a key".to_string()), Err(PageError::Format)));
    assert!(matches!(Identity::from_secret(String::new()), Err(PageError::Format)));
    assert!(matches!(Identity::new("# only a comment\n".to_string()), Err(PageError::Format)));
}

#[test]
fn generated_identity_round_trips() {
    let id = Identity::generate().unwrap();
    let public = id.public();
    assert_eq!(public.len(), 1);
    assert!(public[0].starts_with("age1"));
    let other = Identity::generate().unwrap();
    assert_ne!(other.public(), public);
    let ciphertext = encrypt(b"fresh", Some(public), None).unwrap();
    assert_eq!(decrypt(&ciphertext, Some(vec![id]), None).unwrap(), b"fresh".to_vec());
}

#[test]
fn secret_key_is_no_public_key() {
    let keys = vec![KNOWN_PUBLIC.to_string(), KNOWN_SECRET.to_string()];
    assert_eq!(encrypt(b"m", Some(keys), None), Err(PageError::KeyFormat));
    let one = vec![KNOWN_PUBLIC.to_string()];
    assert!(encrypt(b"m", Some(one), None).is_ok());
}

#[test]
fn public_keys_are_stable_across_reads() {
    let first = Identity::new(SECRET_B.to_string()).unwrap().public();
    let second = Identity::from_secret(SECRET_B.to_string()).unwrap().public();
    assert_eq!(first, second);
    assert_eq!(first.len(), 1);
    assert!(first[0].starts_with("age1"));
}

#[test]
fn select_credential_cases() {
    assert!(matches!(
        select_credential::<u8>(Some(vec![1]), None),
        Ok(Credential::Keys(k)) if k == vec![1]
    ));
    assert!(matches!(
        select_credential::<u8>(None, Some("p".to_string())),
        Ok(Credential::Passphrase(p)) if p == "p"
    ));
    assert!(matches!(select_credential::<u8>(None, None), Err(PageError::Usage)));
    assert!(matches!(
        select_credential::<u8>(Some(vec![]), Some("p".to_string())),
        Err(PageError::Usage)
    ));
    assert_eq!(Credential::<u8>::Keys(vec![]).mode(), Mode::Recipients);
    assert_eq!(Credential::<u8>::Passphrase(String::new()).mode(), Mode::Passphrase);
}

#[test]
fn classify_collapses_key_failures() {
    assert_eq!(classify(Failure::DecryptionFailed), PageError::DecryptionFailed);
    assert_eq!(classify(Failure::ExcessiveWork), PageError::DecryptionFailed);
    assert_eq!(classify(Failure::KeyDecryptionFailed), PageError::DecryptionFailed);
    assert_eq!(classify(Failure::NoMatchingKeys), PageError::DecryptionFailed);
    assert_eq!(classify(Failure::InvalidHeader), PageError::Format);
    assert_eq!(classify(Failure::UnknownFormat), PageError::Format);
    assert_eq!(classify(Failure::InvalidMac), PageError::Integrity);
    assert_eq!(classify(Failure::EndOfInput), PageError::Truncation);
    assert_eq!(classify(Failure::Input), PageError::Integrity);
}

#[test]
fn exported_secret_reads_back() {
    let id = identity(KNOWN_SECRET);
    let secret = id.export_secret();
    assert_eq!(secret, KNOWN_SECRET.to_string());
    assert_eq!(identity(&secret).public(), vec![KNOWN_PUBLIC.to_string()]);
}

#[test]
fn empty_candidate_list_fails_generically() {
    let ciphertext = encrypt(b"nobody", Some(public_of(SECRET_A)), None).unwrap();
    assert_eq!(decrypt(&ciphertext, Some(Vec::new()), None), Err(PageError::DecryptionFailed));
}

#[test]
fn low_order_public_keys_are_refused() {
    let zero = "age1qqqqqqqqqqqqqqqqqqqqqqqqqqqqqqqqqqqqqqqqqqqqqqqqqqqq5cu47z".to_string();
    assert_eq!(encrypt(b"m", Some(vec![zero]), None), Err(PageError::KeyFormat));
    let order_eight = "age1ur4h5lpmgxu2u9jku0a0r87ydtdqnr0tnsetrlvxvgz3vh6fhqqqzyt4v9".to_string();
    let keys = vec![KNOWN_PUBLIC.to_string(), order_eight];
    assert_eq!(encrypt(b"m", Some(keys), None), Err(PageError::KeyFormat));
    let minus_one = "age1anlllllllllllllllllllllllllllllllllllllllllllllllals4n2t7m".to_string();
    assert_eq!(encrypt(b"m", Some(vec![minus_one]), None), Err(PageError::KeyFormat));
}

#[test]
fn upper_case_public_key_reaches_its_identity() {
    let upper = public_of(SECRET_A)[0].to_uppercase();
    let ciphertext = encrypt(b"shouted", Some(vec![upper]), None).unwrap();
    assert_eq!(decrypt(&ciphertext, Some(vec![identity(SECRET_A)]), None).unwrap(), b"shouted".to_vec());
}
