//! Encryption of messages to public keys or to a passphrase, and trial
//! decryption with a set of identities or a passphrase, over the age format.
//!
//! The choice of credentials, the checks that come before any key is tried,
//! and the classification of failures are verified here; the cryptography
//! itself is done by the `age` crate.
mod backend;
mod cipher;
mod credential;
mod error;
mod identity;

pub use backend::{
    canonical_recipient_text, header_mode_of, identity_publics_of, is_recipient_text, opened_with, passphrase_plaintext,
};
pub use cipher::{
    all_acceptable_keys, all_public_texts, canonical_keys, decrypt, decrypt_refusal, encrypt,
    encrypt_refusal, is_acceptable_key, is_public_text, lemma_each_recipient_alone,
    lemma_exactly_one_credential, low_order_texts,
    lemma_passphrase_for_recipient_ciphertext, lemma_public_keys_accepted,
    lemma_round_trip_passphrase, lemma_round_trip_recipients, opens_for, optional_text,
    optional_texts, sealed_by, secrets_of, texts,
};
pub use credential::{exactly_one, select_credential, Credential, Mode};
pub use error::{classify, classify_spec, is_trial_error, Failure, PageError};
pub use identity::{is_usable_secret, Identity};
