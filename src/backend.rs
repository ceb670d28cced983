//! The calls into the `age` crate, each with what this library relies on.
use std::io::{Read, Write};

use age::x25519::Identity as AgeIdentity;
use secrecy::ExposeSecret;
use vstd::prelude::*;

use crate::credential::Mode;
use crate::cipher::{canonical_keys, is_acceptable_key, is_public_text, opens_for, secrets_of, texts};
use crate::error::Failure;
use crate::identity::Identity;

verus! {

#[verifier::external_type_specification]
#[verifier::external_body]
pub struct ExSecretIdentity(AgeIdentity);

#[verifier::external_type_specification]
#[verifier::external_body]
pub struct ExDecryptError(age::DecryptError);

/// The public key, in text form, of each identity that
/// `age::IdentityFile::from_buffer` reads from a secret text, in order; `None`
/// where it refuses the text.
pub uninterp spec fn identity_publics_of(secret: Seq<char>) -> Option<Seq<Seq<char>>>;

/// Whether `age::x25519::Recipient::from_str` accepts a text as a public key.
pub uninterp spec fn is_recipient_text(text: Seq<char>) -> bool;

/// The text form that `age::x25519::Recipient::from_str` followed by its
/// `to_string` gives for a public-key text: lower case, and the same form
/// `to_public` of an identity yields for the same key bytes.
pub uninterp spec fn canonical_recipient_text(text: Seq<char>) -> Seq<char>;

/// The mode that `age::Decryptor::new` finds in a ciphertext's header, or
/// `None` where it refuses the header.
pub uninterp spec fn header_mode_of(ciphertext: Seq<u8>) -> Option<Mode>;

/// The plaintext that `RecipientsDecryptor::decrypt` and reading its stream
/// give for a ciphertext and the keys read from a list of secret texts, or
/// `None` where they fail.
pub uninterp spec fn opened_with(ciphertext: Seq<u8>, secrets: Seq<Seq<char>>) -> Option<Seq<u8>>;

/// The plaintext that `PassphraseDecryptor::decrypt` and reading its stream
/// give for a ciphertext and a passphrase, where they succeed.
pub uninterp spec fn passphrase_plaintext(ciphertext: Seq<u8>, passphrase: Seq<char>) -> Seq<u8>;

/// Relies on `age::IdentityFile::from_buffer`, which reads one identity from
/// each line that is neither empty nor a comment and refuses a text with any
/// other line, and on `to_public` with the recipient's text form, which
/// `Recipient::from_str` accepts and gives back unchanged; a clamped scalar
/// times the base point is never a point of small order. The result depends on the text alone.
#[verifier::external_body]
pub(crate) fn parse_identities(secret: &str) -> (r: Option<(Vec<AgeIdentity>, Vec<String>)>)
    ensures
        r is None <==> identity_publics_of(secret@) is None,
        r matches Some((keys, publics)) ==> {
            &&& identity_publics_of(secret@) == Some(texts(publics))
            &&& keys@.len() == publics@.len()
            &&& forall|i: int| 0 <= i < publics@.len() ==> is_public_text(#[trigger] publics@[i]@)
        },
{
    let file = age::IdentityFile::from_buffer(secret.as_bytes()).ok()?;
    let (mut keys, mut publics) = (Vec::new(), Vec::new());
    for entry in file.into_identities() {
        let age::IdentityFileEntry::Native(key) = entry;
        publics.push(key.to_public().to_string());
        keys.push(key);
    }
    Some((keys, publics))
}

/// Relies on `age::x25519::Identity::generate`, a key from the system's
/// random source, and on its `to_string`: one line in the text form that
/// `from_buffer` reads back as one identity.
#[verifier::external_body]
pub(crate) fn generate_secret() -> (r: String)
    ensures
        identity_publics_of(r@) is Some,
        identity_publics_of(r@).unwrap().len() == 1,
{
    AgeIdentity::generate().to_string().expose_secret().clone()
}

/// Relies on `age::x25519::Recipient::from_str` and the recipient's text
/// form; whether it accepts a text, and the form it gives back, depend on the
/// text alone.
#[verifier::external_body]
pub(crate) fn canonical_recipient(text: &str) -> (r: Option<String>)
    ensures
        r is Some == is_recipient_text(text@),
        r matches Some(c) ==> c@ == canonical_recipient_text(text@),
{
    text.parse::<age::x25519::Recipient>().ok().map(|k| k.to_string())
}

/// Relies on `Recipient::from_str`, `age::Encryptor::with_recipients` and
/// `wrap_output` into memory. On a non-empty list of valid keys none of which
/// is a low-order point (for those, `wrap_file_key` panics on the all-zero
/// shared secret) none of them fails. The header holds one X25519 stanza per
/// key and no scrypt stanza, and an identity whose public key is one of the
/// keys unwraps its stanza; other identities and the grease stanza give no
/// file key and no error.
#[verifier::external_body]
pub(crate) fn seal_to_recipients(keys: &Vec<String>, message: &[u8]) -> (r: Option<Vec<u8>>)
    requires
        keys@.len() > 0,
        forall|i: int| 0 <= i < keys@.len() ==> is_acceptable_key(#[trigger] keys@[i]@),
    ensures
        r is Some,
        r matches Some(c) ==> header_mode_of(c@) == Some(Mode::Recipients),
        r matches Some(c) ==> forall|secrets: Seq<Seq<char>>|
            opens_for(secrets, canonical_keys(texts(*keys))) ==> #[trigger] opened_with(
                c@,
                secrets,
            ) == Some(message@),
{
    let mut parsed: Vec<Box<dyn age::Recipient + Send>> = Vec::new();
    for key in keys {
        parsed.push(Box::new(key.parse::<age::x25519::Recipient>().ok()?));
    }
    let encryptor = age::Encryptor::with_recipients(parsed)?;
    let mut out = Vec::new();
    let mut writer = encryptor.wrap_output(&mut out).ok()?;
    writer.write_all(message).ok()?;
    writer.finish().ok()?;
    Some(out)
}

/// Relies on `age::Encryptor::with_user_passphrase` and `wrap_output` into
/// memory, which do not fail: the header holds exactly one scrypt stanza, and
/// where the same passphrase opens the ciphertext it gives the message back.
#[verifier::external_body]
pub(crate) fn seal_with_passphrase(passphrase: String, message: &[u8]) -> (r: Option<Vec<u8>>)
    ensures
        r is Some,
        r matches Some(c) ==> header_mode_of(c@) == Some(Mode::Passphrase),
        r matches Some(c) ==> passphrase_plaintext(c@, passphrase@) == message@,
{
    let encryptor = age::Encryptor::with_user_passphrase(secrecy::Secret::new(passphrase));
    let mut out = Vec::new();
    let mut writer = encryptor.wrap_output(&mut out).ok()?;
    writer.write_all(message).ok()?;
    writer.finish().ok()?;
    Some(out)
}

/// Relies on `age::Decryptor::new`, which reads the header and tells the two
/// modes apart; the result depends on the bytes alone.
#[verifier::external_body]
pub(crate) fn ciphertext_mode(ciphertext: &[u8]) -> (r: Option<Mode>)
    ensures
        r == header_mode_of(ciphertext@),
{
    match age::Decryptor::new(ciphertext) {
        Ok(age::Decryptor::Recipients(_)) => Some(Mode::Recipients),
        Ok(age::Decryptor::Passphrase(_)) => Some(Mode::Passphrase),
        Err(_) => None,
    }
}

/// Relies on `age::decryptor::RecipientsDecryptor::decrypt`, which tries the
/// identities' keys in order against the stanzas and checks the header's tag,
/// and on reading its payload stream to the end, which checks every chunk.
/// Each identity's keys are those `from_buffer` reads from its secret text.
/// The mode is checked by the caller, so the passphrase arm is never taken.
#[verifier::external_body]
pub(crate) fn open_with_identities(ciphertext: &[u8], identities: &Vec<Identity>) -> (r: Result<
    Vec<u8>,
    age::DecryptError,
>)
    requires
        header_mode_of(ciphertext@) == Some(Mode::Recipients),
    ensures
        r is Ok <==> opened_with(ciphertext@, secrets_of(identities@)) is Some,
        r matches Ok(p) ==> opened_with(ciphertext@, secrets_of(identities@)) == Some(p@),
{
    let decryptor = match age::Decryptor::new(ciphertext)? {
        age::Decryptor::Recipients(d) => d,
        age::Decryptor::Passphrase(_) => return Err(age::DecryptError::NoMatchingKeys),
    };
    let keys = identities.iter().flat_map(|i| i.age_keys().iter());
    let mut reader = decryptor.decrypt(keys.map(|k| k as &dyn age::Identity))?;
    let mut out = Vec::new();
    reader.read_to_end(&mut out)?;
    Ok(out)
}

/// Relies on `age::decryptor::PassphraseDecryptor::decrypt` with the default
/// work limit, and on reading its payload stream to the end. Whether it
/// succeeds also depends on how fast this machine runs scrypt; what it
/// returns when it does depends on the ciphertext and passphrase alone. The
/// mode is checked by the caller, so the recipients arm is never taken.
#[verifier::external_body]
pub(crate) fn open_with_passphrase(ciphertext: &[u8], passphrase: String) -> (r: Result<
    Vec<u8>,
    age::DecryptError,
>)
    requires
        header_mode_of(ciphertext@) == Some(Mode::Passphrase),
    ensures
        r matches Ok(p) ==> p@ == passphrase_plaintext(ciphertext@, passphrase@),
{
    let decryptor = match age::Decryptor::new(ciphertext)? {
        age::Decryptor::Passphrase(d) => d,
        age::Decryptor::Recipients(_) => return Err(age::DecryptError::NoMatchingKeys),
    };
    let mut reader = decryptor.decrypt(&secrecy::Secret::new(passphrase), None)?;
    let mut out = Vec::new();
    reader.read_to_end(&mut out)?;
    Ok(out)
}

/// Relies on the variants of `age::DecryptError`, and on
/// `std::io::ErrorKind::UnexpectedEof` for a stream that ended too early.
#[verifier::external_body]
pub(crate) fn failure_of(e: &age::DecryptError) -> (r: Failure) {
    match e {
        age::DecryptError::DecryptionFailed => Failure::DecryptionFailed,
        age::DecryptError::ExcessiveWork { .. } => Failure::ExcessiveWork,
        age::DecryptError::InvalidHeader => Failure::InvalidHeader,
        age::DecryptError::InvalidMac => Failure::InvalidMac,
        age::DecryptError::Io(io) if io.kind() == std::io::ErrorKind::UnexpectedEof => Failure::EndOfInput,
        age::DecryptError::Io(_) => Failure::Input,
        age::DecryptError::KeyDecryptionFailed => Failure::KeyDecryptionFailed,
        age::DecryptError::NoMatchingKeys => Failure::NoMatchingKeys,
        age::DecryptError::UnknownFormat => Failure::UnknownFormat,
    }
}

} // verus!
