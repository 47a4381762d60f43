//! Turning a vault document into encrypted vault text and back. The cipher
//! format is Ansible Vault 1.1; the plaintext is a YAML mapping of strings.
use std::collections::BTreeMap;
use std::string::FromUtf8Error;

use vstd::prelude::*;
use vstd::utf8::{decode_utf8, valid_utf8};

use crate::document::{entries_map, unique_names, VaultDocument};
use crate::error::VaultSecretError;

verus! {

broadcast use vstd::utf8::group_utf8_lib;

#[verifier::external_type_specification]
#[verifier::external_body]
pub struct ExVaultError(ansible_vault::VaultError);

#[verifier::external_type_specification]
#[verifier::external_body]
pub struct ExYamlError(serde_yaml::Error);

#[verifier::external_type_specification]
#[verifier::external_body]
pub struct ExFromUtf8Error(FromUtf8Error);

/// What `ansible_vault::decrypt_vault` yields for vault text under a password:
/// the plaintext bytes, or nothing when it fails.
pub uninterp spec fn vault_plaintext(armored: Seq<u8>, password: Seq<char>) -> Option<Seq<u8>>;

/// What `serde_yaml::from_str` yields for a YAML text read as a mapping of
/// strings to strings, or nothing when it fails.
pub uninterp spec fn yaml_string_map(text: Seq<char>) -> Option<Map<Seq<char>, Seq<char>>>;

/// The first line of every vault text: `$ANSIBLE_VAULT;1.1;AES256` and a newline.
pub open spec fn vault_header() -> Seq<u8> {
    seq![36u8, 65, 78, 83, 73, 66, 76, 69, 95, 86, 65, 85, 76, 84, 59, 49, 46, 49, 59, 65, 69, 83, 50, 53, 54, 10]
}

/// The bytes begin with the vault header line.
pub open spec fn has_vault_header(c: Seq<u8>) -> bool {
    c.len() >= vault_header().len() && c.subrange(0, vault_header().len() as int) == vault_header()
}

/// Relies on `ansible_vault::encrypt_vault`: on a byte slice it has no failing
/// path (reading a slice, padding a buffer sized for it, fixed key and IV
/// sizes, hex output); its text starts with the 1.1 header line and decrypts,
/// under the same password, to the input bytes (the crate's documented round
/// trip). The salt is random, so nothing more is said of the text.
#[verifier::external_body]
fn seal(plain: &[u8], password: &str) -> (r: Result<Vec<u8>, ansible_vault::VaultError>)
    ensures
        r is Ok,
        r matches Ok(c) ==> vault_plaintext(c@, password@) == Some(plain@),
        r matches Ok(c) ==> has_vault_header(c@),
{
    ansible_vault::encrypt_vault(plain, password).map(String::into_bytes)
}

/// Relies on `ansible_vault::decrypt_vault`: header check, integrity check and
/// decryption, a function of the text and the password alone.
#[verifier::external_body]
fn unseal(armored: &[u8], password: &str) -> (r: Result<Vec<u8>, ansible_vault::VaultError>)
    ensures
        match r {
            Ok(p) => vault_plaintext(armored@, password@) == Some(p@),
            Err(_) => vault_plaintext(armored@, password@) is None,
        },
{
    ansible_vault::decrypt_vault(armored, password)
}

/// Relies on `String::from_utf8`: succeeds exactly on valid UTF-8 and then holds
/// the decoded characters.
#[verifier::external_body]
fn utf8_text(bytes: Vec<u8>) -> (r: Result<String, FromUtf8Error>)
    ensures
        match r {
            Ok(s) => valid_utf8(bytes@) && s@ == decode_utf8(bytes@),
            Err(_) => !valid_utf8(bytes@),
        },
{
    String::from_utf8(bytes)
}

/// Relies on `serde_yaml::from_str` into a `BTreeMap<String, String>`, handed
/// on as its entries; the keys of a map are distinct.
#[verifier::external_body]
pub(crate) fn parse_yaml_map(text: &str) -> (r: Result<Vec<(String, String)>, serde_yaml::Error>)
    ensures
        match r {
            Ok(v) => unique_names(v@) && yaml_string_map(text@) == Some(entries_map(v@)),
            Err(_) => yaml_string_map(text@) is None,
        },
{
    serde_yaml::from_str::<BTreeMap<String, String>>(text).map(|m| m.into_iter().collect())
}

/// Relies on `serde_yaml::to_string` on a `BTreeMap<String, String>`: a map of
/// strings always serializes (string scalars into an in-memory writer), and the
/// text reads back through `serde_yaml::from_str` as the same map. The emitter
/// falls back to double-quoted escapes wherever another style would change a
/// string, and the reader takes any scalar into a `String` verbatim.
#[verifier::external_body]
pub(crate) fn yaml_text(entries: &Vec<(String, String)>) -> (r: Result<String, serde_yaml::Error>)
    requires
        unique_names(entries@),
    ensures
        r is Ok,
        r matches Ok(t) ==> yaml_string_map(t@) == Some(entries_map(entries@)),
{
    serde_yaml::to_string(&entries.iter().cloned().collect::<BTreeMap<String, String>>())
}

/// The document that vault text holds under a password, or the first step
/// that fails: decryption, UTF-8 decoding, or reading the YAML mapping.
pub open spec fn document_of_vault(armored: Seq<u8>, password: Seq<char>) -> Result<
    Map<Seq<char>, Seq<char>>,
    VaultSecretError,
> {
    match vault_plaintext(armored, password) {
        None => Err(VaultSecretError::DecryptionFailure),
        Some(bytes) => if !valid_utf8(bytes) {
            Err(VaultSecretError::NotUtf8)
        } else {
            match yaml_string_map(decode_utf8(bytes)) {
                None => Err(VaultSecretError::MalformedDocument),
                Some(m) => Ok(m),
            }
        },
    }
}

/// Decrypts vault text and reads the document inside.
pub fn decrypt_document(armored: &[u8], password: &str) -> (r: Result<VaultDocument, VaultSecretError>)
    ensures
        match r {
            Ok(d) => d.wf() && document_of_vault(armored@, password@) == Ok::<
                Map<Seq<char>, Seq<char>>,
                VaultSecretError,
            >(d@),
            Err(e) => document_of_vault(armored@, password@) == Err::<
                Map<Seq<char>, Seq<char>>,
                VaultSecretError,
            >(e),
        },
{
    let bytes = match unseal(armored, password) {
        Ok(b) => b,
        Err(_) => return Err(VaultSecretError::DecryptionFailure),
    };
    let text = match utf8_text(bytes) {
        Ok(t) => t,
        Err(_) => return Err(VaultSecretError::NotUtf8),
    };
    match parse_yaml_map(text.as_str()) {
        Ok(entries) => Ok(VaultDocument::from_entries(entries)),
        Err(_) => Err(VaultSecretError::MalformedDocument),
    }
}

/// Vault text that carries the header and decrypts under `password` to exactly
/// the document `m`.
pub open spec fn seals(c: Seq<u8>, password: Seq<char>, m: Map<Seq<char>, Seq<char>>) -> bool {
    &&& has_vault_header(c)
    &&& document_of_vault(c, password) == Ok::<Map<Seq<char>, Seq<char>>, VaultSecretError>(m)
}

/// Serializes and encrypts a document. It always succeeds, and whatever salt
/// the cipher drew, the vault text decrypts under the same password to exactly
/// this document.
pub fn encrypt_document(doc: &VaultDocument, password: &str) -> (r: Result<Vec<u8>, VaultSecretError>)
    requires
        doc.wf(),
    ensures
        r matches Ok(c) && seals(c@, password@, doc@),
{
    let entries = doc.entries();
    let text = match yaml_text(entries) {
        Ok(t) => t,
        Err(_) => return Err(VaultSecretError::EncryptionFailure),
    };
    let plain = text.as_str().as_bytes();
    match seal(plain, password) {
        Ok(c) => Ok(c),
        Err(_) => Err(VaultSecretError::EncryptionFailure),
    }
}

/// The content of a new vault file: the empty document, encrypted. It always
/// succeeds.
pub fn create_vault_contents(password: &str) -> (r: Result<Vec<u8>, VaultSecretError>)
    ensures
        r matches Ok(c) && seals(c@, password@, Map::empty()),
{
    encrypt_document(&VaultDocument::new(), password)
}

} // verus!
