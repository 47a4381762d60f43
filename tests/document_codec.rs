use tdtk::codec::{create_vault_contents, decrypt_document, encrypt_document};
use tdtk::document::VaultDocument;
use tdtk::error::VaultSecretError;

fn doc(entries: &[(&str, &str)]) -> VaultDocument {
    let mut d = VaultDocument::new();
    for (k, v) in entries {
        d.insert(k.to_string(), v.to_string());
    }
    d
}

fn sorted(d: &VaultDocument) -> Vec<(String, String)> {
    let mut v = d.entries().clone();
    v.sort();
    v
}

#[test]
fn insert_overwrites_and_keeps_size() {
    let mut d = doc(&[("vault_a", "v1"), ("vault_b", "x")]);
    assert_eq!(d.len(), 2);
    d.insert("vault_a".to_string(), "v2".to_string());
    assert_eq!(d.len(), 2);
    assert_eq!(d.get("vault_a").map(|s| s.as_str()), Some("v2"));
    assert_eq!(d.get("vault_b").map(|s| s.as_str()), Some("x"));
    assert_eq!(d.get("vault_c"), None);
}

#[test]
fn insert_new_name_grows() {
    let mut d = doc(&[("vault_api_key", "abc")]);
    d.insert("vault_API_KEY".to_string(), "s3cr3t".to_string());
    assert_eq!(d.len(), 2);
}

#[test]
fn round_trip_keeps_document() {
    let d = doc(&[
        ("vault_a", "plain"),
        ("vault_b", "true"),
        ("vault_c", "1"),
        ("vault_d", "multi\nline\n"),
        ("vault_e", "quote \" and 'apostrophe' : colon"),
        ("vault_f", ""),
        ("vault_g", "ünïcødé 🎉"),
    ]);
    let c = encrypt_document(&d, "correct horse").unwrap();
    assert!(c.starts_with(b"$ANSIBLE_VAULT;1.1;AES256\n"));
    let back = decrypt_document(&c, "correct horse").unwrap();
    assert_eq!(sorted(&back), sorted(&d));
}

#[test]
fn round_trip_empty_document() {
    let d = VaultDocument::new();
    let c = encrypt_document(&d, "pw12").unwrap();
    let back = decrypt_document(&c, "pw12").unwrap();
    assert_eq!(back.len(), 0);
}

#[test]
fn wrong_password_is_decryption_failure() {
    let d = doc(&[("vault_a", "x")]);
    let c = encrypt_document(&d, "right-password").unwrap();
    for wrong in ["wrong-password", "right-passwor", "Right-password", ""] {
        assert!(matches!(
            decrypt_document(&c, wrong),
            Err(VaultSecretError::DecryptionFailure)
        ));
    }
}

#[test]
fn garbage_is_decryption_failure() {
    assert!(matches!(
        decrypt_document(b"not a vault at all", "pw12"),
        Err(VaultSecretError::DecryptionFailure)
    ));
}

#[test]
fn non_utf8_payload_is_reported() {
    let c = ansible_vault::encrypt_vault(&[0xffu8, 0xfe, 0x00][..], "pw12").unwrap();
    assert!(matches!(
        decrypt_document(c.as_bytes(), "pw12"),
        Err(VaultSecretError::NotUtf8)
    ));
}

#[test]
fn non_mapping_payload_is_malformed() {
    let c = ansible_vault::encrypt_vault("- a\n- b\n".as_bytes(), "pw12").unwrap();
    assert!(matches!(
        decrypt_document(c.as_bytes(), "pw12"),
        Err(VaultSecretError::MalformedDocument)
    ));
}

#[test]
fn legacy_empty_marker_reads_as_empty_document() {
    let c = ansible_vault::encrypt_vault("---".as_bytes(), "pw12").unwrap();
    let d = decrypt_document(c.as_bytes(), "pw12").unwrap();
    assert_eq!(d.len(), 0);
}

#[test]
fn new_vault_contents_open_to_empty_document() {
    let c = create_vault_contents("pw12").unwrap();
    let d = decrypt_document(&c, "pw12").unwrap();
    assert_eq!(d.len(), 0);
}

#[test]
fn error_messages_are_distinct() {
    let all = [
        VaultSecretError::CancelledInput,
        VaultSecretError::WeakPassword,
        VaultSecretError::InvalidPath,
        VaultSecretError::DecryptionFailure,
        VaultSecretError::NotUtf8,
        VaultSecretError::MalformedDocument,
        VaultSecretError::EncryptionFailure,
        VaultSecretError::IoFailure,
    ];
    for (i, a) in all.iter().enumerate() {
        for b in &all[i + 1..] {
            assert_ne!(a.message(), b.message());
        }
    }
    assert_eq!(
        VaultSecretError::WeakPassword.message(),
        "the vault password must be at least 4 characters long"
    );
}
