use tdtk::name::normalize_secret_name;

fn is_secret_name(s: &str) -> bool {
    s.starts_with("vault_")
        && s.len() > "vault_".len()
        && s.chars().all(|c| c.is_ascii_alphanumeric() || c == '_')
}

#[test]
fn normalize_replaces_space_and_prefixes() {
    assert_eq!(normalize_secret_name("db pass"), "vault_db_pass");
}

#[test]
fn normalize_keeps_case() {
    assert_eq!(normalize_secret_name("API_KEY"), "vault_API_KEY");
    assert_ne!(normalize_secret_name("API_KEY"), normalize_secret_name("api_key"));
}

#[test]
fn normalize_keeps_existing_prefix() {
    assert_eq!(normalize_secret_name("vault_token"), "vault_token");
}

#[test]
fn normalize_trims_surrounding_whitespace() {
    assert_eq!(normalize_secret_name("  \t my-key.v2 \n"), "vault_my_key_v2");
}

#[test]
fn normalize_escapes_non_ascii() {
    assert_eq!(normalize_secret_name("clé"), "vault_cl_");
}

#[test]
fn normalize_empty_gives_bare_prefix() {
    assert_eq!(normalize_secret_name(""), "vault_");
    assert_eq!(normalize_secret_name("   "), "vault_");
    assert_eq!(normalize_secret_name("vault_"), "vault_");
    assert_eq!(normalize_secret_name("vault-"), "vault_");
}

#[test]
fn normalize_is_idempotent() {
    for raw in ["db pass", "API_KEY", "vault_x", " a/b:c ", "", "vault-x", "ü ß"] {
        let once = normalize_secret_name(raw);
        assert_eq!(normalize_secret_name(&once), once);
    }
}

#[test]
fn normalize_result_has_secret_name_shape() {
    for raw in ["db pass", "x", "  hello world  ", "vault_a", "vault-x", "€uro"] {
        let n = normalize_secret_name(raw);
        assert!(is_secret_name(&n), "{n}");
    }
}
