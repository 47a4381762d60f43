use std::collections::HashMap;

use tdtk::codec::{decrypt_document, encrypt_document};
use tdtk::document::VaultDocument;
use tdtk::error::VaultSecretError;
use tdtk::workflow::{
    action_choices, check_vault_password, chore_choices, command_failure_message,
    password_from_command_output, resolve_vault_file_path, start, step, Action, Chores, Command,
    Event, PathKind, Stage,
};

/// An in-memory file system: regular files with contents, and directories.
struct Fs {
    files: HashMap<String, Vec<u8>>,
    dirs: Vec<String>,
}

/// Runs the workflow answering each prompt from `answers` in order; returns the
/// commands issued and the file system at the end.
fn drive(mut fs: Fs, answers: Vec<Event>) -> (Vec<Command>, Fs) {
    let mut answers = answers.into_iter();
    let (mut stage, mut cmd) = start();
    let mut log = Vec::new();
    let mut last_read = String::new();
    loop {
        let event = match &cmd {
            Command::AskPassword(_)
            | Command::AskAction
            | Command::AskName
            | Command::AskSecret
            | Command::AskPath(_) => answers.next().expect("no answer left"),
            Command::InspectPath(p) => Event::PathInspected(if fs.files.contains_key(p) {
                PathKind::RegularFile
            } else if fs.dirs.contains(p) {
                PathKind::Other
            } else {
                PathKind::Missing
            }),
            Command::CreateFile(p, c) => {
                fs.files.insert(p.clone(), c.clone());
                Event::FileCreated
            }
            Command::ReadFile(p) => {
                last_read = p.clone();
                Event::ContentsRead(fs.files[p].clone())
            }
            Command::WriteFile(c) => {
                fs.files.insert(last_read.clone(), c.clone());
                Event::Saved
            }
            Command::Finish | Command::Abort(_) => {
                log.push(cmd);
                return (log, fs);
            }
        };
        log.push(cmd);
        let (s, c) = step(stage, event);
        stage = s;
        cmd = c;
    }
}

fn no_files() -> Fs {
    Fs { files: HashMap::new(), dirs: Vec::new() }
}

#[test]
fn generate_into_missing_vault_creates_it() {
    let (log, fs) = drive(
        no_files(),
        vec![
            Event::PasswordGiven("hunter22".to_string()),
            Event::ActionChosen(Action::Generate),
            Event::NameGiven("db pass".to_string()),
            Event::PathGiven("secrets.yml".to_string()),
        ],
    );
    assert!(matches!(log.last(), Some(Command::Finish)));
    assert!(log.iter().any(|c| matches!(c, Command::CreateFile(p, _) if p == "./secrets.yml")));
    let doc = decrypt_document(&fs.files["./secrets.yml"], "hunter22").unwrap();
    assert_eq!(doc.len(), 1);
    let value = doc.get("vault_db_pass").unwrap();
    assert_eq!(value.len(), 44);
}

#[test]
fn import_into_existing_vault_adds_entry() {
    let mut existing = VaultDocument::new();
    existing.insert("vault_api_key".to_string(), "abc".to_string());
    let mut fs = no_files();
    fs.files.insert("./secrets.yml".to_string(), encrypt_document(&existing, "pass1234").unwrap());
    let (log, fs) = drive(
        fs,
        vec![
            Event::PasswordGiven("pass1234".to_string()),
            Event::ActionChosen(Action::Import),
            Event::NameGiven("API_KEY".to_string()),
            Event::SecretGiven("s3cr3t".to_string()),
            Event::PathGiven("./secrets.yml".to_string()),
        ],
    );
    assert!(matches!(log.last(), Some(Command::Finish)));
    assert!(!log.iter().any(|c| matches!(c, Command::CreateFile(..))));
    let doc = decrypt_document(&fs.files["./secrets.yml"], "pass1234").unwrap();
    assert_eq!(doc.len(), 2);
    assert_eq!(doc.get("vault_api_key").map(|s| s.as_str()), Some("abc"));
    assert_eq!(doc.get("vault_API_KEY").map(|s| s.as_str()), Some("s3cr3t"));
}

#[test]
fn import_overwrites_existing_name() {
    let mut existing = VaultDocument::new();
    existing.insert("vault_token".to_string(), "old".to_string());
    let mut fs = no_files();
    fs.files.insert("/etc/vault.yml".to_string(), encrypt_document(&existing, "pass1234").unwrap());
    let (_, fs) = drive(
        fs,
        vec![
            Event::PasswordGiven("pass1234".to_string()),
            Event::ActionChosen(Action::Import),
            Event::NameGiven("token".to_string()),
            Event::SecretGiven("new".to_string()),
            Event::PathGiven("/etc/vault.yml".to_string()),
        ],
    );
    let doc = decrypt_document(&fs.files["/etc/vault.yml"], "pass1234").unwrap();
    assert_eq!(doc.len(), 1);
    assert_eq!(doc.get("vault_token").map(|s| s.as_str()), Some("new"));
}

#[test]
fn weak_password_reprompts_without_touching_files() {
    let (stage, cmd) = step(Stage::AwaitPassword, Event::PasswordGiven("abc".to_string()));
    assert!(matches!(stage, Stage::AwaitPassword));
    assert!(matches!(cmd, Command::AskPassword(Some(VaultSecretError::WeakPassword))));

    let (log, fs) = drive(
        no_files(),
        vec![
            Event::PasswordGiven("abc".to_string()),
            Event::PasswordGiven("abcd".to_string()),
            Event::ActionChosen(Action::Import),
            Event::NameGiven("x".to_string()),
            Event::SecretGiven("y".to_string()),
            Event::PathGiven("v.yml".to_string()),
        ],
    );
    assert!(matches!(log[1], Command::AskPassword(Some(VaultSecretError::WeakPassword))));
    assert!(matches!(log[2], Command::AskAction));
    let doc = decrypt_document(&fs.files["./v.yml"], "abcd").unwrap();
    assert_eq!(doc.get("vault_x").map(|s| s.as_str()), Some("y"));
}

#[test]
fn directory_path_reprompts_for_path_only() {
    let mut fs = no_files();
    fs.dirs.push("./secrets".to_string());
    let (log, fs) = drive(
        fs,
        vec![
            Event::PasswordGiven("pass1234".to_string()),
            Event::ActionChosen(Action::Import),
            Event::NameGiven("n".to_string()),
            Event::SecretGiven("v".to_string()),
            Event::PathGiven("secrets".to_string()),
            Event::PathGiven("secrets.yml".to_string()),
        ],
    );
    let reprompts = log
        .iter()
        .filter(|c| matches!(c, Command::AskPath(Some(VaultSecretError::InvalidPath))))
        .count();
    assert_eq!(reprompts, 1);
    let password_prompts = log.iter().filter(|c| matches!(c, Command::AskPassword(_))).count();
    assert_eq!(password_prompts, 1);
    assert!(matches!(log.last(), Some(Command::Finish)));
    let doc = decrypt_document(&fs.files["./secrets.yml"], "pass1234").unwrap();
    assert_eq!(doc.get("vault_n").map(|s| s.as_str()), Some("v"));
}

#[test]
fn wrong_password_for_existing_vault_aborts() {
    let mut fs = no_files();
    fs.files.insert(
        "./v.yml".to_string(),
        encrypt_document(&VaultDocument::new(), "first-pw").unwrap(),
    );
    let before = fs.files["./v.yml"].clone();
    let (log, fs) = drive(
        fs,
        vec![
            Event::PasswordGiven("other-pw".to_string()),
            Event::ActionChosen(Action::Generate),
            Event::NameGiven("k".to_string()),
            Event::PathGiven("v.yml".to_string()),
        ],
    );
    assert!(matches!(log.last(), Some(Command::Abort(VaultSecretError::DecryptionFailure))));
    assert_eq!(fs.files["./v.yml"], before);
}

#[test]
fn failure_event_aborts() {
    let (stage, cmd) = step(Stage::AwaitPassword, Event::Failed(VaultSecretError::CancelledInput));
    assert!(matches!(stage, Stage::Done));
    assert!(matches!(cmd, Command::Abort(VaultSecretError::CancelledInput)));
}

#[test]
fn password_gate_at_four_characters() {
    assert_eq!(check_vault_password(""), Err(VaultSecretError::WeakPassword));
    assert_eq!(check_vault_password("abc"), Err(VaultSecretError::WeakPassword));
    assert_eq!(check_vault_password("abcd"), Ok(()));
    assert_eq!(check_vault_password("äöüß"), Ok(()));
}

#[test]
fn path_is_made_relative_unless_explicit() {
    assert_eq!(resolve_vault_file_path("secrets.yml"), "./secrets.yml");
    assert_eq!(resolve_vault_file_path("./secrets.yml"), "./secrets.yml");
    assert_eq!(resolve_vault_file_path("/tmp/s.yml"), "/tmp/s.yml");
    assert_eq!(resolve_vault_file_path("../s.yml"), "./../s.yml");
    assert_eq!(resolve_vault_file_path(""), "./");
}

#[test]
fn command_output_loses_trailing_whitespace() {
    assert_eq!(password_from_command_output("  s3cret \n"), "  s3cret");
    assert_eq!(password_from_command_output("pw"), "pw");
}

#[test]
fn failure_message_hides_password() {
    let m = command_failure_message("echo hunter22; false", "bad hunter22hunter22 x", "hunter22");
    assert_eq!(
        m,
        "Failed to execute command `echo ********; false`, stderr:\nbad **************** x"
    );
    assert!(!m.contains("hunter22"));
}

#[test]
fn failure_message_with_empty_password_hides_nothing() {
    let m = command_failure_message("cmd", "err", "");
    assert_eq!(m, "Failed to execute command `cmd`, stderr:\nerr");
}

#[test]
fn choices_offer_both_actions_and_chores() {
    let a = action_choices();
    assert_eq!(a.len(), 2);
    assert_eq!(a[0].choice, Action::Generate);
    assert_eq!(a[0].label(), "Generate a new secret");
    assert_eq!(a[1].choice, Action::Import);
    let c = chore_choices();
    assert_eq!(c[0].choice, Chores::VaultSecret);
    assert_eq!(c[1].choice, Chores::Service);
    assert_eq!(c[1].label(), "Create a new service");
}

#[test]
fn unconfirmed_save_aborts() {
    let (stage, cmd) = step(Stage::AwaitSave, Event::FileCreated);
    assert!(matches!(stage, Stage::Done));
    assert!(matches!(cmd, Command::Abort(VaultSecretError::IoFailure)));
}
