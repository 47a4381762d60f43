//! The "add one secret" workflow as a state machine. The driver performs each
//! command (a prompt, a look at the file system, a read or a write) and hands
//! the outcome back as an event; every decision is taken here.
use vstd::prelude::*;

use crate::codec::{
    create_vault_contents, decrypt_document, document_of_vault, encrypt_document, seals,
};
use crate::error::VaultSecretError;
use crate::name::{normalize_secret_name, normalized_name};
use crate::secret::{generate_secret, is_generated_secret};
use crate::text::{has_prefix, redact, redacted, starts_with, trim_end, trim_end_of};

verus! {

/// How the secret value is obtained.
#[derive(Debug, Clone, Copy, PartialEq, Eq, Structural)]
pub enum Action {
    Generate,
    Import,
}

/// The chores the tool offers.
#[derive(Debug, Clone, Copy, PartialEq, Eq, Structural)]
pub enum Chores {
    VaultSecret,
    Service,
}

/// An option offered in a selection prompt: the value chosen and the text shown.
pub struct Choice<T> {
    pub choice: T,
    pub prompt: String,
}

impl<T> Choice<T> {
    /// The text shown for this option.
    pub fn label(&self) -> (r: &String)
        ensures
            r@ == self.prompt@,
    {
        &self.prompt
    }
}

/// The two ways of obtaining a secret, as offered to the user.
pub fn action_choices() -> (r: Vec<Choice<Action>>)
    ensures
        r@.len() == 2,
        r@[0].choice == Action::Generate,
        r@[1].choice == Action::Import,
{
    vec![
        Choice { choice: Action::Generate, prompt: String::from_str("Generate a new secret") },
        Choice { choice: Action::Import, prompt: String::from_str("Import a secret") },
    ]
}

/// The chores, as offered to the user.
pub fn chore_choices() -> (r: Vec<Choice<Chores>>)
    ensures
        r@.len() == 2,
        r@[0].choice == Chores::VaultSecret,
        r@[1].choice == Chores::Service,
{
    vec![
        Choice {
            choice: Chores::VaultSecret,
            prompt: String::from_str("Create a ansible vault secret (password, token, key, ...)"),
        },
        Choice { choice: Chores::Service, prompt: String::from_str("Create a new service") },
    ]
}

/// Fewest characters a vault password may have.
pub const MIN_PASSWORD_LEN: usize = 4;

/// Accepts a vault password of at least four characters.
pub fn check_vault_password(password: &str) -> (r: Result<(), VaultSecretError>)
    ensures
        r is Ok <==> password@.len() >= MIN_PASSWORD_LEN,
        r matches Err(e) ==> e == VaultSecretError::WeakPassword,
{
    if password.unicode_len() < MIN_PASSWORD_LEN {
        Err(VaultSecretError::WeakPassword)
    } else {
        Ok(())
    }
}

/// The vault password that a password command printed: its output without
/// trailing white space.
pub fn password_from_command_output(stdout: &str) -> (r: String)
    ensures
        r@ == trim_end_of(stdout@),
{
    String::from_str(trim_end(stdout))
}

/// The error text for a failed password command, with the password hidden in
/// both the command and its standard error.
pub fn command_failure_message(command: &str, stderr: &str, password: &str) -> (r: String)
    ensures
        r@ == "Failed to execute command `"@ + redacted(command@, password@) + "`, stderr:\n"@
            + redacted(stderr@, password@),
{
    let mut r = String::from_str("Failed to execute command `");
    let c = redact(command, password);
    r.append(c.as_str());
    r.append("`, stderr:\n");
    let e = redact(stderr, password);
    r.append(e.as_str());
    r
}

/// The path the user typed, made explicitly relative unless it already starts
/// with `./` or `/`.
pub open spec fn resolved_path(input: Seq<char>) -> Seq<char> {
    if has_prefix(input, seq!['.', '/']) || has_prefix(input, seq!['/']) {
        input
    } else {
        seq!['.', '/'] + input
    }
}

/// Resolves the vault file path the user typed.
pub fn resolve_vault_file_path(input: &str) -> (r: String)
    ensures
        r@ == resolved_path(input@),
{
    let dot = "./";
    let slash = "/";
    proof {
        reveal_strlit("./");
        reveal_strlit("/");
    }
    assert(dot@ =~= seq!['.', '/']);
    assert(slash@ =~= seq!['/']);
    if starts_with(input, dot) || starts_with(input, slash) {
        String::from_str(input)
    } else {
        let mut r = String::from_str(dot);
        r.append(input);
        r
    }
}

/// Vault text `c` that carries the header and decrypts under `password` to
/// `old` with `value` stored under `name`, replacing any earlier value.
pub open spec fn stores(
    c: Seq<u8>,
    password: Seq<char>,
    old: Map<Seq<char>, Seq<char>>,
    name: Seq<char>,
    value: Seq<char>,
) -> bool {
    seals(c, password, old.insert(name, value))
}

/// Decrypts vault text, stores `secret` under `secret_name`, and encrypts the
/// result. It succeeds exactly when the vault reads under the password, and
/// otherwise returns the reading error.
pub fn add_vault_secret_to_file(
    secret_name: &String,
    secret: &String,
    armored: &[u8],
    password: &String,
) -> (r: Result<Vec<u8>, VaultSecretError>)
    ensures
        match document_of_vault(armored@, password@) {
            Ok(d) => r matches Ok(c) && stores(c@, password@, d, secret_name@, secret@),
            Err(e) => r == Err::<Vec<u8>, VaultSecretError>(e),
        },
{
    let mut doc = decrypt_document(armored, password.as_str())?;
    doc.insert(secret_name.clone(), secret.clone());
    encrypt_document(&doc, password.as_str())
}

/// Imports a secret the user typed: the vault text comes back re-encrypted
/// with `secret`, verbatim, stored under the name derived from `raw_name`.
pub fn handle_vault_secret_import(
    vault_password: &String,
    raw_name: &str,
    secret: &String,
    armored: &[u8],
) -> (r: Result<Vec<u8>, VaultSecretError>)
    ensures
        match document_of_vault(armored@, vault_password@) {
            Ok(d) => r matches Ok(c) && stores(
                c@,
                vault_password@,
                d,
                normalized_name(raw_name@),
                secret@,
            ),
            Err(e) => r == Err::<Vec<u8>, VaultSecretError>(e),
        },
{
    let name = normalize_secret_name(raw_name);
    add_vault_secret_to_file(&name, secret, armored, vault_password)
}

/// Generates a fresh secret and stores it: the vault text comes back
/// re-encrypted with a 44-character Base64 secret of 32 random bytes stored
/// under the name derived from `raw_name`.
pub fn handle_vault_secret_generate(vault_password: &String, raw_name: &str, armored: &[u8]) -> (r:
    Result<Vec<u8>, VaultSecretError>)
    ensures
        match document_of_vault(armored@, vault_password@) {
            Ok(d) => r matches Ok(c) && exists|s: Seq<char>|
                #[trigger] is_generated_secret(s) && s.len() == 44 && stores(
                    c@,
                    vault_password@,
                    d,
                    normalized_name(raw_name@),
                    s,
                ),
            Err(e) => r == Err::<Vec<u8>, VaultSecretError>(e),
        },
{
    let name = normalize_secret_name(raw_name);
    let secret = generate_secret();
    let r = add_vault_secret_to_file(&name, &secret, armored, vault_password);
    assert(is_generated_secret(secret@) && secret@.len() == 44);
    r
}

/// What is to be stored: the password, the name as the user typed it, and the
/// secret text to import (none when a secret is to be generated).
pub struct SecretRequest {
    pub password: String,
    pub raw_name: String,
    pub secret: Option<String>,
}

/// What the driver found at a path.
#[derive(Debug, Clone, Copy, PartialEq, Eq, Structural)]
pub enum PathKind {
    Missing,
    RegularFile,
    Other,
}

/// Where the workflow stands.
pub enum Stage {
    /// Waiting for the vault password.
    AwaitPassword,
    /// Waiting for the choice between generating and importing.
    AwaitAction { password: String },
    /// Waiting for the secret's name.
    AwaitName { password: String, action: Action },
    /// Waiting for the secret text to import.
    AwaitSecret { password: String, raw_name: String },
    /// Waiting for the vault file path.
    AwaitPath { request: SecretRequest },
    /// Waiting to learn what is at the resolved path.
    AwaitPathKind { request: SecretRequest, path: String },
    /// Waiting for a new, empty vault file to be written.
    AwaitCreation { request: SecretRequest, path: String },
    /// Waiting for the vault file's content, read at its absolute path.
    AwaitContents { request: SecretRequest, path: String },
    /// Waiting for the updated vault to be written back.
    AwaitSave,
    /// Finished, successfully or not.
    Done,
}

/// What the driver reports back.
pub enum Event {
    PasswordGiven(String),
    ActionChosen(Action),
    NameGiven(String),
    SecretGiven(String),
    PathGiven(String),
    PathInspected(PathKind),
    FileCreated,
    ContentsRead(Vec<u8>),
    Saved,
    /// A prompt was cancelled or an I/O step failed.
    Failed(VaultSecretError),
}

/// What the driver is asked to do next.
pub enum Command {
    /// Ask for the vault password, saying why when it is asked again.
    AskPassword(Option<VaultSecretError>),
    AskAction,
    AskName,
    AskSecret,
    /// Ask for the vault file path, saying why when it is asked again.
    AskPath(Option<VaultSecretError>),
    /// Report what is at this path.
    InspectPath(String),
    /// Create the file at this path with these bytes.
    CreateFile(String, Vec<u8>),
    /// Resolve this path to an absolute one and read the file there.
    ReadFile(String),
    /// Overwrite the file read last with these bytes.
    WriteFile(Vec<u8>),
    /// Stop: the secret is stored.
    Finish,
    /// Stop with this error.
    Abort(VaultSecretError),
}

/// The first stage and command of a run.
pub fn start() -> (r: (Stage, Command))
    ensures
        r.0 is AwaitPassword,
        r.1 == Command::AskPassword(None),
{
    (Stage::AwaitPassword, Command::AskPassword(None))
}

/// The request a stage carries, when it carries one.
pub open spec fn request_of(stage: Stage) -> Option<SecretRequest> {
    match stage {
        Stage::AwaitPath { request } => Some(request),
        Stage::AwaitPathKind { request, .. } => Some(request),
        Stage::AwaitCreation { request, .. } => Some(request),
        Stage::AwaitContents { request, .. } => Some(request),
        _ => None,
    }
}

/// The allowed moves: from `stage`, on `event`, to `next` with command `cmd`.
/// Generated secrets and cipher salts are random, so for those moves the
/// relation says what holds of every outcome.
pub open spec fn transition(stage: Stage, event: Event, next: Stage, cmd: Command) -> bool {
    match event {
        Event::Failed(e) => next is Done && cmd == Command::Abort(e),
        _ => match stage {
            Stage::AwaitPassword => match event {
                Event::PasswordGiven(p) => if p@.len() >= MIN_PASSWORD_LEN {
                    next == (Stage::AwaitAction { password: p }) && cmd is AskAction
                } else {
                    next is AwaitPassword && cmd == Command::AskPassword(
                        Some(VaultSecretError::WeakPassword),
                    )
                },
                _ => next is AwaitPassword && cmd == Command::AskPassword(None),
            },
            Stage::AwaitAction { password } => match event {
                Event::ActionChosen(a) => next == (Stage::AwaitName { password, action: a })
                    && cmd is AskName,
                _ => next == (Stage::AwaitAction { password }) && cmd is AskAction,
            },
            Stage::AwaitName { password, action } => match event {
                Event::NameGiven(raw) => match action {
                    Action::Generate => {
                        &&& next == (Stage::AwaitPath {
                            request: SecretRequest { password, raw_name: raw, secret: None },
                        })
                        &&& cmd == Command::AskPath(None)
                    },
                    Action::Import => {
                        &&& next == (Stage::AwaitSecret { password, raw_name: raw })
                        &&& cmd is AskSecret
                    },
                },
                _ => next == (Stage::AwaitName { password, action }) && cmd is AskName,
            },
            Stage::AwaitSecret { password, raw_name } => match event {
                Event::SecretGiven(s) => {
                    &&& next == (Stage::AwaitPath {
                        request: SecretRequest { password, raw_name, secret: Some(s) },
                    })
                    &&& cmd == Command::AskPath(None)
                },
                _ => next == (Stage::AwaitSecret { password, raw_name }) && cmd is AskSecret,
            },
            Stage::AwaitPath { request } => match event {
                Event::PathGiven(input) => {
                    &&& next matches Stage::AwaitPathKind { request: r, path }
                    &&& r == request
                    &&& path@ == resolved_path(input@)
                    &&& cmd matches Command::InspectPath(p) && p@ == path@
                },
                _ => next == (Stage::AwaitPath { request }) && cmd == Command::AskPath(None),
            },
            Stage::AwaitPathKind { request, path } => match event {
                Event::PathInspected(PathKind::Missing) => {
                    &&& next == (Stage::AwaitCreation { request, path })
                    &&& cmd matches Command::CreateFile(p, c)
                    &&& p@ == path@
                    &&& seals(c@, request.password@, Map::empty())
                },
                Event::PathInspected(PathKind::RegularFile) => {
                    &&& next == (Stage::AwaitContents { request, path })
                    &&& cmd matches Command::ReadFile(p) && p@ == path@
                },
                Event::PathInspected(PathKind::Other) => {
                    &&& next == (Stage::AwaitPath { request })
                    &&& cmd == Command::AskPath(Some(VaultSecretError::InvalidPath))
                },
                _ => {
                    &&& next == (Stage::AwaitPathKind { request, path })
                    &&& cmd matches Command::InspectPath(p) && p@ == path@
                },
            },
            Stage::AwaitCreation { request, path } => {
                &&& next == (Stage::AwaitPathKind { request, path })
                &&& cmd matches Command::InspectPath(p) && p@ == path@
            },
            Stage::AwaitContents { request, path } => match event {
                Event::ContentsRead(bytes) => match document_of_vault(bytes@, request.password@) {
                    Ok(d) => {
                        &&& next is AwaitSave
                        &&& cmd matches Command::WriteFile(c)
                        &&& match request.secret {
                            Some(s) => stores(
                                c@,
                                request.password@,
                                d,
                                normalized_name(request.raw_name@),
                                s@,
                            ),
                            None => exists|s: Seq<char>|
                                #[trigger] is_generated_secret(s) && s.len() == 44 && stores(
                                    c@,
                                    request.password@,
                                    d,
                                    normalized_name(request.raw_name@),
                                    s,
                                ),
                        }
                    },
                    Err(e) => next is Done && cmd == Command::Abort(e),
                },
                _ => {
                    &&& next == (Stage::AwaitContents { request, path })
                    &&& cmd matches Command::ReadFile(p) && p@ == path@
                },
            },
            Stage::AwaitSave => match event {
                Event::Saved => next is Done && cmd is Finish,
                _ => next is Done && cmd == Command::Abort(VaultSecretError::IoFailure),
            },
            Stage::Done => next is Done && cmd is Finish,
        },
    }
}

/// Takes one step of the workflow.
pub fn step(stage: Stage, event: Event) -> (r: (Stage, Command))
    ensures
        transition(stage, event, r.0, r.1),
{
    if let Event::Failed(e) = event {
        return (Stage::Done, Command::Abort(e));
    }
    match stage {
        Stage::AwaitPassword => match event {
            Event::PasswordGiven(p) => match check_vault_password(p.as_str()) {
                Ok(()) => (Stage::AwaitAction { password: p }, Command::AskAction),
                Err(e) => (Stage::AwaitPassword, Command::AskPassword(Some(e))),
            },
            _ => (Stage::AwaitPassword, Command::AskPassword(None)),
        },
        Stage::AwaitAction { password } => match event {
            Event::ActionChosen(a) => (Stage::AwaitName { password, action: a }, Command::AskName),
            _ => (Stage::AwaitAction { password }, Command::AskAction),
        },
        Stage::AwaitName { password, action } => match event {
            Event::NameGiven(raw) => match action {
                Action::Generate => {
                    let request = SecretRequest { password, raw_name: raw, secret: None };
                    (Stage::AwaitPath { request }, Command::AskPath(None))
                },
                Action::Import => {
                    (Stage::AwaitSecret { password, raw_name: raw }, Command::AskSecret)
                },
            },
            _ => (Stage::AwaitName { password, action }, Command::AskName),
        },
        Stage::AwaitSecret { password, raw_name } => match event {
            Event::SecretGiven(secret) => {
                let request = SecretRequest { password, raw_name, secret: Some(secret) };
                (Stage::AwaitPath { request }, Command::AskPath(None))
            },
            _ => (Stage::AwaitSecret { password, raw_name }, Command::AskSecret),
        },
        Stage::AwaitPath { request } => match event {
            Event::PathGiven(input) => {
                let path = resolve_vault_file_path(input.as_str());
                let shown = path.clone();
                (Stage::AwaitPathKind { request, path }, Command::InspectPath(shown))
            },
            _ => (Stage::AwaitPath { request }, Command::AskPath(None)),
        },
        Stage::AwaitPathKind { request, path } => match event {
            Event::PathInspected(PathKind::Missing) => {
                match create_vault_contents(request.password.as_str()) {
                    Ok(c) => {
                        let target = path.clone();
                        (Stage::AwaitCreation { request, path }, Command::CreateFile(target, c))
                    },
                    Err(e) => (Stage::Done, Command::Abort(e)),
                }
            },
            Event::PathInspected(PathKind::RegularFile) => {
                let target = path.clone();
                (Stage::AwaitContents { request, path }, Command::ReadFile(target))
            },
            Event::PathInspected(PathKind::Other) => {
                (Stage::AwaitPath { request }, Command::AskPath(Some(VaultSecretError::InvalidPath)))
            },
            _ => {
                let target = path.clone();
                (Stage::AwaitPathKind { request, path }, Command::InspectPath(target))
            },
        },
        Stage::AwaitCreation { request, path } => {
            let target = path.clone();
            (Stage::AwaitPathKind { request, path }, Command::InspectPath(target))
        },
        Stage::AwaitContents { request, path } => match event {
            Event::ContentsRead(bytes) => {
                let stored = match &request.secret {
                    Some(secret) => handle_vault_secret_import(
                        &request.password,
                        request.raw_name.as_str(),
                        secret,
                        bytes.as_slice(),
                    ),
                    None => handle_vault_secret_generate(
                        &request.password,
                        request.raw_name.as_str(),
                        bytes.as_slice(),
                    ),
                };
                match stored {
                    Ok(c) => (Stage::AwaitSave, Command::WriteFile(c)),
                    Err(e) => (Stage::Done, Command::Abort(e)),
                }
            },
            _ => {
                let target = path.clone();
                (Stage::AwaitContents { request, path }, Command::ReadFile(target))
            },
        },
        Stage::AwaitSave => match event {
            Event::Saved => (Stage::Done, Command::Finish),
            _ => (Stage::Done, Command::Abort(VaultSecretError::IoFailure)),
        },
        Stage::Done => (Stage::Done, Command::Finish),
    }
}

} // verus!
