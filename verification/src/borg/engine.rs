//! The calls into the `borgbackup` crate, and the plain values that the rest
//! of the library keeps of what the engine takes and gives.
//!
//! The engine runs the `borg` program. What it answers depends on what is on
//! disk and on the network, so none of the calls below promises an outcome.
//! What can be said of an answer is that the engine gave it, and to which
//! request: that is what [`engine_initialised`], [`engine_listed`] and
//! [`engine_created`] say, and the functions that ask the engine state their
//! results over them.

use crate::borg::create::CreateOptionsView;
use borgbackup::common;
use vstd::prelude::*;

verus! {

/// The kinds of engine failure that the library tells apart.
#[derive(Clone, Copy, Debug, PartialEq, Eq, Structural)]
pub enum FailureKind {
    /// Initialisation found a repository already in place.
    RepositoryAlreadyExists,
    /// No repository at the given location.
    RepositoryDoesNotExist,
    /// The passphrase does not unlock the repository.
    PassphraseWrong,
    /// The repository already holds an archive of that name.
    ArchiveAlreadyExists,
    /// Any other failure.
    Other,
}

/// A failure reported by the engine: its kind and its two renderings.
#[derive(Debug)]
pub struct EngineFailure {
    pub kind: FailureKind,
    /// The engine's one-line description of the failure.
    pub summary: String,
    /// The engine's full description of the failure.
    pub detail: String,
}

/// How a new repository is encrypted and authenticated. Every mode but the
/// first works under a passphrase.
#[derive(Debug, Clone)]
pub enum EncryptionMode {
    /// No encryption and no authentication.
    Unencrypted,
    /// No encryption; contents authenticated with HMAC-SHA256.
    Authenticated(String),
    /// No encryption; contents authenticated with keyed BLAKE2b.
    AuthenticatedBlake2(String),
    /// AES with HMAC-SHA256; the key is kept in the repository.
    Repokey(String),
    /// AES with HMAC-SHA256; the key is kept on this machine.
    Keyfile(String),
    /// AES with BLAKE2b; the key is kept in the repository.
    RepokeyBlake2(String),
    /// AES with BLAKE2b; the key is kept on this machine.
    KeyfileBlake2(String),
}

/// An encryption mode without its passphrase.
#[derive(Clone, Copy, Debug, PartialEq, Eq, Structural)]
pub enum ModeKind {
    Unencrypted,
    Authenticated,
    AuthenticatedBlake2,
    Repokey,
    Keyfile,
    RepokeyBlake2,
    KeyfileBlake2,
}

impl View for EncryptionMode {
    type V = (ModeKind, Seq<char>);

    /// The kind of the mode and its passphrase; the mode without
    /// encryption has the empty passphrase.
    open spec fn view(&self) -> (ModeKind, Seq<char>) {
        match self {
            EncryptionMode::Unencrypted => (ModeKind::Unencrypted, Seq::empty()),
            EncryptionMode::Authenticated(passphrase) => (ModeKind::Authenticated, passphrase@),
            EncryptionMode::AuthenticatedBlake2(passphrase) => (
                ModeKind::AuthenticatedBlake2,
                passphrase@,
            ),
            EncryptionMode::Repokey(passphrase) => (ModeKind::Repokey, passphrase@),
            EncryptionMode::Keyfile(passphrase) => (ModeKind::Keyfile, passphrase@),
            EncryptionMode::RepokeyBlake2(passphrase) => (ModeKind::RepokeyBlake2, passphrase@),
            EncryptionMode::KeyfileBlake2(passphrase) => (ModeKind::KeyfileBlake2, passphrase@),
        }
    }
}

/// Everything the engine is told when a repository is initialised.
#[derive(Debug)]
pub struct InitOptions {
    pub repository: String,
    pub encryption_mode: EncryptionMode,
    /// Forbid the compaction of the repository.
    pub append_only: bool,
    /// Make the directories above the repository where they are missing.
    pub make_parent_dirs: bool,
    /// The most that the repository may hold, as the engine writes sizes.
    pub storage_quota: Option<String>,
}

/// A request to initialise a repository, as plain values.
pub struct InitOptionsView {
    pub repository: Seq<char>,
    pub encryption_mode: (ModeKind, Seq<char>),
    pub append_only: bool,
    pub make_parent_dirs: bool,
    pub storage_quota: Option<Seq<char>>,
}

impl View for InitOptions {
    type V = InitOptionsView;

    open spec fn view(&self) -> InitOptionsView {
        InitOptionsView {
            repository: self.repository@,
            encryption_mode: self.encryption_mode@,
            append_only: self.append_only,
            make_parent_dirs: self.make_parent_dirs,
            storage_quota: self.storage_quota.deep_view(),
        }
    }
}

/// A rule that selects files by a shell-style pattern.
#[derive(Debug, Clone)]
pub enum Pattern {
    Shell(String),
}

/// One selection rule for an archive: take in, or leave out, what a pattern matches.
#[derive(Debug, Clone)]
pub enum PatternInstruction {
    Include(Pattern),
    Exclude(Pattern),
}

/// Everything the engine is told when an archive is created.
#[derive(Debug)]
pub struct CreateOptions {
    pub repository: String,
    pub archive: String,
    pub passphrase: Option<String>,
    pub paths: Vec<String>,
    pub patterns: Vec<PatternInstruction>,
}

/// What the engine reports of an archive it created.
#[derive(Debug)]
pub struct ArchiveResult {
    /// Canonical location of the repository.
    pub location: String,
    /// Name of the archive.
    pub name: String,
    /// When the creation started.
    pub start: String,
    /// When the creation ended.
    pub end: String,
    /// Seconds between start and end.
    pub duration: String,
    /// The command line that created the archive.
    pub command_line: Vec<String>,
}

/// How a repository is encrypted.
#[derive(Debug)]
pub struct EncryptionInfo {
    pub mode: String,
    pub keyfile: Option<String>,
}

/// One archive of a repository.
#[derive(Debug)]
pub struct ArchiveEntry {
    pub id: String,
    pub name: String,
    pub start: String,
}

/// What the engine reports of a repository.
#[derive(Debug)]
pub struct RepositoryListing {
    pub last_modified: String,
    pub encryption: Option<EncryptionInfo>,
    pub archives: Vec<ArchiveEntry>,
}

/// `borgbackup::errors::InitError`, the error of `borgbackup::sync::init`. It is carried from
/// one call to the next; nothing is known of what it holds.
#[verifier::external_type_specification]
#[verifier::external_body]
pub struct ExInitError(borgbackup::errors::InitError);

/// `borgbackup::errors::ListError`, the error of `borgbackup::sync::list`. It is carried from
/// one call to the next; nothing is known of what it holds.
#[verifier::external_type_specification]
#[verifier::external_body]
pub struct ExListError(borgbackup::errors::ListError);

/// `borgbackup::errors::CreateError`, the error of `borgbackup::sync::create`. It is carried from
/// one call to the next; nothing is known of what it holds.
#[verifier::external_type_specification]
#[verifier::external_body]
pub struct ExCreateError(borgbackup::errors::CreateError);

/// `borgbackup::output::list::ListRepository`, the answer of `borgbackup::sync::list`. It is carried from
/// one call to the next; nothing is known of what it holds.
#[verifier::external_type_specification]
#[verifier::external_body]
pub struct ExListRepository(borgbackup::output::list::ListRepository);

/// `borgbackup::output::create::Create`, the answer of `borgbackup::sync::create`. It is carried from
/// one call to the next; nothing is known of what it holds.
#[verifier::external_type_specification]
#[verifier::external_body]
pub struct ExCreate(borgbackup::output::create::Create);

/// Calls `borgbackup::sync::init` with `options` written field by field as
/// the engine's `InitOptions`, the encryption mode as the engine's mode of
/// the same name, and the engine's common options at their defaults. Nothing
/// is claimed of the outcome.
#[verifier::external_body]
pub(crate) fn engine_init(options: &InitOptions) -> (outcome: Result<
    (),
    borgbackup::errors::InitError,
>) {
    let encryption_mode = match options.encryption_mode.clone() {
        EncryptionMode::Unencrypted => common::EncryptionMode::None,
        EncryptionMode::Authenticated(p) => common::EncryptionMode::Authenticated(p),
        EncryptionMode::AuthenticatedBlake2(p) => common::EncryptionMode::AuthenticatedBlake2(p),
        EncryptionMode::Repokey(p) => common::EncryptionMode::Repokey(p),
        EncryptionMode::Keyfile(p) => common::EncryptionMode::Keyfile(p),
        EncryptionMode::RepokeyBlake2(p) => common::EncryptionMode::RepokeyBlake2(p),
        EncryptionMode::KeyfileBlake2(p) => common::EncryptionMode::KeyfileBlake2(p),
    };
    let mut request = common::InitOptions::new(options.repository.clone(), encryption_mode);
    request.append_only = options.append_only;
    request.make_parent_dirs = options.make_parent_dirs;
    request.storage_quota = options.storage_quota.clone();
    borgbackup::sync::init(&request, &common::CommonOptions::default())
}

/// Turns a `borgbackup::errors::InitError` into the library's failure value:
/// its kind, its `Display` text and its `Debug` text. Nothing is claimed of
/// the result.
#[verifier::external_body]
pub(crate) fn init_failure(error: borgbackup::errors::InitError) -> (failure: EngineFailure) {
    let kind = match &error {
        borgbackup::errors::InitError::RepositoryAlreadyExists => {
            FailureKind::RepositoryAlreadyExists
        },
        _ => FailureKind::Other,
    };
    EngineFailure { kind, summary: format!("{}", error), detail: format!("{:?}", error) }
}

/// Calls `borgbackup::sync::list` on the repository at `repository` with
/// `passphrase`. Nothing is claimed of the outcome.
#[verifier::external_body]
pub(crate) fn engine_list(repository: &str, passphrase: &str) -> (outcome: Result<
    borgbackup::output::list::ListRepository,
    borgbackup::errors::ListError,
>) {
    let request = borgbackup::common::ListOptions {
        repository: repository.to_owned(),
        passphrase: Some(passphrase.to_owned()),
    };
    borgbackup::sync::list(&request, &borgbackup::common::CommonOptions::default())
}

/// Turns a `borgbackup::errors::ListError` into the library's failure value.
/// Nothing is claimed of the result.
#[verifier::external_body]
pub(crate) fn list_failure(error: borgbackup::errors::ListError) -> (failure: EngineFailure) {
    let kind = match &error {
        borgbackup::errors::ListError::RepositoryDoesNotExist => FailureKind::RepositoryDoesNotExist,
        borgbackup::errors::ListError::PassphraseWrong => FailureKind::PassphraseWrong,
        _ => FailureKind::Other,
    };
    EngineFailure { kind, summary: format!("{}", error), detail: format!("{:?}", error) }
}

/// Copies out of a `borgbackup::output::list::ListRepository` what the library
/// shows of a repository, timestamps and the encryption mode as text. Nothing
/// is claimed of the result.
#[verifier::external_body]
pub(crate) fn repository_listing(listed: borgbackup::output::list::ListRepository) -> (listing:
    RepositoryListing) {
    RepositoryListing {
        last_modified: listed.repository.last_modified.to_string(),
        encryption: listed.encryption.map(
            |e| EncryptionInfo { mode: format!("{:?}", e.mode), keyfile: e.keyfile },
        ),
        archives: listed.archives.into_iter().map(
            |a| ArchiveEntry { id: a.id, name: a.name, start: a.start.to_string() },
        ).collect(),
    }
}

/// Calls `borgbackup::sync::create` with the repository, archive name,
/// passphrase and paths of `options`, each selection rule written as the
/// engine's shell-pattern instruction of the same kind, and the engine's
/// defaults for everything else. Nothing is claimed of the outcome.
#[verifier::external_body]
pub(crate) fn engine_create(options: &CreateOptions) -> (outcome: Result<
    borgbackup::output::create::Create,
    borgbackup::errors::CreateError,
>) {
    let patterns = options.patterns.iter().map(|rule| match rule {
        PatternInstruction::Include(Pattern::Shell(text)) => {
            borgbackup::common::PatternInstruction::Include(borgbackup::common::Pattern::Shell(text.clone()))
        },
        PatternInstruction::Exclude(Pattern::Shell(text)) => {
            borgbackup::common::PatternInstruction::Exclude(borgbackup::common::Pattern::Shell(text.clone()))
        },
    }).collect();
    let (repository, archive) = (options.repository.clone(), options.archive.clone());
    let mut request = borgbackup::common::CreateOptions::new(repository, archive, options.paths.clone(), patterns);
    request.passphrase = options.passphrase.clone();
    borgbackup::sync::create(&request, &borgbackup::common::CommonOptions::default())
}

/// Turns a `borgbackup::errors::CreateError` into the library's failure value.
/// Nothing is claimed of the result.
#[verifier::external_body]
pub(crate) fn create_failure(error: borgbackup::errors::CreateError) -> (failure: EngineFailure) {
    let kind = match &error {
        borgbackup::errors::CreateError::ArchiveAlreadyExists => FailureKind::ArchiveAlreadyExists,
        borgbackup::errors::CreateError::PassphraseWrong => FailureKind::PassphraseWrong,
        _ => FailureKind::Other,
    };
    EngineFailure { kind, summary: format!("{}", error), detail: format!("{:?}", error) }
}

/// Copies out of a `borgbackup::output::create::Create` what the library
/// reports of a new archive, timestamps and duration as text. Nothing is
/// claimed of the result.
#[verifier::external_body]
pub(crate) fn archive_result(created: borgbackup::output::create::Create) -> (result:
    ArchiveResult) {
    ArchiveResult {
        location: created.repository.location,
        name: created.archive.name,
        start: created.archive.start.to_string(),
        end: created.archive.end.to_string(),
        duration: created.archive.duration.to_string(),
        command_line: created.archive.command_line,
    }
}

/// Whether `outcome` is an answer of the engine to the request `request` for
/// a new repository: what `engine_init` gave for exactly this request, a
/// failure written as `init_failure` writes it.
///
/// The engine may answer the same request differently from one time to the
/// next, so this is a relation, not a function of the request. It can be had
/// only by asking the engine.
pub closed spec fn engine_initialised(
    request: InitOptionsView,
    outcome: Result<(), EngineFailure>,
) -> bool {
    exists|options: &InitOptions, raw: Result<(), borgbackup::errors::InitError>|
        options@ == request && #[trigger] call_ensures(engine_init, (options,), raw)
            && match raw {
            Ok(()) => outcome is Ok,
            Err(error) => outcome matches Err(failure) && call_ensures(
                init_failure,
                (error,),
                failure,
            ),
        }
}

/// Whether `outcome` is an answer of the engine to the request to list the
/// repository at `repository` with `passphrase`: what `engine_list` gave for
/// exactly these two, a listing copied as `repository_listing` copies it, a
/// failure written as `list_failure` writes it.
pub closed spec fn engine_listed(
    repository: Seq<char>,
    passphrase: Seq<char>,
    outcome: Result<RepositoryListing, EngineFailure>,
) -> bool {
    exists|
        location: &str,
        secret: &str,
        raw: Result<borgbackup::output::list::ListRepository, borgbackup::errors::ListError>,
    |
        location@ == repository && secret@ == passphrase && #[trigger] call_ensures(
            engine_list,
            (location, secret),
            raw,
        ) && match raw {
            Ok(listed) => outcome matches Ok(listing) && call_ensures(
                repository_listing,
                (listed,),
                listing,
            ),
            Err(error) => outcome matches Err(failure) && call_ensures(
                list_failure,
                (error,),
                failure,
            ),
        }
}

/// Whether `outcome` is an answer of the engine to the request `request` for
/// a new archive: what `engine_create` gave for exactly this request, an
/// archive copied as `archive_result` copies it, a failure written as
/// `create_failure` writes it.
pub closed spec fn engine_created(
    request: CreateOptionsView,
    outcome: Result<ArchiveResult, EngineFailure>,
) -> bool {
    exists|
        options: &CreateOptions,
        raw: Result<borgbackup::output::create::Create, borgbackup::errors::CreateError>,
    |
        options@ == request && #[trigger] call_ensures(engine_create, (options,), raw)
            && match raw {
            Ok(created) => outcome matches Ok(archive) && call_ensures(
                archive_result,
                (created,),
                archive,
            ),
            Err(error) => outcome matches Err(failure) && call_ensures(
                create_failure,
                (error,),
                failure,
            ),
        }
}

/// Asks the engine for the repository that `request` describes and hands on
/// its answer, a failure as the library's value.
pub(crate) fn ask_init(request: &InitOptions) -> (outcome: Result<(), EngineFailure>)
    ensures
        engine_initialised(request@, outcome),
{
    match engine_init(request) {
        Ok(()) => Ok(()),
        Err(error) => Err(init_failure(error)),
    }
}

/// Asks the engine to list the repository at `repository` with `passphrase`
/// and hands on its answer as the library's values.
pub(crate) fn ask_listing(repository: &str, passphrase: &str) -> (outcome: Result<
    RepositoryListing,
    EngineFailure,
>)
    ensures
        engine_listed(repository@, passphrase@, outcome),
{
    match engine_list(repository, passphrase) {
        Ok(listed) => Ok(repository_listing(listed)),
        Err(error) => Err(list_failure(error)),
    }
}

/// Asks the engine for the archive that `request` describes and hands on its
/// answer as the library's values.
pub(crate) fn ask_create(request: &CreateOptions) -> (outcome: Result<ArchiveResult, EngineFailure>)
    ensures
        engine_created(request@, outcome),
{
    match engine_create(request) {
        Ok(created) => Ok(archive_result(created)),
        Err(error) => Err(create_failure(error)),
    }
}

} // verus!
