//! Initialising a repository.

use crate::borg::engine::{
    ask_init, engine_initialised, EncryptionMode, EngineFailure, InitOptions, InitOptionsView,
    ModeKind,
};
use crate::borg::BorgTrait;
use vstd::prelude::*;

verus! {

/// Arguments of the initialisation of a repository.
#[derive(Debug, Clone)]
pub struct InitArgs {
    pub repository: String,
    pub passphrase: String,
}

impl BorgTrait for InitArgs {
    open spec fn repository_value(&self) -> Seq<char> {
        self.repository@
    }

    open spec fn passphrase_value(&self) -> Seq<char> {
        self.passphrase@
    }

    fn repository(&self) -> (repository: String) {
        self.repository.clone()
    }

    fn passphrase(&self) -> (passphrase: String) {
        self.passphrase.clone()
    }
}

impl InitArgs {
    /// Arguments for a repository at `repository`, locked with `passphrase`.
    pub fn new(repository: String, passphrase: String) -> (init_args: InitArgs)
        ensures
            init_args.repository@ == repository@,
            init_args.passphrase@ == passphrase@,
    {
        InitArgs { repository, passphrase }
    }
}

/// The request for a new repository at `repository` under `passphrase`: the
/// key is kept on this machine and the contents are encrypted with AES and
/// authenticated with BLAKE2b; compaction stays allowed, missing directories
/// above the repository are not made, and there is no quota.
pub open spec fn init_request_for(repository: Seq<char>, passphrase: Seq<char>) -> InitOptionsView {
    InitOptionsView {
        repository,
        encryption_mode: (ModeKind::KeyfileBlake2, passphrase),
        append_only: false,
        make_parent_dirs: false,
        storage_quota: None,
    }
}

/// The request that [`initialise_repository`] hands to the engine for
/// `init_args`.
pub open spec fn init_request<T: BorgTrait>(init_args: &T) -> InitOptionsView {
    init_request_for(init_args.repository_value(), init_args.passphrase_value())
}

/// Builds the request for a new repository at `repository` under
/// `passphrase`.
pub fn new_init_options(repository: String, passphrase: String) -> (options: InitOptions)
    ensures
        options@ == init_request_for(repository@, passphrase@),
{
    InitOptions {
        repository,
        encryption_mode: EncryptionMode::KeyfileBlake2(passphrase),
        append_only: false,
        make_parent_dirs: false,
        storage_quota: None,
    }
}

/// Asks the engine for a new repository at the location of `init_args`,
/// encrypted under its passphrase.
///
/// Whether the engine succeeds is not for this function to say. What it
/// hands back is the engine's answer to exactly the request of
/// [`init_request`].
pub fn initialise_repository<T: BorgTrait>(init_args: &T) -> (outcome: Result<(), EngineFailure>)
    ensures
        engine_initialised(init_request(init_args), outcome),
{
    let request = new_init_options(init_args.repository(), init_args.passphrase());
    ask_init(&request)
}

} // verus!
