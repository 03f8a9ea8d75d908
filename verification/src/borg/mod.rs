//! The backup engine and everything that is said to it: repository
//! initialisation, listing, archive creation and the schedule that drives them.

pub mod clock;
pub mod create;
pub mod engine;
pub mod errors;
pub mod guard;
pub mod init;
pub mod list;
pub mod schedule;

use vstd::prelude::*;

verus! {

/// What every command needs: where the repository is and what unlocks it.
pub trait BorgTrait {
    /// The repository location that [`BorgTrait::repository`] hands out.
    spec fn repository_value(&self) -> Seq<char>;

    /// The passphrase that [`BorgTrait::passphrase`] hands out.
    spec fn passphrase_value(&self) -> Seq<char>;

    /// The location of the repository.
    fn repository(&self) -> (repository: String)
        ensures
            repository@ == self.repository_value(),
    ;

    /// The passphrase of the repository.
    fn passphrase(&self) -> (passphrase: String)
        ensures
            passphrase@ == self.passphrase_value(),
    ;
}

/// What the creation of an archive needs beyond [`BorgTrait`].
pub trait CreateTrait: BorgTrait {
    /// The archive name that [`CreateTrait::archive`] hands out.
    spec fn archive_value(&self) -> Option<Seq<char>>;

    /// The paths that [`CreateTrait::paths`] hands out.
    spec fn paths_value(&self) -> Seq<Seq<char>>;

    /// The patterns that [`CreateTrait::include_patterns`] hands out.
    spec fn include_patterns_value(&self) -> Option<Seq<Seq<char>>>;

    /// The patterns that [`CreateTrait::exclude_patterns`] hands out.
    spec fn exclude_patterns_value(&self) -> Option<Seq<Seq<char>>>;

    /// The configured archive name, if there is one.
    fn archive(&self) -> (archive: Option<String>)
        ensures
            archive.deep_view() == self.archive_value(),
    ;

    /// The filesystem roots to archive, in the order given.
    fn paths(&self) -> (paths: Vec<String>)
        ensures
            paths.deep_view() == self.paths_value(),
    ;

    /// The patterns of what to take in, if any were given.
    fn include_patterns(&self) -> (patterns: Option<Vec<String>>)
        ensures
            patterns.deep_view() == self.include_patterns_value(),
    ;

    /// The patterns of what to leave out, if any were given.
    fn exclude_patterns(&self) -> (patterns: Option<Vec<String>>)
        ensures
            patterns.deep_view() == self.exclude_patterns_value(),
    ;
}

} // verus!
