//! Listing a repository: the probe that tells whether a repository can be
//! read, and the lines that describe one.

use crate::borg::engine::{
    ask_listing, engine_listed, ArchiveEntry, EngineFailure, RepositoryListing,
};
use crate::borg::BorgTrait;
use crate::util::text::prefixed;
use crate::util::{push_line, LogLevel, LogLine};
use vstd::prelude::*;

verus! {

/// Arguments of the listing: the repository, and what to show of it.
#[derive(Debug, Clone)]
pub struct ListArgs {
    pub repository: String,
    pub passphrase: String,
    /// Show when the repository was last modified.
    pub last_modified: bool,
    /// Show how the repository is encrypted.
    pub encryption: bool,
    /// Show the archives of the repository.
    pub archives: bool,
}

impl BorgTrait for ListArgs {
    open spec fn repository_value(&self) -> Seq<char> {
        self.repository@
    }

    open spec fn passphrase_value(&self) -> Seq<char> {
        self.passphrase@
    }

    fn repository(&self) -> (repository: String) {
        self.repository.clone()
    }

    fn passphrase(&self) -> (passphrase: String) {
        self.passphrase.clone()
    }
}

impl Default for ListArgs {
    /// Arguments that name no repository and ask to show nothing.
    fn default() -> (list_args: ListArgs)
        ensures
            list_args.repository@.len() == 0,
            list_args.passphrase@.len() == 0,
            !list_args.last_modified,
            !list_args.encryption,
            !list_args.archives,
    {
        ListArgs {
            repository: String::new(),
            passphrase: String::new(),
            last_modified: false,
            encryption: false,
            archives: false,
        }
    }
}

impl ListArgs {
    /// Arguments that name a repository and ask to show nothing of it.
    pub fn new(repository: &str, passphrase: &str) -> (list_args: ListArgs)
        ensures
            list_args.repository@ == repository@,
            list_args.passphrase@ == passphrase@,
            !list_args.last_modified,
            !list_args.encryption,
            !list_args.archives,
    {
        let mut list_args = ListArgs::default();
        list_args.repository = repository.to_owned();
        list_args.passphrase = passphrase.to_owned();
        list_args
    }
}

/// The line shown for the time of the last modification.
pub open spec fn modified_lines(listing: RepositoryListing) -> Seq<(LogLevel, Seq<char>)> {
    seq![(LogLevel::Info, "Last modified: "@ + listing.last_modified@)]
}

/// The lines shown for the encryption of a repository: the mode and, where
/// there is one, the key file; or one line that says there is no encryption.
pub open spec fn encryption_lines(listing: RepositoryListing) -> Seq<(LogLevel, Seq<char>)> {
    match listing.encryption {
        Some(encryption) => {
            let mode = seq![(LogLevel::Info, "Encryption mode: "@ + encryption.mode@)];
            match encryption.keyfile {
                Some(path) => mode.push((LogLevel::Info, "Path of keyfile: "@ + path@)),
                None => mode,
            }
        },
        None => seq![(LogLevel::Info, "Repository includes no encryption!"@)],
    }
}

/// The line shown for one archive.
pub open spec fn archive_line(entry: ArchiveEntry) -> (LogLevel, Seq<char>) {
    (
        LogLevel::Info,
        "ID: "@ + entry.id@ + ", Name: "@ + entry.name@ + ", Start: "@ + entry.start@,
    )
}

/// The lines shown for the archives: a heading, then one line for each
/// archive in the engine's order, or a warning where there is none.
pub open spec fn archive_lines(listing: RepositoryListing) -> Seq<(LogLevel, Seq<char>)> {
    let heading = seq![(LogLevel::Info, "\nArchives:"@)];
    if listing.archives@.len() == 0 {
        heading.push((LogLevel::Warn, "Repository has no archives"@))
    } else {
        heading + Seq::new(listing.archives@.len(), |i: int| archive_line(listing.archives@[i]))
    }
}

/// Everything that is shown of `listing` under the switches of `list_args`:
/// the modification time, then the encryption, then the archives, each only
/// where its switch is on.
pub open spec fn listing_lines_spec(list_args: ListArgs, listing: RepositoryListing) -> Seq<
    (LogLevel, Seq<char>),
> {
    let modified = if list_args.last_modified {
        modified_lines(listing)
    } else {
        Seq::empty()
    };
    let encryption = if list_args.encryption {
        encryption_lines(listing)
    } else {
        Seq::empty()
    };
    let archives = if list_args.archives {
        archive_lines(listing)
    } else {
        Seq::empty()
    };
    modified + encryption + archives
}

/// Writes the line of one archive.
fn archive_message(entry: &ArchiveEntry) -> (message: String)
    ensures
        (LogLevel::Info, message@) == archive_line(*entry),
{
    let mut message = prefixed("ID: ", entry.id.as_str());
    message.append(", Name: ");
    message.append(entry.name.as_str());
    message.append(", Start: ");
    message.append(entry.start.as_str());
    message
}

/// Describes `listing` as far as the switches of `list_args` ask for it.
pub fn listing_lines(list_args: &ListArgs, listing: &RepositoryListing) -> (lines: Vec<LogLine>)
    ensures
        lines.deep_view() == listing_lines_spec(*list_args, *listing),
{
    let mut lines: Vec<LogLine> = Vec::new();
    assert(lines.deep_view() =~= Seq::empty());
    if list_args.last_modified {
        push_line(
            &mut lines,
            LogLevel::Info,
            prefixed("Last modified: ", listing.last_modified.as_str()),
        );
    }
    let ghost modified = lines.deep_view();
    assert(modified =~= if list_args.last_modified {
        modified_lines(*listing)
    } else {
        Seq::empty()
    });
    if list_args.encryption {
        match &listing.encryption {
            Some(encryption) => {
                push_line(
                    &mut lines,
                    LogLevel::Info,
                    prefixed("Encryption mode: ", encryption.mode.as_str()),
                );
                match &encryption.keyfile {
                    Some(path) => {
                        push_line(
                            &mut lines,
                            LogLevel::Info,
                            prefixed("Path of keyfile: ", path.as_str()),
                        );
                    },
                    None => {},
                }
            },
            None => {
                push_line(
                    &mut lines,
                    LogLevel::Info,
                    String::from_str("Repository includes no encryption!"),
                );
            },
        }
    }
    let ghost encryption = if list_args.encryption {
        encryption_lines(*listing)
    } else {
        Seq::empty()
    };
    assert(lines.deep_view() =~= modified + encryption);
    if list_args.archives {
        push_line(&mut lines, LogLevel::Info, String::from_str("\nArchives:"));
        if listing.archives.len() == 0 {
            push_line(&mut lines, LogLevel::Warn, String::from_str("Repository has no archives"));
            assert(lines.deep_view() =~= modified + encryption + archive_lines(*listing));
            return lines;
        }
        let ghost heading = lines.deep_view();
        let mut i: usize = 0;
        while i < listing.archives.len()
            invariant
                i <= listing.archives.len(),
                lines.deep_view() == heading + Seq::new(
                    i as nat,
                    |k: int| archive_line(listing.archives@[k]),
                ),
            decreases listing.archives.len() - i,
        {
            let message = archive_message(&listing.archives[i]);
            push_line(&mut lines, LogLevel::Info, message);
            assert(lines.deep_view() =~= heading + Seq::new(
                (i + 1) as nat,
                |k: int| archive_line(listing.archives@[k]),
            ));
            i += 1;
        }
        assert(lines.deep_view() =~= modified + encryption + archive_lines(*listing));
    }
    lines
}

/// What is made of the engine's answer to a listing: a listing is described
/// under the switches of `list_args`, a failure is handed on as it is.
pub open spec fn listing_described(
    list_args: ListArgs,
    answer: Result<RepositoryListing, EngineFailure>,
    outcome: Result<Vec<LogLine>, EngineFailure>,
) -> bool {
    match answer {
        Ok(listing) => outcome matches Ok(lines) && lines.deep_view() == listing_lines_spec(
            list_args,
            listing,
        ),
        Err(failure) => outcome matches Err(handed) && handed == failure,
    }
}

/// Whether `outcome` is what [`list_contents`] makes of an answer of the
/// engine to the listing of the repository of `list_args` with its
/// passphrase.
pub open spec fn contents_listed(
    list_args: ListArgs,
    outcome: Result<Vec<LogLine>, EngineFailure>,
) -> bool {
    exists|answer: Result<RepositoryListing, EngineFailure>| #[trigger]
        engine_listed(list_args.repository@, list_args.passphrase@, answer) && listing_described(
            list_args,
            answer,
            outcome,
        )
}

/// Whether `readable` tells how a probe of the repository at `repository`
/// with `passphrase` went: the engine was asked to list exactly that
/// repository, and `readable` is `true` where it gave a listing and `false`
/// where it gave a failure.
pub open spec fn probed(repository: Seq<char>, passphrase: Seq<char>, readable: bool) -> bool {
    exists|answer: Result<RepositoryListing, EngineFailure>| #[trigger]
        engine_listed(repository, passphrase, answer) && readable == (answer is Ok)
}

/// Asks the engine for the repository of `list_args` and describes what it
/// answers.
///
/// Whether the engine answers is not for this function to say. The engine is
/// asked for exactly the repository of `list_args`, with its passphrase.
/// Where it gives a listing, the lines are those of [`listing_lines_spec`]
/// for that listing; where it gives a failure, the failure is handed on.
pub fn list_contents(list_args: ListArgs) -> (outcome: Result<Vec<LogLine>, EngineFailure>)
    ensures
        contents_listed(list_args, outcome),
{
    let answer = ask_listing(list_args.repository.as_str(), list_args.passphrase.as_str());
    match answer {
        Ok(listing) => {
            let lines = listing_lines(&list_args, &listing);
            assert(listing_described(list_args, answer, Ok(lines)));
            Ok(lines)
        },
        Err(failure) => {
            assert(listing_described(list_args, answer, Err(failure)));
            Err(failure)
        },
    }
}

/// Tells whether the engine can read the repository at `repository` with
/// `passphrase`: asks it to list exactly that repository, showing nothing,
/// and gives `true` where it answered with a listing, `false` where it
/// answered with a failure.
pub fn verify_repo_location(repository: &str, passphrase: &str) -> (readable: bool)
    ensures
        probed(repository@, passphrase@, readable),
{
    let list_args = ListArgs::new(repository, passphrase);
    let outcome = list_contents(list_args);
    proof {
        let answer = choose|answer: Result<RepositoryListing, EngineFailure>| #[trigger]
            engine_listed(list_args.repository@, list_args.passphrase@, answer)
                && listing_described(list_args, answer, outcome);
        assert(engine_listed(repository@, passphrase@, answer));
        assert((outcome is Ok) == (answer is Ok));
    }
    match outcome {
        Ok(_) => true,
        Err(_) => false,
    }
}

} // verus!
