//! What the command line asks for, and the checks on what the user types
//! into the interactive installer.

use crate::error::Failure;
use crate::git::remote::{get_host_git_url, host_git_url, ConnectionMethod, RepoHostName};
use vstd::prelude::*;
use vstd::string::*;

verus! {

/// The manifest that is read where the user names none.
pub const DEFAULT_MANIFEST: &'static str = "jtd.yaml";

/// What the program is asked to do.
#[derive(Debug)]
pub enum JoinTheDots {
    Install(InstallSubcommandArgs),
    Sync(SyncSubcommandArgs),
    Interactive(InteractiveSubcommandArgs),
}

/// Install the dotfiles of a repository.
#[derive(Debug)]
pub struct InstallSubcommandArgs {
    /// The repository, as `OWNER/NAME`.
    pub repository: String,
    /// How the repository is cloned.
    pub method: ConnectionMethod,
    /// The manifest to use in the repository.
    pub manifest: String,
    /// The dotfiles to install.
    pub target_dotfiles: Vec<String>,
    /// The host that the repository is on.
    pub source: RepoHostName,
    /// Whether existing files are overwritten without a question.
    pub force: bool,
    /// Whether pre-install and post-install commands run without a
    /// question.
    pub trust: bool,
    /// Whether every dotfile of the manifest is installed.
    pub all: bool,
}

/// Sync local dotfiles back into a repository.
#[derive(Debug)]
pub struct SyncSubcommandArgs {
    /// The repository, as `OWNER/NAME`.
    pub repository: String,
    /// The dotfiles to sync.
    pub target_dotfiles: Vec<String>,
    /// Whether every dotfile of the manifest is synced.
    pub all: bool,
    /// How the repository is cloned and pushed to.
    pub method: ConnectionMethod,
    /// The manifest to use in the repository.
    pub manifest: String,
    /// The host that the repository is on.
    pub source: RepoHostName,
    /// The message of the commit, where the generated one is not wanted.
    pub commit_msg: Option<String>,
}

/// Install through a series of questions.
#[derive(Debug)]
pub struct InteractiveSubcommandArgs {}

/// An ASCII letter or digit.
pub open spec fn is_word_char(c: char) -> bool {
    ('a' <= c && c <= 'z') || ('A' <= c && c <= 'Z') || ('0' <= c && c <= '9')
}

/// The text holds an owner and a name with a slash between them: somewhere
/// a letter or digit, a slash, and a letter or digit follow one another.
pub open spec fn names_repository(text: Seq<char>) -> bool {
    exists|i: int|
        0 <= i && i + 2 < text.len() && is_word_char(#[trigger] text[i]) && text[i + 1] == '/'
            && is_word_char(text[i + 2])
}

/// `text` ends in `ending`.
pub open spec fn ends_with(text: Seq<char>, ending: Seq<char>) -> bool {
    ending.len() <= text.len() && text.skip(text.len() - ending.len()) == ending
}

/// The text names a YAML file: it ends in `.yaml` or `.yml`.
pub open spec fn names_yaml_file(text: Seq<char>) -> bool {
    ends_with(text, seq!['.', 'y', 'a', 'm', 'l']) || ends_with(text, seq!['.', 'y', 'm', 'l'])
}

/// Whether a character is an ASCII letter or digit.
fn word_char(c: char) -> (is: bool)
    ensures
        is == is_word_char(c),
{
    ('a' <= c && c <= 'z') || ('A' <= c && c <= 'Z') || ('0' <= c && c <= '9')
}

/// Whether the user's input names a repository as `OWNER/NAME`.
pub fn is_repository(input: &str) -> (valid: bool)
    ensures
        valid == names_repository(input@),
{
    let length = input.unicode_len();
    if length < 3 {
        return false;
    }
    let mut i: usize = 0;
    while i + 2 < length
        invariant
            length == input@.len(),
            i + 2 <= length,
            forall|j: int|
                0 <= j < i ==> !(is_word_char(#[trigger] input@[j]) && input@[j + 1] == '/'
                    && is_word_char(input@[j + 2])),
        decreases length - i,
    {
        if word_char(input.get_char(i)) && input.get_char(i + 1) == '/' && word_char(
            input.get_char(i + 2),
        ) {
            return true;
        }
        i += 1;
    }
    false
}

/// Whether the last characters of `input` are those of `ending`.
fn has_ending(input: &str, ending: &[char]) -> (has: bool)
    ensures
        has == ends_with(input@, ending@),
{
    let length = input.unicode_len();
    if ending.len() > length {
        return false;
    }
    let offset = length - ending.len();
    let mut i: usize = 0;
    while i < ending.len()
        invariant
            length == input@.len(),
            offset + ending@.len() == length,
            i <= ending@.len(),
            forall|j: int| 0 <= j < i ==> input@[offset + j] == ending@[j],
        decreases ending@.len() - i,
    {
        if input.get_char(offset + i) != ending[i] {
            assert(input@.skip(offset as int)[i as int] != ending@[i as int]);
            return false;
        }
        i += 1;
    }
    assert(input@.skip(offset as int) =~= ending@);
    true
}

/// Whether the user's input names a YAML manifest.
pub fn is_yaml_file(input: &str) -> (valid: bool)
    ensures
        valid == names_yaml_file(input@),
{
    let long = ['.', 'y', 'a', 'm', 'l'];
    let short = ['.', 'y', 'm', 'l'];
    assert(long@ =~= seq!['.', 'y', 'a', 'm', 'l']);
    assert(short@ =~= seq!['.', 'y', 'm', 'l']);
    has_ending(input, long.as_slice()) || has_ending(input, short.as_slice())
}

impl InstallSubcommandArgs {
    /// What the interactive installer asks for once the user has answered:
    /// no dotfile named, no blanket trust and not all dotfiles, so that the
    /// user picks the dotfiles and is asked about their commands.
    pub fn interactive(
        repository: String,
        source: RepoHostName,
        method: ConnectionMethod,
        manifest: String,
        force: bool,
    ) -> (args: Self)
        ensures
            args.repository == repository,
            args.source == source,
            args.method == method,
            args.manifest == manifest,
            args.force == force,
            args.target_dotfiles@.len() == 0,
            !args.trust,
            !args.all,
    {
        InstallSubcommandArgs {
            repository,
            method,
            manifest,
            target_dotfiles: Vec::new(),
            source,
            force,
            trust: false,
            all: false,
        }
    }

    /// The URL that the repository is cloned from.
    pub fn url(&self) -> (url: Result<String, Failure>)
        ensures
            url is Ok,
            url->Ok_0@ == host_git_url(self.repository@, self.source, self.method),
    {
        get_host_git_url(self.repository.as_str(), &self.source, &self.method)
    }
}

impl SyncSubcommandArgs {
    /// The URL that the repository is cloned from and pushed to.
    pub fn url(&self) -> (url: Result<String, Failure>)
        ensures
            url is Ok,
            url->Ok_0@ == host_git_url(self.repository@, self.source, self.method),
    {
        get_host_git_url(self.repository.as_str(), &self.source, &self.method)
    }
}

} // verus!
