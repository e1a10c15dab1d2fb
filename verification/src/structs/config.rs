//! Sync policy of a manifest: how commits are worded and whether they are
//! squashed.

use crate::text::{find_last, join, joined, last_position, slice_texts};
use vstd::prelude::*;
use vstd::string::*;

verus! {

/// `listing` with its last comma turned into the word "and": `a, b, c`
/// becomes `a, b and c`. A listing without a comma stays as it is.
pub open spec fn with_final_and(listing: Seq<char>) -> Seq<char> {
    let at = last_position(listing, ',');
    if at < 0 {
        listing
    } else {
        listing.take(at) + " and"@ + listing.skip(at + 1)
    }
}

/// The commit message for a sync of the dotfiles `names` under `prefix`.
///
/// One dotfile gives `Sync NAME dotfile`. Any other number gives
/// `Sync dotfiles for A, B and C`: the names are joined with commas and the
/// last comma of the whole line is replaced.
pub open spec fn commit_message(prefix: Seq<char>, names: Seq<Seq<char>>) -> Seq<char> {
    if names.len() == 1 {
        prefix + "Sync "@ + names[0] + " dotfile"@
    } else {
        prefix + with_final_and("Sync dotfiles for "@ + joined(names, ", "@))
    }
}

/// Sync policy attached to a manifest.
#[derive(Debug)]
pub struct Config {
    /// Text put in front of every generated commit message.
    pub commit_prefix: String,
    /// Whether the commits of one sync run are collapsed into one.
    pub squash_commits: bool,
}

impl Default for Config {
    fn default() -> (config: Self)
        ensures
            config.commit_prefix@ == "\u{1F501} "@,
            config.squash_commits,
    {
        Config { commit_prefix: String::from_str("\u{1F501} "), squash_commits: true }
    }
}

impl Clone for Config {
    fn clone(&self) -> (copy: Self)
        ensures
            copy.commit_prefix@ == self.commit_prefix@,
            copy.squash_commits == self.squash_commits,
    {
        Config { commit_prefix: self.commit_prefix.clone(), squash_commits: self.squash_commits }
    }
}

impl Config {
    /// The message of a commit that syncs `dotfile_names`.
    pub fn generate_commit_message(&self, dotfile_names: Vec<&str>) -> (message: String)
        ensures
            message@ == commit_message(self.commit_prefix@, slice_texts(dotfile_names@)),
    {
        let mut message = self.commit_prefix.clone();
        if dotfile_names.len() == 1 {
            message.append("Sync ");
            message.append(dotfile_names[0]);
            message.append(" dotfile");
        } else {
            let mut listing = String::from_str("Sync dotfiles for ");
            let names = join(dotfile_names.as_slice(), ", ");
            listing.append(names.as_str());
            match find_last(listing.as_str(), ',') {
                None => {
                    message.append(listing.as_str());
                },
                Some(at) => {
                    let length = listing.as_str().unicode_len();
                    message.append(listing.as_str().substring_char(0, at));
                    message.append(" and");
                    message.append(listing.as_str().substring_char(at + 1, length));
                    assert(listing@.take(at as int) == listing@.subrange(0, at as int));
                    assert(listing@.skip(at + 1) == listing@.subrange(
                        at + 1,
                        listing@.len() as int,
                    ));
                },
            }
        }
        message
    }
}

} // verus!
