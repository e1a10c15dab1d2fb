//! The failures of the install and sync workflows, and how they read.

use vstd::prelude::*;
use vstd::string::*;

verus! {

/// Where the metadata store is kept, with the home directory abbreviated.
pub const MANIFEST_PATH: &'static str = "~/.local/share/jointhedots/manifest.yaml";

/// Why a workflow stopped.
#[derive(Debug)]
pub enum Failure {
    /// The manifest file of the repository is missing (there is no
    /// `complaint` then) or cannot be parsed.
    ManifestUnreadable { file: String, complaint: Option<String> },
    /// The metadata store exists and cannot be parsed.
    MetadataUnreadable,
    /// A recorded commit hash does not name a commit of the repository.
    CorruptMetadata { dotfile: String, hash: String },
    /// An install would overwrite local edits that were never synced.
    LocalChangesConflict { dotfile: String },
    /// The version-control backend failed while merging.
    MergeFailed { reason: String },
    /// A pre-install or post-install command could not be run.
    HookExecutionFailure { dotfile: String, reason: String },
    /// A sync was asked for without metadata and without leave to overwrite.
    MissingMetadata,
    /// The manifest has no dotfile of that name.
    UnknownDotfile { name: String },
    /// A word that names neither a host nor a connection method.
    UnknownVariant { word: String },
    /// Any other failure of the disk or of the version-control backend.
    Backend { reason: String },
}

impl Failure {
    /// The message shown to the user. Every message names the dotfile and
    /// the hash it is about.
    pub open spec fn text(&self) -> Seq<char> {
        match self {
            Failure::ManifestUnreadable { file, complaint } => match complaint {
                None => "Could not find manifest "@ + file@ + " in repository."@,
                Some(complaint) => "Could not parse manifest "@ + file@ + ": "@ + complaint@,
            },
            Failure::MetadataUnreadable => "Could not parse manifest. Check "@ + MANIFEST_PATH@
                + " for issues"@,
            Failure::CorruptMetadata { dotfile, hash } => "Could not find last sync'd commit "@
                + hash@ + " for "@ + dotfile@
                + ", manifest is corrupt. Try fresh-installing this dotfile or manually correcting the commit hash in "@
                + MANIFEST_PATH@,
            Failure::LocalChangesConflict { dotfile } => "Refusing to install dotfile "@ + dotfile@
                + ". Changes have been made since last sync. either run \"jtd sync\" for this dotfile or call install again with the \"--force\" flag"@,
            Failure::MergeFailed { reason } => "Could not merge commits: "@ + reason@,
            Failure::HookExecutionFailure { dotfile, reason } => "Could not run install steps of "@
                + dotfile@ + ": "@ + reason@,
            Failure::MissingMetadata => "Aborting due to lack of dotfile metadata"@,
            Failure::UnknownDotfile { name } => "Target dotfile \""@ + name@
                + "\" was not found in the manifest"@,
            Failure::UnknownVariant { word } => "Failed to convert: '"@ + word@
                + "' is not a known variant."@,
            Failure::Backend { reason } => reason@,
        }
    }

    /// The message shown to the user.
    pub fn message(&self) -> (message: String)
        ensures
            message@ == self.text(),
    {
        match self {
            Failure::ManifestUnreadable { file, complaint } => match complaint {
                None => {
                    let mut message = String::from_str("Could not find manifest ");
                    message.append(file.as_str());
                    message.append(" in repository.");
                    message
                },
                Some(complaint) => {
                    let mut message = String::from_str("Could not parse manifest ");
                    message.append(file.as_str());
                    message.append(": ");
                    message.append(complaint.as_str());
                    message
                },
            },
            Failure::MetadataUnreadable => {
                let mut message = String::from_str("Could not parse manifest. Check ");
                message.append(MANIFEST_PATH);
                message.append(" for issues");
                message
            },
            Failure::CorruptMetadata { dotfile, hash } => {
                let mut message = String::from_str("Could not find last sync'd commit ");
                message.append(hash.as_str());
                message.append(" for ");
                message.append(dotfile.as_str());
                message.append(
                    ", manifest is corrupt. Try fresh-installing this dotfile or manually correcting the commit hash in ",
                );
                message.append(MANIFEST_PATH);
                message
            },
            Failure::LocalChangesConflict { dotfile } => {
                let mut message = String::from_str("Refusing to install dotfile ");
                message.append(dotfile.as_str());
                message.append(
                    ". Changes have been made since last sync. either run \"jtd sync\" for this dotfile or call install again with the \"--force\" flag",
                );
                message
            },
            Failure::MergeFailed { reason } => {
                let mut message = String::from_str("Could not merge commits: ");
                message.append(reason.as_str());
                message
            },
            Failure::HookExecutionFailure { dotfile, reason } => {
                let mut message = String::from_str("Could not run install steps of ");
                message.append(dotfile.as_str());
                message.append(": ");
                message.append(reason.as_str());
                message
            },
            Failure::MissingMetadata => String::from_str(
                "Aborting due to lack of dotfile metadata",
            ),
            Failure::UnknownDotfile { name } => {
                let mut message = String::from_str("Target dotfile \"");
                message.append(name.as_str());
                message.append("\" was not found in the manifest");
                message
            },
            Failure::UnknownVariant { word } => {
                let mut message = String::from_str("Failed to convert: '");
                message.append(word.as_str());
                message.append("' is not a known variant.");
                message
            },
            Failure::Backend { reason } => reason.clone(),
        }
    }
}

} // verus!
