//! What is recorded about each installed dotfile, and the store that holds
//! the records of all of them.

use crate::error::Failure;
use crate::table::Table;
use vstd::prelude::*;
use vstd::string::*;

verus! {

/// The first line of the store's file.
pub const STORE_HEADER: &'static str =
    "# jointhedots installation manifest. Automatically generated, DO NOT EDIT (unless you know what you're doing)\n";

/// The record of one dotfile, as texts.
pub struct MetadataView {
    pub install_hash: Seq<char>,
    pub sync_hash: Seq<char>,
    pub pre_install_hash: Seq<char>,
    pub post_install_hash: Seq<char>,
}

/// The metadata of an installed dotfile.
#[derive(Debug)]
pub struct DotfileMetadata {
    /// The commit whose content is believed to be installed locally.
    pub install_hash: String,
    /// The commit made when this dotfile was last synced.
    pub sync_hash: String,
    /// The hash of the pre-install commands that were run, or nothing.
    pub pre_install_hash: String,
    /// The hash of the post-install commands that were run, or nothing.
    pub post_install_hash: String,
}

impl View for DotfileMetadata {
    type V = MetadataView;

    open spec fn view(&self) -> MetadataView {
        MetadataView {
            install_hash: self.install_hash@,
            sync_hash: self.sync_hash@,
            pre_install_hash: self.pre_install_hash@,
            post_install_hash: self.post_install_hash@,
        }
    }
}

impl Clone for DotfileMetadata {
    fn clone(&self) -> (copy: Self)
        ensures
            copy@ == self@,
    {
        DotfileMetadata {
            install_hash: self.install_hash.clone(),
            sync_hash: self.sync_hash.clone(),
            pre_install_hash: self.pre_install_hash.clone(),
            post_install_hash: self.post_install_hash.clone(),
        }
    }
}

impl DotfileMetadata {
    /// A record from the commit a dotfile was installed from, the commit it
    /// was last synced in, and the hashes of its hook commands.
    pub fn new(
        commit_hash: &str,
        sync_hash: &str,
        pre_install_hash: String,
        post_install_hash: String,
    ) -> (metadata: Self)
        ensures
            metadata@ == (MetadataView {
                install_hash: commit_hash@,
                sync_hash: sync_hash@,
                pre_install_hash: pre_install_hash@,
                post_install_hash: post_install_hash@,
            }),
    {
        DotfileMetadata {
            install_hash: String::from_str(commit_hash),
            sync_hash: String::from_str(sync_hash),
            pre_install_hash,
            post_install_hash,
        }
    }
}

/// The metadata of all dotfiles of this machine, by dotfile name.
#[derive(Debug)]
pub struct AggregatedDotfileMetadata {
    pub data: Table<DotfileMetadata>,
}

impl AggregatedDotfileMetadata {
    /// A store without records.
    pub fn new() -> (store: Self)
        ensures
            store.data.rows() == Seq::<(Seq<char>, DotfileMetadata)>::empty(),
    {
        AggregatedDotfileMetadata { data: Table::new() }
    }

    /// The store as it was found on disk. `read` is `None` where the file
    /// could not be opened, and holds the parser's complaint where the file
    /// could not be parsed.
    ///
    /// A file that cannot be opened is no store; a file that cannot be
    /// parsed is a failure.
    pub fn get(read: Option<Result<AggregatedDotfileMetadata, String>>) -> (found: Result<
        Option<AggregatedDotfileMetadata>,
        Failure,
    >)
        ensures
            match read {
                None => found == Ok::<Option<AggregatedDotfileMetadata>, Failure>(None),
                Some(Ok(store)) => found == Ok::<Option<AggregatedDotfileMetadata>, Failure>(
                    Some(store),
                ),
                Some(Err(_)) => found == Err::<Option<AggregatedDotfileMetadata>, Failure>(
                    Failure::MetadataUnreadable,
                ),
            },
    {
        match read {
            None => Ok(None),
            Some(Ok(store)) => Ok(Some(store)),
            Some(Err(_)) => Err(Failure::MetadataUnreadable),
        }
    }

    /// The store as it was found on disk, or an empty one where there is no
    /// file yet.
    pub fn get_or_create(read: Option<Result<AggregatedDotfileMetadata, String>>) -> (store:
        Result<AggregatedDotfileMetadata, Failure>)
        ensures
            match read {
                None => store is Ok && store->Ok_0.data.rows() == Seq::<
                    (Seq<char>, DotfileMetadata),
                >::empty(),
                Some(Ok(found)) => store == Ok::<AggregatedDotfileMetadata, Failure>(found),
                Some(Err(_)) => store == Err::<AggregatedDotfileMetadata, Failure>(
                    Failure::MetadataUnreadable,
                ),
            },
    {
        match AggregatedDotfileMetadata::get(read) {
            Ok(Some(store)) => Ok(store),
            Ok(None) => Ok(AggregatedDotfileMetadata::new()),
            Err(failure) => Err(failure),
        }
    }

    /// The contents of the store's file: the header line, then the records
    /// as the caller serialised them.
    pub fn save(&self, serialised: &str) -> (contents: String)
        ensures
            contents@ == STORE_HEADER@ + serialised@,
    {
        let mut contents = String::from_str(STORE_HEADER);
        contents.append(serialised);
        contents
    }
}

} // verus!
