//! Bringing the metadata of a remote up to date: whether anything is to be
//! fetched at all, and in which order the metadata and its signature are
//! fetched and handed to the daemon.
//!
//! The caller performs each [`MetadataStep`] and reports its success as a
//! [`MetadataEvent`]. A step that fails ends the update with the caller's
//! error; nothing is reported for it.

use crate::common::{checksum_matches, checksum_guess_kind, guess_kind_of, validate_checksum};
use crate::remote::{
    lemma_basename_of_plain_end, local_cache_of, signature_extension_of, Remote, RemoteModel,
};
use crate::text::basename_of;
use crate::wire::text_of;
use vstd::prelude::*;
use vstd::string::*;

verus! {

/// All that an update of the metadata needs to know.
#[derive(Clone, Debug)]
pub struct MetadataPlan {
    /// Where the metadata is fetched from.
    pub uri: String,
    /// The place of the cached metadata below the cache root.
    pub path: String,
    /// Where the signature is fetched from.
    pub signature_uri: String,
    /// The place of the cached signature below the cache root.
    pub signature_path: String,
    /// The checksum of the metadata as last known.
    pub checksum: Option<String>,
}

/// The mathematical content of a [`MetadataPlan`].
pub ghost struct MetadataPlanModel {
    pub uri: Seq<char>,
    pub path: Seq<char>,
    pub signature_uri: Seq<char>,
    pub signature_path: Seq<char>,
    pub checksum: Option<Seq<char>>,
}

impl View for MetadataPlan {
    type V = MetadataPlanModel;

    open spec fn view(&self) -> MetadataPlanModel {
        MetadataPlanModel {
            uri: self.uri@,
            path: self.path@,
            signature_uri: self.signature_uri@,
            signature_path: self.signature_path@,
            checksum: text_of(self.checksum),
        }
    }
}

/// What an update of the metadata of `remote` works with. There is nothing
/// to do, and so no plan, for a remote that is not enabled or has no URI.
/// The signature lies beside the metadata, at the remote and in the cache,
/// under the same name with the extension of the remote's keyring.
pub open spec fn metadata_plan_of(remote: RemoteModel) -> Option<MetadataPlanModel> {
    if !remote.enabled {
        None
    } else {
        match remote.uri {
            Some(uri) => Some(
                MetadataPlanModel {
                    uri,
                    path: local_cache_of(remote, remote.filename_cache).unwrap(),
                    signature_uri: uri + signature_extension_of(remote.keyring),
                    signature_path: local_cache_of(
                        remote,
                        remote.filename_cache + signature_extension_of(remote.keyring),
                    ).unwrap(),
                    checksum: remote.checksum,
                },
            ),
            None => None,
        }
    }
}

/// True where the metadata of the remote has a name to be cached under, if
/// it is to be fetched at all.
pub open spec fn metadata_cacheable(remote: RemoteModel) -> bool {
    remote.enabled && remote.uri.is_some() ==> basename_of(remote.filename_cache).is_some()
}

/// The name of a signature file ends in a letter, so it has a last segment.
pub proof fn lemma_signature_has_basename(remote: RemoteModel)
    ensures
        basename_of(remote.filename_cache + signature_extension_of(remote.keyring)).is_some(),
{
    reveal_strlit(".jcat");
    reveal_strlit(".p7b");
    reveal_strlit(".asc");
    let extension = signature_extension_of(remote.keyring);
    let name = remote.filename_cache + extension;
    assert(name.last() == extension.last());
    lemma_basename_of_plain_end(name);
}

impl Remote {
    /// Whether the metadata of this remote has a name to be cached under, if
    /// it is to be fetched at all.
    pub fn metadata_is_cacheable(&self) -> (fit: bool)
        ensures
            fit == metadata_cacheable(self@),
    {
        if self.enabled && self.uri.is_some() {
            crate::text::basename(self.filename_cache.as_str()).is_some()
        } else {
            true
        }
    }

    /// What an update of the metadata of this remote works with, see
    /// [`metadata_plan_of`].
    pub fn plan_update_metadata(&self) -> (plan: Option<MetadataPlan>)
        requires
            metadata_cacheable(self@),
        ensures
            match plan {
                Some(found) => metadata_plan_of(self@) == Some(found@),
                None => metadata_plan_of(self@).is_none(),
            },
    {
        if !self.enabled {
            return None;
        }
        match &self.uri {
            Some(uri) => {
                let extension = self.keyring.signature_extension();
                let mut signature_uri = uri.clone();
                signature_uri.append(extension);
                let mut signature_file = self.filename_cache.clone();
                signature_file.append(extension);
                proof {
                    lemma_signature_has_basename(self@);
                }
                Some(
                    MetadataPlan {
                        uri: uri.clone(),
                        path: self.local_cache(self.filename_cache.as_str()),
                        signature_uri,
                        signature_path: self.local_cache(signature_file.as_str()),
                        checksum: self.checksum.clone(),
                    },
                )
            },
            None => None,
        }
    }
}

/// Where an update of the metadata stands.
#[derive(Clone, Copy, Debug, PartialEq, Eq, Structural)]
pub enum MetadataState {
    /// The cached metadata is being looked at.
    CheckLocalCache,
    /// The metadata is being fetched.
    FetchMetadata,
    /// The signature is being fetched.
    FetchSignature,
    /// Both files are being handed to the daemon.
    Submit,
    /// Nothing is left to do.
    Finished,
}

/// The success of the step that the caller performed.
#[derive(Debug)]
pub enum MetadataEvent {
    /// The cache was looked at: the content of the cached metadata, or
    /// `None` where there is none or it cannot be read.
    Cache(Option<Vec<u8>>),
    /// The file is fetched and lies in the cache, rewound.
    Fetched,
    /// The daemon has taken both files.
    Submitted,
}

/// What the caller is to do next.
#[derive(Clone, Copy, Debug, PartialEq, Eq, Structural)]
pub enum MetadataStep {
    /// Read the cached metadata.
    ReadCache,
    /// Remove the cached metadata, if any, and fetch it anew.
    FetchMetadata,
    /// Remove the cached signature, if any, and fetch it anew.
    FetchSignature,
    /// Hand the metadata and its signature to the daemon.
    Submit,
    /// Nothing: the update has ended well.
    Finish,
}

/// True where `content` is metadata that matches the checksum last known.
/// The digest is guessed from the checksum.
pub open spec fn fresh(plan: MetadataPlanModel, content: Option<Vec<u8>>) -> bool {
    match (plan.checksum, content) {
        (Some(checksum), Some(bytes)) => checksum_matches(
            bytes@,
            checksum,
            guess_kind_of(checksum),
        ),
        _ => false,
    }
}

/// The state and the step that an update starts with: the cache is looked
/// at only where a checksum is known to hold its content against.
pub open spec fn start_of(plan: MetadataPlanModel) -> (MetadataState, MetadataStep) {
    if plan.checksum.is_some() {
        (MetadataState::CheckLocalCache, MetadataStep::ReadCache)
    } else {
        (MetadataState::FetchMetadata, MetadataStep::FetchMetadata)
    }
}

/// The state reached and the step to take when `event` comes in `state`, or
/// `None` where `event` answers no step that leads to `state`.
///
/// Cached metadata that matches the checksum ends the update: nothing is
/// fetched and the daemon is not called. Otherwise the metadata is fetched,
/// then its signature, which is fetched anew every time, and both are handed
/// to the daemon.
pub open spec fn step_of(
    plan: MetadataPlanModel,
    state: MetadataState,
    event: MetadataEvent,
) -> Option<(MetadataState, MetadataStep)> {
    match (state, event) {
        (MetadataState::CheckLocalCache, MetadataEvent::Cache(content)) => if fresh(
            plan,
            content,
        ) {
            Some((MetadataState::Finished, MetadataStep::Finish))
        } else {
            Some((MetadataState::FetchMetadata, MetadataStep::FetchMetadata))
        },
        (MetadataState::FetchMetadata, MetadataEvent::Fetched) => Some(
            (MetadataState::FetchSignature, MetadataStep::FetchSignature),
        ),
        (MetadataState::FetchSignature, MetadataEvent::Fetched) => Some(
            (MetadataState::Submit, MetadataStep::Submit),
        ),
        (MetadataState::Submit, MetadataEvent::Submitted) => Some(
            (MetadataState::Finished, MetadataStep::Finish),
        ),
        _ => None,
    }
}

/// A remote that is not enabled is left alone: there is no plan for it, and
/// so no step that would reach the network or write to the disk.
pub proof fn lemma_disabled_remote_is_left_alone(remote: RemoteModel)
    requires
        !remote.enabled,
    ensures
        metadata_plan_of(remote).is_none(),
        metadata_cacheable(remote),
{
}

/// The state and the step that an update starts with, see [`start_of`].
pub fn begin(plan: &MetadataPlan) -> (out: (MetadataState, MetadataStep))
    ensures
        out == start_of(plan@),
{
    if plan.checksum.is_some() {
        (MetadataState::CheckLocalCache, MetadataStep::ReadCache)
    } else {
        (MetadataState::FetchMetadata, MetadataStep::FetchMetadata)
    }
}

/// Takes `event` in `state`: the state reached and the step to take, see
/// [`step_of`]. `None` where `event` answers no step that leads to `state`.
pub fn step(plan: &MetadataPlan, state: MetadataState, event: &MetadataEvent) -> (out: Option<
    (MetadataState, MetadataStep),
>)
    ensures
        out == step_of(plan@, state, *event),
{
    match (state, event) {
        (MetadataState::CheckLocalCache, MetadataEvent::Cache(content)) => {
            let matched = match (&plan.checksum, content) {
                (Some(checksum), Some(bytes)) => validate_checksum(
                    bytes.as_slice(),
                    checksum.as_str(),
                    checksum_guess_kind(checksum.as_str()),
                ),
                _ => false,
            };
            if matched {
                Some((MetadataState::Finished, MetadataStep::Finish))
            } else {
                Some((MetadataState::FetchMetadata, MetadataStep::FetchMetadata))
            }
        },
        (MetadataState::FetchMetadata, MetadataEvent::Fetched) => Some(
            (MetadataState::FetchSignature, MetadataStep::FetchSignature),
        ),
        (MetadataState::FetchSignature, MetadataEvent::Fetched) => Some(
            (MetadataState::Submit, MetadataStep::Submit),
        ),
        (MetadataState::Submit, MetadataEvent::Submitted) => Some(
            (MetadataState::Finished, MetadataStep::Finish),
        ),
        _ => None,
    }
}

} // verus!
