//! The remote service's surface, as the engine needs it: traits for each API
//! area, over plain values, and a client that bundles one implementation of
//! each. The HTTP machinery behind them lives with the caller.

use vstd::prelude::*;
use crate::diff::StateMap;
use crate::models::CorpusChatSchema;
use crate::models::CorpusFileChatSchema;
use crate::models::FileSchema;
use crate::models::SplitResponseSchema;

verus! {

/// A failed remote call: transport trouble or an application-level refusal,
/// with the message to show the operator.
#[derive(Debug)]
pub struct ApiError {
    /// What the transport or the service reported.
    pub message: String,
}

/// Corpus-level calls.
pub trait CorpusApi {
    /// Creates a corpus from a name, a full archive and an optional URL;
    /// returns the minted corpus identifier.
    fn create_corpus(&self, name: &str, archive: &Vec<u8>, url: Option<&String>) -> Result<
        String,
        ApiError,
    >;

    /// Fetches the remote state map: each stored path bound to its content
    /// identity.
    fn get_file_hashes(&self, corpus_id: &str) -> Result<StateMap, ApiError>;

    /// Stores or replaces every path in the archive, then removes every path
    /// in the delete list, in one call.
    fn update_files(&self, corpus_id: &str, archive: &Vec<u8>, delete_files: &Vec<String>) -> Result<
        (),
        ApiError,
    >;

    /// Chats against the corpus; returns the assistant's answer.
    fn chat(&self, request: CorpusChatSchema) -> Result<String, ApiError>;
}

/// File-level calls.
pub trait FileApi {
    /// Fetches one stored file.
    fn get_file(&self, file_id: &str) -> Result<FileSchema, ApiError>;
}

/// Plot-generation calls.
pub trait PlanApi {
    /// Generates a plot for the request; returns the image, encoded as the
    /// service sends it.
    fn get_matplotlib_plot(&self, request: CorpusChatSchema) -> Result<String, ApiError>;
}

/// Split-level calls.
pub trait SplitApi {
    /// Fetches one split.
    fn get_split(&self, split_id: &str) -> Result<SplitResponseSchema, ApiError>;

    /// Lists the splits of one file.
    fn list_splits_for_file(&self, file_id: &str) -> Result<Vec<SplitResponseSchema>, ApiError>;
}

/// File-revision calls.
pub trait WorkonApi {
    /// Generates a revision of one file; returns the revised text.
    fn file(&self, request: CorpusFileChatSchema) -> Result<String, ApiError>;
}

/// One implementation of each API area, bundled.
pub struct APIClient<C, F, P, S, W> {
    /// The corpus-level implementation.
    pub corpus_api: C,
    /// The file-level implementation.
    pub file_api: F,
    /// The plot-generation implementation.
    pub plan_api: P,
    /// The split-level implementation.
    pub split_api: S,
    /// The file-revision implementation.
    pub workon_api: W,
}

impl<C: CorpusApi, F: FileApi, P: PlanApi, S: SplitApi, W: WorkonApi> APIClient<C, F, P, S, W> {
    /// Bundles the given implementations.
    pub fn new(corpus_api: C, file_api: F, plan_api: P, split_api: S, workon_api: W) -> (r:
        APIClient<C, F, P, S, W>)
        ensures
            r.corpus_api == corpus_api,
            r.file_api == file_api,
            r.plan_api == plan_api,
            r.split_api == split_api,
            r.workon_api == workon_api,
    {
        APIClient { corpus_api, file_api, plan_api, split_api, workon_api }
    }

    /// The corpus-level implementation.
    pub fn corpus_api(&self) -> (r: &C)
        ensures
            r == &self.corpus_api,
    {
        &self.corpus_api
    }

    /// The file-level implementation.
    pub fn file_api(&self) -> (r: &F)
        ensures
            r == &self.file_api,
    {
        &self.file_api
    }

    /// The plot-generation implementation.
    pub fn plan_api(&self) -> (r: &P)
        ensures
            r == &self.plan_api,
    {
        &self.plan_api
    }

    /// The split-level implementation.
    pub fn split_api(&self) -> (r: &S)
        ensures
            r == &self.split_api,
    {
        &self.split_api
    }

    /// The file-revision implementation.
    pub fn workon_api(&self) -> (r: &W)
        ensures
            r == &self.workon_api,
    {
        &self.workon_api
    }
}

} // verus!
