//! The request and response shapes the remote service speaks of. Identifiers
//! that the service mints are carried as plain strings.

use vstd::prelude::*;

verus! {

/// A corpus as the service describes it.
pub struct CorpusSchema {
    /// The corpus name.
    pub name: String,
    /// The repository URL, doubly optional as the wire format has it: absent,
    /// or present and possibly null.
    pub url: Option<Option<String>>,
}

impl CorpusSchema {
    /// A corpus description with the given name and no URL.
    pub fn new(name: String) -> (r: CorpusSchema)
        ensures
            r.name == name,
            r.url is None,
    {
        CorpusSchema { name, url: None }
    }
}

/// The deletion half of a file update request.
pub struct CorpusUpdateFilesSchema {
    /// Paths to delete remotely, doubly optional as the wire format has it.
    pub delete_files: Option<Option<Vec<String>>>,
}

impl CorpusUpdateFilesSchema {
    /// An update request that deletes nothing.
    pub fn new() -> (r: CorpusUpdateFilesSchema)
        ensures
            r.delete_files is None,
    {
        CorpusUpdateFilesSchema { delete_files: None }
    }
}

/// An issue as the service describes it.
pub struct IssueSchema {
    /// The issue title.
    pub title: String,
    /// The issue body.
    pub body: String,
}

impl IssueSchema {
    /// An issue with the given title and body.
    pub fn new(title: String, body: String) -> (r: IssueSchema)
        ensures
            r.title == title,
            r.body == body,
    {
        IssueSchema { title, body }
    }
}

/// One file as the service describes it.
pub struct FileSchema {
    /// The root-relative path.
    pub path: String,
    /// The file's text.
    pub content: String,
    /// The corpus the file belongs to.
    pub corpus_id: String,
}

impl FileSchema {
    /// A file description with the given path, content and corpus.
    pub fn new(path: String, content: String, corpus_id: String) -> (r: FileSchema)
        ensures
            r.path == path,
            r.content == content,
            r.corpus_id == corpus_id,
    {
        FileSchema { path, content, corpus_id }
    }
}

/// One split of a file, as the service returns it.
pub struct SplitResponseSchema {
    /// The split's identifier.
    pub id: String,
    /// The split's text.
    pub content: String,
    /// Where the split stands in its file.
    pub order: i32,
    /// The file the split belongs to.
    pub file_id: String,
}

impl SplitResponseSchema {
    /// A split with the given identifier, text, position and file.
    pub fn new(id: String, content: String, order: i32, file_id: String) -> (r:
        SplitResponseSchema)
        ensures
            r.id == id,
            r.content == content,
            r.order == order,
            r.file_id == file_id,
    {
        SplitResponseSchema { id, content, order, file_id }
    }
}

/// One chat message.
pub struct MessageSchema {
    /// Who speaks: the user or the assistant.
    pub role: String,
    /// What is said.
    pub text: String,
}

/// A chat request against a whole corpus.
pub struct CorpusChatSchema {
    /// The conversation so far.
    pub messages: Vec<MessageSchema>,
    /// The corpus spoken about.
    pub corpus_id: String,
    /// The voice guidance, if any.
    pub voice: Option<String>,
    /// The purpose guidance, if any.
    pub purpose: Option<String>,
    /// The structure guidance, if any.
    pub structure: Option<String>,
    /// The per-kind directions, if any.
    pub directions: Option<String>,
}

/// A chat request about one file of a corpus.
pub struct CorpusFileChatSchema {
    /// The conversation so far.
    pub messages: Vec<MessageSchema>,
    /// The corpus spoken about.
    pub corpus_id: String,
    /// The root-relative path of the file worked on.
    pub path: String,
    /// The voice guidance, if any.
    pub voice: Option<String>,
    /// The purpose guidance, if any.
    pub purpose: Option<String>,
    /// The structure guidance, if any.
    pub structure: Option<String>,
    /// The per-kind directions, if any.
    pub directions: Option<String>,
}

} // verus!
