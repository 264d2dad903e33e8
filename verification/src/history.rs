//! Chat-session persistence: where a named session lives and what a store of
//! sessions must offer. Reading and writing the files lives with the caller.

use vstd::prelude::*;
use vstd::string::StringExecFns;
use crate::models::MessageSchema;

verus! {

/// A store of named chat sessions.
pub trait ChatHistory {
    /// Records the messages of a session under its name.
    fn save_session(&self, session_name: &str, messages: &Vec<MessageSchema>) -> Result<
        (),
        String,
    >;

    /// Loads the messages recorded under a session name.
    fn load_session(&self, session_name: &str) -> Result<Vec<MessageSchema>, String>;

    /// Lists the recorded session names.
    fn list_sessions(&self) -> Result<Vec<String>, String>;
}

/// A session store laid out as one JSON file per session under one directory.
pub struct FileChatHistory {
    /// The directory the session files live under; the caller creates it.
    pub directory: String,
}

impl FileChatHistory {
    /// A store under the given directory.
    pub fn new(directory: String) -> (r: FileChatHistory)
        ensures
            r.directory == directory,
    {
        FileChatHistory { directory }
    }

    /// Where the named session lives: its JSON file under the directory.
    pub fn session_file_path(&self, session_name: &str) -> (r: String)
        ensures
            r@ == self.directory@ + "/"@ + session_name@ + ".json"@,
    {
        let mut path = self.directory.clone();
        path.append("/");
        path.append(session_name);
        path.append(".json");
        path
    }
}

} // verus!
