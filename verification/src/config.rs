//! Configuration values for one process: the repository root, the corpus
//! identifier, the exclusion patterns and the server address. Read once at
//! startup and passed by reference; never re-read mid-pass.

use vstd::prelude::*;
use vstd::string::StrSliceExecFns;

verus! {

/// Where the remote service lives.
pub struct ServerConfig {
    /// Base URL of the remote service.
    pub base_url: String,
}

/// Configuration from the marker configuration file, plus the fields derived
/// at startup.
pub struct CorporaConfig {
    /// The corpus name.
    pub name: String,
    /// The remote service to talk to.
    pub server: ServerConfig,
    /// The repository URL.
    pub url: String,
    /// Glob patterns of paths to exclude from collection.
    pub exclude_globs: Option<Vec<String>>,
    /// Absolute filesystem location anchoring all relative paths.
    pub root_path: String,
    /// Location of the working directory relative to the root.
    pub relative_path: String,
    /// The corpus identifier recorded at initialization, if any.
    pub id: Option<String>,
}

/// A character the identifier parser strips at either end.
pub open spec fn is_blank(c: char) -> bool {
    c == ' ' || c == '\n' || c == '\t' || c == '\r'
}

/// The sequence with leading blanks removed.
pub open spec fn trim_front(s: Seq<char>) -> Seq<char>
    decreases s.len(),
{
    if s.len() > 0 && is_blank(s.first()) {
        trim_front(s.drop_first())
    } else {
        s
    }
}

/// The sequence with trailing blanks removed.
pub open spec fn trim_back(s: Seq<char>) -> Seq<char>
    decreases s.len(),
{
    if s.len() > 0 && is_blank(s.last()) {
        trim_back(s.drop_last())
    } else {
        s
    }
}

/// The sequence with blanks removed at both ends.
pub open spec fn trim_spec(s: Seq<char>) -> Seq<char> {
    trim_back(trim_front(s))
}

/// When the first `i` characters are blank and the one at `i` is not, the
/// front-trimmed sequence is the suffix from `i`.
proof fn lemma_trim_front_at(s: Seq<char>, i: int)
    requires
        0 <= i <= s.len(),
        forall|j: int| 0 <= j < i ==> is_blank(#[trigger] s[j]),
        i < s.len() ==> !is_blank(s[i]),
    ensures
        trim_front(s) == s.skip(i),
    decreases i,
{
    if i == 0 {
        assert(s.skip(0) =~= s);
    } else {
        assert(is_blank(s.first()));
        lemma_trim_front_at(s.drop_first(), i - 1);
        assert(s.drop_first().skip(i - 1) =~= s.skip(i));
    }
}

/// When the characters after `i` are blank and the one at `i - 1` is not, the
/// back-trimmed sequence is the prefix up to `i`.
proof fn lemma_trim_back_at(s: Seq<char>, i: int)
    requires
        0 <= i <= s.len(),
        forall|j: int| i <= j < s.len() ==> is_blank(#[trigger] s[j]),
        i > 0 ==> !is_blank(s[i - 1]),
    ensures
        trim_back(s) == s.take(i),
    decreases s.len() - i,
{
    if i == s.len() {
        if s.len() > 0 && is_blank(s.last()) {
            lemma_trim_back_at(s.drop_last(), i - 1);
        } else {
            assert(s.take(i) =~= s);
        }
    } else {
        assert(is_blank(s.last()));
        lemma_trim_back_at(s.drop_last(), i);
        assert(s.drop_last().take(i) =~= s.take(i));
    }
}

/// One exec blank test.
fn is_blank_char(c: char) -> (r: bool)
    ensures
        r == is_blank(c),
{
    c == ' ' || c == '\n' || c == '\t' || c == '\r'
}

/// Reads a corpus identifier out of the recorded file content: the content
/// with surrounding blanks stripped, or `None` when nothing but blanks is
/// there — a blank record is no identifier.
pub fn parse_corpus_id(contents: &str) -> (r: Option<String>)
    ensures
        match r {
            Some(id) => id@ == trim_spec(contents@) && trim_spec(contents@).len() > 0,
            None => trim_spec(contents@).len() == 0,
        },
{
    let len = contents.unicode_len();
    let mut start: usize = 0;
    while start < len && is_blank_char(contents.get_char(start))
        invariant
            len == contents@.len(),
            0 <= start <= len,
            forall|j: int| 0 <= j < start ==> is_blank(#[trigger] contents@[j]),
        decreases len - start,
    {
        start += 1;
    }
    proof {
        lemma_trim_front_at(contents@, start as int);
    }
    if start == len {
        proof {
            assert(contents@.skip(len as int) =~= Seq::<char>::empty());
        }
        return None;
    }
    let mut end: usize = len;
    while end > start && is_blank_char(contents.get_char(end - 1))
        invariant
            len == contents@.len(),
            start <= end <= len,
            start < len,
            !is_blank(contents@[start as int]),
            forall|j: int| end <= j < len ==> is_blank(#[trigger] contents@[j]),
        decreases end,
    {
        end -= 1;
    }
    assert(end > start);
    let trimmed = contents.substring_char(start, end);
    proof {
        let front = contents@.skip(start as int);
        lemma_trim_back_at(front, end - start);
        assert(front.take(end - start) =~= contents@.subrange(start as int, end as int));
    }
    Some(trimmed.to_owned())
}

} // verus!
