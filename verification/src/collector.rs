//! Path collection: filtering the paths the version-control query lists down
//! to readable, textual, non-excluded files, and building the local state map.
//!
//! Listing tracked paths and reading bytes is the caller's business; this
//! module decides, from the listed paths and the bytes that could be read,
//! which files belong to the corpus, and binds each to its content identity.

use vstd::prelude::*;
use vstd::utf8::valid_utf8;
use crate::archive::ArchiveError;
use crate::config::CorporaConfig;
use crate::diff::StateMap;
use crate::identity::content_identity;
use crate::identity::identity_of;

verus! {

#[verifier::external_type_specification]
#[verifier::external_body]
pub struct ExGlobSet(globset::GlobSet);

/// The glob patterns a compiled matcher was built from.
pub uninterp spec fn globset_patterns(s: globset::GlobSet) -> Seq<Seq<char>>;

/// Whether any of the patterns matches the path, named but not defined here:
/// glob semantics live in the outside matcher, as a function of the pattern
/// texts and the path text alone.
pub uninterp spec fn globs_match(patterns: Seq<Seq<char>>, path: Seq<char>) -> bool;

/// Whether the given pattern list compiles into a matcher, named but not
/// defined here: what counts as a valid glob is the outside matcher's rule, a
/// function of the pattern texts alone.
pub uninterp spec fn glob_patterns_ok(patterns: Seq<Seq<char>>) -> bool;

/// Relies on globset's `Glob::new` and `GlobSetBuilder`: compiles the given
/// patterns into one matcher; succeeds exactly when every pattern is a valid
/// glob, a function of the pattern texts (an empty list always compiles), and
/// fails with the offending pattern error's message.
#[verifier::external_body]
fn build_globset(patterns: &Vec<String>) -> (r: Result<globset::GlobSet, String>)
    ensures
        (r is Ok) == glob_patterns_ok(patterns.deep_view()),
        r matches Ok(s) ==> globset_patterns(s) == patterns.deep_view(),
        patterns@.len() == 0 ==> r is Ok,
{
    let mut builder = globset::GlobSetBuilder::new();
    for p in patterns.iter() {
        match globset::Glob::new(p) {
            Ok(g) => {
                builder.add(g);
            },
            Err(e) => {
                return Err(e.to_string());
            },
        }
    }
    builder.build().map_err(|e| e.to_string())
}

/// Relies on globset's `GlobSet::is_match`: true exactly when some glob in the
/// set matches the path, a function of the patterns and the path text; an
/// empty set matches nothing.
#[verifier::external_body]
fn globset_matches(set: &globset::GlobSet, path: &String) -> (r: bool)
    ensures
        r == globs_match(globset_patterns(*set), path@),
        globset_patterns(*set).len() == 0 ==> r == false,
{
    set.is_match(path.as_str())
}

/// One exec test for a UTF-8 continuation byte.
fn is_cont_byte(b: u8) -> (r: bool)
    ensures
        r == vstd::utf8::is_continuation_byte(b),
{
    0x80 <= b && b <= 0xbf
}

/// Checks that the bytes form valid UTF-8, scalar by scalar: each leading
/// byte announces its width, the continuation bytes follow their bit pattern,
/// and the encoded value is neither overlong nor a surrogate.
fn utf8_valid(bytes: &[u8]) -> (r: bool)
    ensures
        r == valid_utf8(bytes@),
{
    let n = bytes.len();
    let mut i: usize = 0;
    proof {
        assert(bytes@.skip(0) =~= bytes@);
    }
    while i < n
        invariant
            i <= n,
            n == bytes@.len(),
            valid_utf8(bytes@) == valid_utf8(bytes@.skip(i as int)),
        decreases n - i,
    {
        let ghost suffix = bytes@.skip(i as int);
        proof {
            assert(suffix.len() == n - i);
            assert(forall|k: int| 0 <= k < suffix.len() ==> #[trigger] suffix[k] == bytes@[i + k]);
        }
        let b0 = bytes[i];
        let width: usize = if b0 <= 0x7f {
            1
        } else if 0xc0 <= b0 && b0 <= 0xdf {
            2
        } else if 0xe0 <= b0 && b0 <= 0xef {
            3
        } else if 0xf0 <= b0 && b0 <= 0xf7 {
            4
        } else {
            // A continuation byte in leading position, or a byte no encoding
            // uses: no disjunct of a well-formed first codepoint holds.
            assert(!vstd::utf8::valid_leading_and_continuation_bytes_first_codepoint(suffix));
            return false;
        };
        if n - i < width {
            assert(!vstd::utf8::valid_leading_and_continuation_bytes_first_codepoint(suffix));
            return false;
        }
        if width >= 2 && !is_cont_byte(bytes[i + 1]) {
            assert(!vstd::utf8::valid_leading_and_continuation_bytes_first_codepoint(suffix));
            return false;
        }
        if width >= 3 && !is_cont_byte(bytes[i + 2]) {
            assert(!vstd::utf8::valid_leading_and_continuation_bytes_first_codepoint(suffix));
            return false;
        }
        if width == 4 && !is_cont_byte(bytes[i + 3]) {
            assert(!vstd::utf8::valid_leading_and_continuation_bytes_first_codepoint(suffix));
            return false;
        }
        assert(vstd::utf8::valid_leading_and_continuation_bytes_first_codepoint(suffix));
        assert(vstd::utf8::length_of_first_codepoint(suffix) == width as int);
        let codepoint: u32 = if width == 1 {
            (b0 & 0x7f) as u32
        } else if width == 2 {
            (((b0 & 0x1f) as u32) << 6u32) | ((bytes[i + 1] & 0x3f) as u32)
        } else if width == 3 {
            (((b0 & 0x0f) as u32) << 12u32) | (((bytes[i + 1] & 0x3f) as u32) << 6u32) | ((bytes[i
                + 2] & 0x3f) as u32)
        } else {
            (((b0 & 0x07) as u32) << 18u32) | (((bytes[i + 1] & 0x3f) as u32) << 12u32) | (((bytes[i
                + 2] & 0x3f) as u32) << 6u32) | ((bytes[i + 3] & 0x3f) as u32)
        };
        assert(codepoint == vstd::utf8::decode_first_codepoint(suffix));
        if width == 2 && codepoint < 0x80 {
            return false;
        }
        if width == 3 && codepoint < 0x800 {
            return false;
        }
        if width == 4 && !(0x10000 <= codepoint && codepoint <= 0x10ffff) {
            return false;
        }
        if 0xd800 <= codepoint && codepoint <= 0xdfff {
            return false;
        }
        assert(vstd::utf8::valid_first_scalar(suffix));
        proof {
            assert(vstd::utf8::pop_first_scalar(suffix) =~= bytes@.skip(i + width));
        }
        i += width;
    }
    proof {
        assert(bytes@.skip(n as int) =~= Seq::<u8>::empty());
    }
    true
}

/// Why tracked files could not be enumerated.
#[derive(Debug)]
pub enum CollectionError {
    /// No collector backend suits the repository.
    NoCollector,
    /// The version-control query could not run or reported failure.
    QueryFailed(String),
    /// An exclusion pattern is not a valid glob.
    InvalidPattern(String),
}

/// The configured exclusion patterns, compiled once per pass.
pub struct ExcludeGlobs {
    matcher: globset::GlobSet,
    patterns: Vec<String>,
}

impl View for ExcludeGlobs {
    type V = Seq<Seq<char>>;

    closed spec fn view(&self) -> Seq<Seq<char>> {
        self.patterns.deep_view()
    }
}

impl ExcludeGlobs {
    /// The compiled matcher really was built from the recorded patterns.
    pub closed spec fn wf(&self) -> bool {
        globset_patterns(self.matcher) == self.patterns.deep_view()
    }

    /// Compiles exclusion patterns; succeeds exactly when every pattern is a
    /// valid glob, and fails carrying the offending pattern error's message.
    pub fn new(patterns: Vec<String>) -> (r: Result<ExcludeGlobs, CollectionError>)
        ensures
            (r is Ok) == glob_patterns_ok(patterns.deep_view()),
            r matches Ok(g) ==> g.wf() && g@ == patterns.deep_view(),
            r is Err ==> r->Err_0 is InvalidPattern,
            patterns@.len() == 0 ==> r is Ok,
    {
        match build_globset(&patterns) {
            Ok(matcher) => Ok(ExcludeGlobs { matcher, patterns }),
            Err(msg) => Err(CollectionError::InvalidPattern(msg)),
        }
    }

    /// An empty exclusion set, which excludes nothing.
    pub fn none() -> (r: ExcludeGlobs)
        ensures
            r.wf(),
            r@ == Seq::<Seq<char>>::empty(),
    {
        let patterns: Vec<String> = Vec::new();
        assert(patterns.deep_view() =~= Seq::<Seq<char>>::empty());
        // An empty pattern list always compiles.
        ExcludeGlobs::new(patterns).unwrap()
    }

    /// True when some exclusion pattern matches the root-relative path; with
    /// no patterns, nothing is excluded.
    pub fn is_excluded(&self, path: &String) -> (r: bool)
        requires
            self.wf(),
        ensures
            r == globs_match(self@, path@),
            self@.len() == 0 ==> r == false,
    {
        globset_matches(&self.matcher, path)
    }
}

/// A content counts as text when it is empty or decodes as valid UTF-8.
pub open spec fn is_text(bytes: Seq<u8>) -> bool {
    bytes.len() == 0 || valid_utf8(bytes)
}

/// Classifies a content as text; binary files are filtered out silently, not
/// reported as errors.
pub fn is_text_content(bytes: &Vec<u8>) -> (r: bool)
    ensures
        r == is_text(bytes@),
{
    bytes.is_empty() || utf8_valid(bytes.as_slice())
}

/// One path as the version-control query listed it, with the bytes that could
/// be read for it. `None` content means the file vanished or could not be
/// read between listing and reading; collection is a best-effort snapshot,
/// never an atomic one, so such a file is skipped rather than reported.
pub struct CollectedFile {
    /// The path, relative to the repository root.
    pub rel_path: String,
    /// The file's bytes, where they could be read.
    pub content: Option<Vec<u8>>,
}

/// Whether a listed file belongs to the corpus: its bytes could be read, they
/// are text, and no exclusion pattern matches its path.
pub open spec fn keeps(f: CollectedFile, patterns: Seq<Seq<char>>) -> bool {
    &&& f.content is Some
    &&& is_text(f.content->Some_0@)
    &&& !globs_match(patterns, f.rel_path@)
}

/// The paths of the kept files, in listing order.
pub open spec fn kept_paths(files: Seq<CollectedFile>, patterns: Seq<Seq<char>>) -> Seq<Seq<char>>
    decreases files.len(),
{
    if files.len() == 0 {
        Seq::empty()
    } else {
        let rest = kept_paths(files.drop_last(), patterns);
        if keeps(files.last(), patterns) {
            rest.push(files.last().rel_path@)
        } else {
            rest
        }
    }
}

/// The local state: each kept file's path bound to the identity of its
/// content; a later listing of the same path overrides an earlier one.
pub open spec fn local_state_spec(
    files: Seq<CollectedFile>,
    patterns: Seq<Seq<char>>,
) -> Map<Seq<char>, Seq<char>>
    decreases files.len(),
{
    if files.len() == 0 {
        Map::empty()
    } else {
        let m = local_state_spec(files.drop_last(), patterns);
        let f = files.last();
        if keeps(f, patterns) {
            m.insert(f.rel_path@, identity_of(f.content->Some_0@))
        } else {
            m
        }
    }
}

/// Filters the listed files down to the tracked set. Result order follows the
/// listing; callers must treat it as a set.
pub fn collect_paths(files: &Vec<CollectedFile>, excludes: &ExcludeGlobs) -> (r: Vec<String>)
    requires
        excludes.wf(),
    ensures
        r.deep_view() == kept_paths(files@, excludes@),
{
    let mut r: Vec<String> = Vec::new();
    let n = files.len();
    for i in 0..n
        invariant
            n == files@.len(),
            excludes.wf(),
            r.deep_view() == kept_paths(files@.take(i as int), excludes@),
    {
        let f = &files[i];
        let keep = match &f.content {
            Some(content) => is_text_content(content) && !excludes.is_excluded(&f.rel_path),
            None => false,
        };
        if keep {
            let ghost pre = r.deep_view();
            r.push(f.rel_path.clone());
            assert(r.deep_view() =~= pre.push(f.rel_path@));
        }
        assert(files@.take(i + 1).drop_last() =~= files@.take(i as int));
        assert(files@.take(i + 1).last() == files@[i as int]);
        assert(r.deep_view() =~= kept_paths(files@.take(i + 1), excludes@));
    }
    assert(files@.take(n as int) =~= files@);
    r
}

/// Builds the local state map for the listed files: each kept file is bound
/// to its content identity. A file whose bytes could not be read is excluded
/// from the map rather than aborting the pass — it then counts as absent
/// locally, which routes it toward deletion from the remote corpus; this is a
/// deliberate policy.
pub fn build_local_state(files: &Vec<CollectedFile>, excludes: &ExcludeGlobs) -> (m: StateMap)
    requires
        excludes.wf(),
    ensures
        m.wf(),
        m@ == local_state_spec(files@, excludes@),
{
    let mut m = StateMap::new();
    let n = files.len();
    for i in 0..n
        invariant
            n == files@.len(),
            excludes.wf(),
            m.wf(),
            m@ == local_state_spec(files@.take(i as int), excludes@),
    {
        let f = &files[i];
        match &f.content {
            Some(content) => {
                if is_text_content(content) && !excludes.is_excluded(&f.rel_path) {
                    let ident = content_identity(content);
                    m.insert(f.rel_path.clone(), ident);
                }
            },
            None => {},
        }
        assert(files@.take(i + 1).drop_last() =~= files@.take(i as int));
        assert(files@.take(i + 1).last() == files@[i as int]);
    }
    assert(files@.take(n as int) =~= files@);
    m
}

/// Law: the local state binds exactly the collected paths — the state map's
/// domain and the collected set are the same set.
pub proof fn lemma_state_matches_collection(
    files: Seq<CollectedFile>,
    patterns: Seq<Seq<char>>,
    p: Seq<char>,
)
    ensures
        local_state_spec(files, patterns).dom().contains(p) <==> kept_paths(
            files,
            patterns,
        ).contains(p),
    decreases files.len(),
{
    if files.len() > 0 {
        lemma_state_matches_collection(files.drop_last(), patterns, p);
        let rest = kept_paths(files.drop_last(), patterns);
        if keeps(files.last(), patterns) {
            assert(kept_paths(files, patterns) == rest.push(files.last().rel_path@));
            if kept_paths(files, patterns).contains(p) {
                let k = choose|k: int|
                    0 <= k < kept_paths(files, patterns).len() && kept_paths(files, patterns)[k]
                        == p;
                assert(rest.contains(p) || p == files.last().rel_path@);
            }
            if rest.contains(p) {
                let k = choose|k: int| 0 <= k < rest.len() && rest[k] == p;
                assert(kept_paths(files, patterns)[k] == p);
            }
            if p == files.last().rel_path@ {
                assert(kept_paths(files, patterns).last() == p);
            }
        }
    }
}

/// Law: a path matching an exclusion pattern is never collected and never
/// enters the local state, even if the version-control query listed it — so
/// no diff ever proposes work for it.
pub proof fn lemma_exclusion(
    files: Seq<CollectedFile>,
    patterns: Seq<Seq<char>>,
    p: Seq<char>,
    remote: Map<Seq<char>, Seq<char>>,
)
    requires
        globs_match(patterns, p),
    ensures
        !kept_paths(files, patterns).contains(p),
        !local_state_spec(files, patterns).dom().contains(p),
        !crate::diff::update_spec(local_state_spec(files, patterns), remote).contains(p),
    decreases files.len(),
{
    if files.len() > 0 {
        lemma_exclusion(files.drop_last(), patterns, p, remote);
        if keeps(files.last(), patterns) {
            assert(files.last().rel_path@ != p);
            assert(kept_paths(files, patterns) == kept_paths(files.drop_last(), patterns).push(
                files.last().rel_path@,
            ));
            if kept_paths(files, patterns).contains(p) {
                let i = choose|i: int|
                    0 <= i < kept_paths(files, patterns).len() && kept_paths(files, patterns)[i]
                        == p;
                assert(kept_paths(files.drop_last(), patterns).contains(p) || files.last().rel_path@
                    == p);
            }
        }
    }
}

/// Law: a listed file whose bytes are missing or not text never enters the
/// local state — a binary file appears in no diff set.
pub proof fn lemma_binary_excluded(
    files: Seq<CollectedFile>,
    patterns: Seq<Seq<char>>,
    p: Seq<char>,
    remote: Map<Seq<char>, Seq<char>>,
)
    requires
        forall|i: int|
            0 <= i < files.len() && (#[trigger] files[i]).rel_path@ == p ==> !(files[i].content
                is Some && is_text(files[i].content->Some_0@)),
    ensures
        !local_state_spec(files, patterns).dom().contains(p),
        !crate::diff::update_spec(local_state_spec(files, patterns), remote).contains(p),
    decreases files.len(),
{
    if files.len() > 0 {
        assert(forall|i: int|
            0 <= i < files.len() - 1 ==> files.drop_last()[i] == #[trigger] files[i]);
        lemma_binary_excluded(files.drop_last(), patterns, p, remote);
        assert(files[files.len() - 1] == files.last());
    }
}

/// Behaviour of a file collector backend. The version-control-backed
/// implementation lives with the caller, which owns the process and
/// filesystem access; this is the extension point for other backends.
pub trait Collector {
    /// Lists the tracked files with the bytes that could be read for each,
    /// best effort.
    fn collect_files(&self) -> Result<Vec<CollectedFile>, CollectionError>;

    /// Collects the tracked set: readable, textual, non-excluded paths.
    fn collect_paths(&self) -> Result<Vec<String>, CollectionError>;

    /// Packages every collected file into a fresh compressed archive and
    /// returns the archive's path.
    fn collect_tarball(&self) -> Result<String, ArchiveError>;

    /// Packages only the named paths into a fresh compressed archive and
    /// returns the archive's path.
    fn collect_tarball_for_paths(&self, paths: &Vec<String>) -> Result<String, ArchiveError>;
}

/// Which collector backend serves a repository.
pub enum CollectorKind {
    /// The version-control-backed collector.
    Git,
}

/// Picks the collector backend for a repository: the version-control-backed
/// one when the root lies inside such a repository, which the caller has
/// determined; fails when no backend suits the configuration.
pub fn get_collector(config: &CorporaConfig, in_git_repo: bool) -> (r: Result<
    CollectorKind,
    CollectionError,
>)
    ensures
        in_git_repo <==> (r matches Ok(k) && k is Git),
        !in_git_repo <==> (r matches Err(e) && e is NoCollector),
{
    if in_git_repo {
        Ok(CollectorKind::Git)
    } else {
        Err(CollectionError::NoCollector)
    }
}

} // verus!
