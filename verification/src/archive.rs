//! The transfer archive: packaging a chosen subset of files into one
//! compressed bundle keyed by root-relative path, and reading such a bundle
//! back.
//!
//! The bundle is built in memory; writing it to its transient file, and
//! removing that file again, is the caller's business. Two call shapes are
//! provided: everything collected (the full snapshot used at initialization),
//! and an explicit path subset (the diff engine's update set).

use vstd::prelude::*;
use crate::collector::CollectedFile;
use crate::collector::ExcludeGlobs;
use crate::collector::keeps;

verus! {

/// The views of owned archive entries.
pub open spec fn entry_views(es: Seq<(String, Vec<u8>)>) -> Seq<(Seq<char>, Seq<u8>)> {
    es.map_values(|e: (String, Vec<u8>)| (e.0@, e.1@))
}

/// The bytes of the compressed archive holding the given entries in order,
/// named but not defined here: the encoding is the outside packer's, a
/// function of the entries alone.
pub uninterp spec fn archive_encoding(entries: Seq<(Seq<char>, Seq<u8>)>) -> Seq<u8>;

/// Whether the packer accepts the given entries, named but not defined here:
/// a function of the entries alone, since the output stream is an in-memory
/// buffer that cannot fail, and the packer refuses an entry only for the
/// shape of its path.
pub uninterp spec fn archive_encodable(entries: Seq<(Seq<char>, Seq<u8>)>) -> bool;

/// The entries read back from a compressed archive, named but not defined
/// here; `None` when the bytes are not such an archive. A function of the
/// bytes alone.
pub uninterp spec fn archive_decoding(bytes: Seq<u8>) -> Option<Seq<(Seq<char>, Seq<u8>)>>;

/// The character at `i` begins a path component.
pub open spec fn component_starts_at(p: Seq<char>, i: int) -> bool {
    i == 0 || p[i - 1] == '/'
}

/// A path component ends right before `i`.
pub open spec fn component_ends_at(p: Seq<char>, i: int) -> bool {
    i == p.len() || p[i] == '/'
}

/// A path in the packer's normal form, which the packer stores byte for byte:
/// nonempty and relative, no NUL, every separator followed by a further
/// component, and no `.` or `..` components. The packer normalizes other
/// paths as it writes (dropping `.` components and repeated separators), so
/// only a normal path is promised to read back unchanged.
pub open spec fn normal_path(p: Seq<char>) -> bool {
    &&& p.len() > 0
    &&& p[0] != '/'
    &&& forall|i: int| 0 <= i < p.len() ==> #[trigger] p[i] != '\0'
    &&& forall|i: int|
        0 <= i < p.len() && #[trigger] p[i] == '/' ==> i + 1 < p.len() && p[i + 1] != '/'
    &&& forall|i: int|
        0 <= i < p.len() && component_starts_at(p, i) && #[trigger] p[i] == '.' ==> !(
        component_ends_at(p, i + 1) || (i + 1 < p.len() && p[i + 1] == '.' && component_ends_at(
            p,
            i + 2,
        )))
}

/// Every entry path is in the packer's normal form.
pub open spec fn normal_entries(entries: Seq<(Seq<char>, Seq<u8>)>) -> bool {
    forall|i: int| 0 <= i < entries.len() ==> normal_path(#[trigger] entries[i].0)
}

/// Why an archive could not be built or read.
#[derive(Debug)]
pub struct ArchiveError {
    /// What the packer or the stream reported.
    pub message: String,
}

/// Relies on `tar::Builder` over flate2's `write::GzEncoder`: encodes the
/// entries, in order, into one gzip-compressed tar stream, each under its
/// given path. Header fields are fixed and carry no timestamp, so the stream
/// is a function of the entries; writing goes to an in-memory buffer, so the
/// call fails only where the packer refuses an entry path, again a function
/// of the entries. Reading the stream back yields exactly the entries that
/// were written, provided every entry path is in the packer's normal form —
/// the packer stores other paths normalized. An error surfaces the packer's
/// message.
#[verifier::external_body]
fn encode_tar_gz(entries: &Vec<(String, Vec<u8>)>) -> (r: Result<Vec<u8>, String>)
    ensures
        (r is Ok) == archive_encodable(entry_views(entries@)),
        r matches Ok(bytes) ==> bytes@ == archive_encoding(entry_views(entries@)),
        r matches Ok(bytes) ==> (normal_entries(entry_views(entries@)) ==> archive_decoding(
            bytes@,
        ) == Some(entry_views(entries@))),
{
    let enc = flate2::write::GzEncoder::new(Vec::new(), flate2::Compression::default());
    let mut tar = tar::Builder::new(enc);
    for (path, content) in entries.iter() {
        let mut header = tar::Header::new_gnu();
        header.set_size(content.len() as u64);
        header.set_mode(0o644);
        if let Err(e) = tar.append_data(&mut header, path, content.as_slice()) {
            return Err(e.to_string());
        }
    }
    match tar.into_inner() {
        Ok(enc) => enc.finish().map_err(|e| e.to_string()),
        Err(e) => Err(e.to_string()),
    }
}

/// Relies on `tar::Archive` over flate2's `read::GzDecoder`: decodes a
/// gzip-compressed tar stream back into its entries, in order, and fails
/// exactly on bytes that are no such stream — a function of the bytes alone.
#[verifier::external_body]
fn decode_tar_gz(bytes: &Vec<u8>) -> (r: Result<Vec<(String, Vec<u8>)>, String>)
    ensures
        (r is Ok) == (archive_decoding(bytes@) is Some),
        r matches Ok(v) ==> archive_decoding(bytes@) matches Some(es) && entry_views(v@) == es,
{
    let dec = flate2::read::GzDecoder::new(bytes.as_slice());
    let mut ar = tar::Archive::new(dec);
    let mut out: Vec<(String, Vec<u8>)> = Vec::new();
    let entries = ar.entries().map_err(|e| e.to_string())?;
    for entry in entries {
        let mut entry = entry.map_err(|e| e.to_string())?;
        let path = entry.path().map_err(|e| e.to_string())?.to_string_lossy().into_owned();
        let mut content = Vec::new();
        std::io::Read::read_to_end(&mut entry, &mut content).map_err(|e| e.to_string())?;
        out.push((path, content));
    }
    Ok(out)
}

/// The archive entries for a full corpus snapshot: each collected file —
/// readable, textual, not excluded — in listing order, under its
/// root-relative path. A file that vanished since listing is skipped
/// silently.
pub open spec fn snapshot_entries(
    files: Seq<CollectedFile>,
    patterns: Seq<Seq<char>>,
) -> Seq<(Seq<char>, Seq<u8>)>
    decreases files.len(),
{
    if files.len() == 0 {
        Seq::empty()
    } else {
        let rest = snapshot_entries(files.drop_last(), patterns);
        let f = files.last();
        if keeps(f, patterns) {
            rest.push((f.rel_path@, f.content->Some_0@))
        } else {
            rest
        }
    }
}

/// The archive entries restricted to the named paths: each file whose bytes
/// are present and whose path is named, in listing order.
pub open spec fn subset_entries(files: Seq<CollectedFile>, paths: Seq<Seq<char>>) -> Seq<
    (Seq<char>, Seq<u8>),
>
    decreases files.len(),
{
    if files.len() == 0 {
        Seq::empty()
    } else {
        let rest = subset_entries(files.drop_last(), paths);
        let f = files.last();
        if f.content is Some && paths.contains(f.rel_path@) {
            rest.push((f.rel_path@, f.content->Some_0@))
        } else {
            rest
        }
    }
}

/// Turns one file into an owned archive entry.
fn owned_entry(f: &CollectedFile, content: &Vec<u8>) -> (r: (String, Vec<u8>))
    ensures
        r.0@ == f.rel_path@,
        r.1@ == content@,
{
    let path = f.rel_path.clone();
    let bytes = content.clone();
    assert(bytes@ =~= content@);
    (path, bytes)
}

/// Packages the full corpus snapshot — every collected file: readable,
/// textual, not excluded — into one compressed archive, in memory; succeeds
/// exactly when the packer accepts those entries, and when their paths are in
/// the packer's normal form (as paths from a version-control listing are) the
/// archive reads back as exactly those entries. The caller writes the bytes
/// to a fresh, uniquely-named transient file and owns that file's cleanup.
pub fn build_archive(files: &Vec<CollectedFile>, excludes: &ExcludeGlobs) -> (r: Result<
    Vec<u8>,
    ArchiveError,
>)
    requires
        excludes.wf(),
    ensures
        (r is Ok) == archive_encodable(snapshot_entries(files@, excludes@)),
        r matches Ok(bytes) ==> bytes@ == archive_encoding(snapshot_entries(files@, excludes@)),
        r matches Ok(bytes) ==> (normal_entries(snapshot_entries(files@, excludes@))
            ==> archive_decoding(bytes@) == Some(snapshot_entries(files@, excludes@))),
{
    let mut entries: Vec<(String, Vec<u8>)> = Vec::new();
    let n = files.len();
    for i in 0..n
        invariant
            n == files@.len(),
            excludes.wf(),
            entry_views(entries@) == snapshot_entries(files@.take(i as int), excludes@),
    {
        let f = &files[i];
        match &f.content {
            Some(content) => {
                if crate::collector::is_text_content(content) && !excludes.is_excluded(
                    &f.rel_path,
                ) {
                    let ghost pre = entry_views(entries@);
                    entries.push(owned_entry(f, content));
                    assert(entry_views(entries@) =~= pre.push((f.rel_path@, content@)));
                }
            },
            None => {},
        }
        assert(files@.take(i + 1).drop_last() =~= files@.take(i as int));
        assert(files@.take(i + 1).last() == files@[i as int]);
    }
    assert(files@.take(n as int) =~= files@);
    match encode_tar_gz(&entries) {
        Ok(bytes) => Ok(bytes),
        Err(message) => Err(ArchiveError { message }),
    }
}

/// Packages only the files whose path stands in `paths` (the diff engine's
/// update set) into one compressed archive, in memory. A named path that no
/// longer carries bytes is skipped silently, as at collection, and the call
/// still succeeds: it fails exactly when the packer refuses the remaining
/// entries, carrying the packer's message. When the entry paths are in the
/// packer's normal form, the archive reads back as exactly those entries.
pub fn build_archive_for_paths(files: &Vec<CollectedFile>, paths: &Vec<String>) -> (r: Result<
    Vec<u8>,
    ArchiveError,
>)
    ensures
        (r is Ok) == archive_encodable(subset_entries(files@, paths.deep_view())),
        r matches Ok(bytes) ==> bytes@ == archive_encoding(
            subset_entries(files@, paths.deep_view()),
        ),
        r matches Ok(bytes) ==> (normal_entries(subset_entries(files@, paths.deep_view()))
            ==> archive_decoding(bytes@) == Some(subset_entries(files@, paths.deep_view()))),
{
    let mut entries: Vec<(String, Vec<u8>)> = Vec::new();
    let n = files.len();
    for i in 0..n
        invariant
            n == files@.len(),
            entry_views(entries@) == subset_entries(files@.take(i as int), paths.deep_view()),
    {
        let f = &files[i];
        match &f.content {
            Some(content) => {
                if contains_string(paths, &f.rel_path) {
                    let ghost pre = entry_views(entries@);
                    entries.push(owned_entry(f, content));
                    assert(entry_views(entries@) =~= pre.push((f.rel_path@, content@)));
                }
            },
            None => {},
        }
        assert(files@.take(i + 1).drop_last() =~= files@.take(i as int));
        assert(files@.take(i + 1).last() == files@[i as int]);
    }
    assert(files@.take(n as int) =~= files@);
    match encode_tar_gz(&entries) {
        Ok(bytes) => Ok(bytes),
        Err(message) => Err(ArchiveError { message }),
    }
}

/// Whether some element of `v` equals `s`.
pub fn contains_string(v: &Vec<String>, s: &String) -> (r: bool)
    ensures
        r == v.deep_view().contains(s@),
{
    let n = v.len();
    for i in 0..n
        invariant
            n == v@.len(),
            forall|j: int| 0 <= j < i ==> v.deep_view()[j] != s@,
    {
        if v[i] == *s {
            assert(v.deep_view()[i as int] == s@);
            return true;
        }
    }
    assert forall|j: int| 0 <= j < v.deep_view().len() implies v.deep_view()[j] != s@ by {}
    false
}

/// Reads a compressed archive back into its entries; fails exactly on bytes
/// that are no such archive.
pub fn extract_archive(bytes: &Vec<u8>) -> (r: Result<Vec<(String, Vec<u8>)>, ArchiveError>)
    ensures
        (r is Ok) == (archive_decoding(bytes@) is Some),
        r matches Ok(v) ==> archive_decoding(bytes@) matches Some(es) && entry_views(v@) == es,
{
    match decode_tar_gz(bytes) {
        Ok(v) => Ok(v),
        Err(message) => Err(ArchiveError { message }),
    }
}

} // verus!
