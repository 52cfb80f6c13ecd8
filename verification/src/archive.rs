//! Verified archive extraction.
//!
//! A downloaded runtime archive is a gzip-compressed tar file.  The
//! decompression and tar framing are done by outside crates behind trusted
//! wrappers whose results are named; everything decided on those results —
//! which entry is the runtime binary, and what the install step receives —
//! is verified here.  Writing the extracted binary to disk (temporary
//! sibling, atomic rename, permission bit) is the unverified driver's job.

use vstd::prelude::*;

use crate::text::{eq_str, spec_trim_end, trim_end_char};
use vstd::string::StrSliceExecFns;

verus! {

/// Errors from reading an archive.
#[derive(Debug, Clone)]
pub enum ArchiveError {
    /// The archive could not be decompressed or its tar framing read.
    Unreadable(String),
    /// No entry in the whole archive is the expected runtime binary.
    BinaryNotFoundInArchive,
}

/// What gzip-decompressing a byte buffer yields, or `None` when the buffer
/// is not a well-formed gzip stream.
pub uninterp spec fn gunzip_of(b: Seq<u8>) -> Option<Seq<u8>>;

/// The (path, contents) entries of a tar byte buffer, or `None` when its
/// framing cannot be read at all.  Entries whose own headers are broken are
/// skipped, so the sequence holds the readable entries in order.
pub uninterp spec fn tar_entries_of(b: Seq<u8>) -> Option<Seq<(Seq<char>, Seq<u8>)>>;

/// The character/byte-level contents of an entry list.
pub open spec fn entries_view(v: Seq<(String, Vec<u8>)>) -> Seq<(Seq<char>, Seq<u8>)> {
    v.map_values(|p: (String, Vec<u8>)| (p.0@, p.1@))
}

/// Relies on flate2's `read::GzDecoder` and `Read::read_to_end`:
/// decompressing an in-memory buffer is a function of the bytes alone, and
/// fails exactly on buffers that are not a gzip stream.
#[verifier::external_body]
fn gunzip(bytes: &Vec<u8>) -> (r: Result<Vec<u8>, String>)
    ensures
        (r is Ok) == (gunzip_of(bytes@) is Some),
        r matches Ok(v) ==> Some(v@) == gunzip_of(bytes@),
{
    let mut decoder = flate2::read::GzDecoder::new(bytes.as_slice());
    let mut out: Vec<u8> = Vec::new();
    match std::io::Read::read_to_end(&mut decoder, &mut out) {
        Ok(_) => Ok(out),
        Err(e) => Err(e.to_string()),
    }
}

/// Relies on `tar::Archive` over an in-memory reader: the readable entry
/// paths and their contents are a function of the bytes alone; entries
/// whose headers cannot be read are skipped.
#[verifier::external_body]
fn tar_entry_list(bytes: &Vec<u8>) -> (r: Result<Vec<(String, Vec<u8>)>, String>)
    ensures
        (r is Ok) == (tar_entries_of(bytes@) is Some),
        r matches Ok(v) ==> Some(entries_view(v@)) == tar_entries_of(bytes@),
{
    let mut archive = tar::Archive::new(bytes.as_slice());
    let mut out: Vec<(String, Vec<u8>)> = Vec::new();
    for entry in archive.entries().map_err(|e| e.to_string())?.flatten() {
        let name = entry.path().map_err(|e| e.to_string())?.to_string_lossy().into_owned();
        let mut reader = entry;
        let mut data: Vec<u8> = Vec::new();
        std::io::Read::read_to_end(&mut reader, &mut data).map_err(|e| e.to_string())?;
        out.push((name, data));
    }
    Ok(out)
}

/// The part of `s` after its last `/`; the whole of `s` when it has none.
pub open spec fn spec_after_last_slash(s: Seq<char>) -> Seq<char>
    decreases s.len(),
{
    if s.len() == 0 {
        s
    } else if s.last() == '/' {
        Seq::empty()
    } else {
        spec_after_last_slash(s.drop_last()) + seq![s.last()]
    }
}

/// The final path component of an entry name: trailing slashes are
/// ignored, then everything after the last remaining slash is taken.
pub open spec fn spec_last_component(s: Seq<char>) -> Seq<char> {
    spec_after_last_slash(spec_trim_end(s, '/'))
}

/// An entry is the runtime binary when its final path component is `uv`
/// or `uv.exe`, wherever it sits in the archive.
pub open spec fn spec_is_binary_entry(name: Seq<char>) -> bool {
    spec_last_component(name) == "uv"@ || spec_last_component(name) == "uv.exe"@
}

proof fn lemma_after_last_slash_no_slash(s: Seq<char>)
    requires
        forall|j: int| 0 <= j < s.len() ==> s[j] != '/',
    ensures
        spec_after_last_slash(s) == s,
    decreases s.len(),
{
    if s.len() > 0 {
        lemma_after_last_slash_no_slash(s.drop_last());
        assert(s.drop_last() + seq![s.last()] =~= s);
    }
}

proof fn lemma_after_last_slash_at(s: Seq<char>, i: int)
    requires
        0 <= i < s.len(),
        s[i] == '/',
        forall|j: int| i < j < s.len() ==> s[j] != '/',
    ensures
        spec_after_last_slash(s) == s.subrange(i + 1, s.len() as int),
    decreases s.len(),
{
    if i == s.len() - 1 {
        assert(s.last() == '/');
        assert(s.subrange(i + 1, s.len() as int) =~= Seq::<char>::empty());
    } else {
        assert(s.last() != '/');
        lemma_after_last_slash_at(s.drop_last(), i);
        assert(s.drop_last().subrange(i + 1, s.drop_last().len() as int) + seq![s.last()] =~= s
            .subrange(i + 1, s.len() as int));
    }
}

/// Does this entry name denote the runtime binary?
pub fn entry_matches_binary(name: &str) -> (r: bool)
    ensures
        r == spec_is_binary_entry(name@),
{
    let trimmed = trim_end_char(name, '/');
    let tlen = trimmed.as_str().unicode_len();
    let mut k: usize = tlen;
    while k > 0 && trimmed.as_str().get_char(k - 1) != '/'
        invariant
            0 <= k <= tlen,
            tlen == trimmed@.len(),
            forall|j: int| k <= j < tlen ==> trimmed@[j] != '/',
        decreases k,
    {
        k -= 1;
    }
    let tail = trimmed.as_str().substring_char(k, tlen);
    proof {
        if k == 0 {
            lemma_after_last_slash_no_slash(trimmed@);
            assert(tail@ =~= trimmed@);
        } else {
            lemma_after_last_slash_at(trimmed@, k - 1);
        }
        assert(tail@ == spec_last_component(name@));
    }
    eq_str(tail, "uv") || eq_str(tail, "uv.exe")
}

/// Index of the first entry whose name denotes the runtime binary.
pub open spec fn spec_find_binary(entries: Seq<(Seq<char>, Seq<u8>)>) -> Option<int>
    decreases entries.len(),
{
    if entries.len() == 0 {
        None
    } else if spec_is_binary_entry(entries[0].0) {
        Some(0)
    } else {
        match spec_find_binary(entries.drop_first()) {
            Some(i) => Some(i + 1),
            None => None,
        }
    }
}

proof fn lemma_find_binary_at(entries: Seq<(Seq<char>, Seq<u8>)>, i: int)
    requires
        0 <= i < entries.len(),
        spec_is_binary_entry(entries[i].0),
        forall|j: int| 0 <= j < i ==> !spec_is_binary_entry(#[trigger] entries[j].0),
    ensures
        spec_find_binary(entries) == Some(i),
    decreases entries.len(),
{
    if i > 0 {
        lemma_find_binary_at(entries.drop_first(), i - 1);
    }
}

proof fn lemma_find_binary_none(entries: Seq<(Seq<char>, Seq<u8>)>)
    requires
        forall|j: int| 0 <= j < entries.len() ==> !spec_is_binary_entry(#[trigger] entries[j].0),
    ensures
        spec_find_binary(entries) is None,
    decreases entries.len(),
{
    if entries.len() > 0 {
        lemma_find_binary_none(entries.drop_first());
    }
}

/// The readable entries of a gzip-compressed tar archive.
pub open spec fn spec_archive_entries(b: Seq<u8>) -> Option<Seq<(Seq<char>, Seq<u8>)>> {
    match gunzip_of(b) {
        Some(raw) => tar_entries_of(raw),
        None => None,
    }
}

/// Scan a gzip-compressed tar archive for the runtime binary and return
/// its contents, ready to be installed.
///
/// Exactly the archives that decompress and frame correctly are scanned;
/// among those, the first entry whose final path component is the expected
/// binary name is returned, and an archive without such an entry fails
/// with `BinaryNotFoundInArchive`.  This function writes nothing: a
/// missing entry leaves no partially written install target behind.
pub fn extract_binary(archive: &Vec<u8>) -> (r: Result<Vec<u8>, ArchiveError>)
    ensures
        (spec_archive_entries(archive@) is None) == (r matches Err(ArchiveError::Unreadable(_))),
        spec_archive_entries(archive@) matches Some(entries) ==> match spec_find_binary(entries) {
            Some(i) => r matches Ok(data) && data@ == entries[i].1,
            None => r == Result::<Vec<u8>, ArchiveError>::Err(ArchiveError::BinaryNotFoundInArchive),
        },
{
    let raw = match gunzip(archive) {
        Ok(raw) => raw,
        Err(msg) => {
            return Err(ArchiveError::Unreadable(msg));
        },
    };
    let mut entries = match tar_entry_list(&raw) {
        Ok(entries) => entries,
        Err(msg) => {
            return Err(ArchiveError::Unreadable(msg));
        },
    };
    let ghost entries_model = spec_archive_entries(archive@)->0;
    proof {
        assert(entries_view(entries@) == entries_model);
    }
    let mut i: usize = 0;
    while i < entries.len()
        invariant
            0 <= i <= entries@.len(),
            spec_archive_entries(archive@) == Some(entries_model),
            entries_view(entries@) == entries_model,
            forall|j: int| 0 <= j < i ==> !spec_is_binary_entry(#[trigger] entries_model[j].0),
        decreases entries@.len() - i,
    {
        if entry_matches_binary(entries[i].0.as_str()) {
            proof {
                assert(entries_view(entries@)[i as int] == (entries@[i as int].0@, entries@[i as int].1@));
                assert(entries_model[i as int].0 == entries@[i as int].0@);
                lemma_find_binary_at(entries_model, i as int);
            }
            let ghost want = entries@[i as int].1@;
            let (_, data) = entries.swap_remove(i);
            proof {
                assert(data@ == want);
            }
            return Ok(data);
        }
        proof {
            assert(entries_view(entries@)[i as int] == (entries@[i as int].0@, entries@[i as int].1@));
            assert(entries_model[i as int].0 == entries@[i as int].0@);
        }
        i += 1;
    }
    proof {
        lemma_find_binary_none(entries_model);
    }
    Err(ArchiveError::BinaryNotFoundInArchive)
}

} // verus!
