//! Deterministic packing of a workspace tree into a compressed archive: the
//! caller walks the workspace and hands the entries over in walk order; every
//! file becomes a deflate-compressed entry under its relative path, every
//! directory with a non-empty relative name becomes a directory entry, and
//! file bytes are carried unchanged.

use vstd::prelude::*;

verus! {

/// An archive writer over an in-memory buffer. Verus cannot declare the
/// writer's type itself (its generic parameter carries I/O trait bounds), so
/// it lives in a hidden field and is reached only through the trusted
/// operations below.
#[verifier::external_body]
pub struct ArchiveWriter {
    inner: zip::write::ZipWriter<std::io::Cursor<Vec<u8>>>,
}

/// One entry of a workspace walk: a relative path and, for a file, its bytes;
/// a directory carries no bytes.
pub struct WalkEntry {
    pub path: String,
    pub content: Option<Vec<u8>>,
}

impl WalkEntry {
    /// The entry as a pair of plain values.
    pub open spec fn view_pair(self) -> (Seq<char>, Option<Seq<u8>>) {
        (
            self.path@,
            match self.content {
                Some(b) => Some(b@),
                None => None,
            },
        )
    }
}

/// A walk as a sequence of path/content pairs.
pub open spec fn entries_view(v: Seq<WalkEntry>) -> Seq<(Seq<char>, Option<Seq<u8>>)> {
    v.map_values(|e: WalkEntry| e.view_pair())
}

/// Whether an entry stays under the archive format's per-entry size limit.
/// The format stores entry sizes in 32-bit fields, and the writer rejects an
/// entry past that threshold; the bound leaves headroom under the 4 GiB
/// threshold for the compressor's worst-case framing, so a bounded entry is
/// never rejected for its compressed size either.
pub open spec fn entry_fits(e: (Seq<char>, Option<Seq<u8>>)) -> bool {
    match e.1 {
        Some(b) => b.len() < 0xFFF0_0000,
        None => true,
    }
}

/// Whether every entry of a walk stays under the per-entry size limit.
pub open spec fn all_entries_fit(s: Seq<(Seq<char>, Option<Seq<u8>>)>) -> bool {
    forall|i: int| 0 <= i < s.len() ==> entry_fits(s[i])
}

/// Whether a walk entry is written to the archive: every file is, and every
/// directory whose relative name is non-empty (the walk's root has the empty
/// one).
pub open spec fn keeps_entry(e: (Seq<char>, Option<Seq<u8>>)) -> bool {
    e.1 is Some || e.0.len() > 0
}

/// The archive's entries for a walk: the walk's entries in order, the
/// empty-named directories left out.
pub open spec fn archive_entries(s: Seq<(Seq<char>, Option<Seq<u8>>)>) -> Seq<
    (Seq<char>, Option<Seq<u8>>),
>
    decreases s.len(),
{
    if s.len() == 0 {
        Seq::empty()
    } else {
        archive_entries(s.drop_last()) + (if keeps_entry(s.last()) {
            seq![s.last()]
        } else {
            Seq::empty()
        })
    }
}

/// The file entries among a sequence of entries: the pairs that carry bytes.
pub open spec fn files_of(s: Seq<(Seq<char>, Option<Seq<u8>>)>) -> Seq<(Seq<char>, Seq<u8>)>
    decreases s.len(),
{
    if s.len() == 0 {
        Seq::empty()
    } else {
        files_of(s.drop_last()) + (match s.last().1 {
            Some(b) => seq![(s.last().0, b)],
            None => Seq::empty(),
        })
    }
}

/// Archiving keeps the files: the archive's file entries are exactly the
/// walk's files, same relative paths, byte-identical content, in order. With
/// the archive format reading entries back faithfully, re-extracting a
/// written workspace yields the identical path-to-bytes mapping.
pub proof fn lemma_archive_preserves_files(s: Seq<(Seq<char>, Option<Seq<u8>>)>)
    ensures
        files_of(archive_entries(s)) == files_of(s),
    decreases s.len(),
{
    if s.len() == 0 {
    } else {
        lemma_archive_preserves_files(s.drop_last());
        let a = archive_entries(s.drop_last());
        if keeps_entry(s.last()) {
            lemma_files_of_append_one(a, s.last());
            assert(archive_entries(s) =~= a.push(s.last()));
            assert(files_of(archive_entries(s)) =~= files_of(s));
        } else {
            assert(archive_entries(s) =~= a);
            assert(s.last().1 is None);
            assert(files_of(s) =~= files_of(s.drop_last()));
        }
    }
}

proof fn lemma_files_of_append_one(a: Seq<(Seq<char>, Option<Seq<u8>>)>, e: (Seq<char>, Option<
    Seq<u8>,
>))
    ensures
        files_of(a.push(e)) == files_of(a) + (match e.1 {
            Some(b) => seq![(e.0, b)],
            None => Seq::<(Seq<char>, Seq<u8>)>::empty(),
        }),
{
    assert(a.push(e).drop_last() =~= a);
    assert(a.push(e).last() == e);
}

/// What an in-memory archive writer holds: the entries started so far, in
/// order, a file as its name and bytes, a directory as its name alone.
pub uninterp spec fn zip_entries(w: ArchiveWriter) -> Seq<(Seq<char>, Option<Seq<u8>>)>;

/// The archive bytes that the writer emits for a sequence of entries. The
/// writer is configured with a fixed modification time, fixed permission
/// bits and deflate compression, so the bytes depend on the entries alone.
pub uninterp spec fn zip_encoding_of(entries: Seq<(Seq<char>, Option<Seq<u8>>)>) -> Seq<u8>;

/// Relies on zip::write::ZipWriter::new over an in-memory cursor: a new
/// archive writer holds no entries.
#[verifier::external_body]
fn zip_writer_new() -> (w: ArchiveWriter)
    ensures
        zip_entries(w) == Seq::<(Seq<char>, Option<Seq<u8>>)>::empty(),
{
    ArchiveWriter { inner: zip::write::ZipWriter::new(std::io::Cursor::new(Vec::new())) }
}

/// Relies on ZipWriter::start_file and Write::write_all: appends one file
/// entry under `name` holding exactly the bytes of `content`,
/// deflate-compressed, with standard executable permission bits and the
/// format's fixed epoch as modification time. Writing into an in-memory
/// buffer, the writer fails only on an entry past the format's size
/// threshold; with every entry under the bound the calls succeed.
#[verifier::external_body]
fn zip_add_file(w: &mut ArchiveWriter, name: &str, content: &[u8]) -> (r: Result<(), String>)
    requires
        all_entries_fit(zip_entries(*old(w))),
        content@.len() < 0xFFF0_0000,
    ensures
        r is Ok,
        zip_entries(*final(w)) == zip_entries(*old(w)).push((name@, Some(content@))),
{
    let options = zip::write::FileOptions::default().compression_method(
        zip::CompressionMethod::Deflated,
    ).unix_permissions(0o755).last_modified_time(zip::DateTime::default());
    if let Err(e) = w.inner.start_file(name, options) {
        return Err(e.to_string());
    }
    std::io::Write::write_all(&mut w.inner, content).map_err(|e| e.to_string())
}

/// Relies on ZipWriter::add_directory: appends one directory entry under
/// `name`, with the same fixed options, so empty directories survive a
/// round-trip. With every entry so far under the size bound the call
/// succeeds.
#[verifier::external_body]
fn zip_add_dir(w: &mut ArchiveWriter, name: &str) -> (r: Result<(), String>)
    requires
        all_entries_fit(zip_entries(*old(w))),
    ensures
        r is Ok,
        zip_entries(*final(w)) == zip_entries(*old(w)).push((name@, None)),
{
    let options = zip::write::FileOptions::default().compression_method(
        zip::CompressionMethod::Deflated,
    ).unix_permissions(0o755).last_modified_time(zip::DateTime::default());
    w.inner.add_directory(name, options).map_err(|e| e.to_string())
}

/// Relies on ZipWriter::finish: closes the archive and hands its bytes back,
/// a function of the entries written. Taking the writer by value, no closed
/// writer remains to finish twice; with every entry under the size bound the
/// call succeeds, and the central directory uses the format's 64-bit footer
/// where it grows past the 32-bit fields.
#[verifier::external_body]
fn zip_finish(w: ArchiveWriter) -> (r: Result<Vec<u8>, String>)
    requires
        all_entries_fit(zip_entries(w)),
    ensures
        r is Ok,
        r matches Ok(b) ==> b@ == zip_encoding_of(zip_entries(w)),
{
    let mut inner = w.inner;
    match inner.finish() {
        Ok(c) => Ok(c.into_inner()),
        Err(e) => Err(e.to_string()),
    }
}

/// Packs a walked workspace into an archive: each file entry carries its
/// bytes unchanged under its relative path, each non-empty-named directory
/// becomes a directory entry, in walk order. Every file must stay under the
/// format's per-entry size limit; the bytes returned are the writer's
/// deterministic encoding of exactly those entries.
pub fn build_archive(entries: &Vec<WalkEntry>) -> (r: Vec<u8>)
    requires
        all_entries_fit(entries_view(entries@)),
    ensures
        r@ == zip_encoding_of(archive_entries(entries_view(entries@))),
{
    let mut w = zip_writer_new();
    let n = entries.len();
    let mut i: usize = 0;
    proof {
        assert(entries_view(entries@.take(0)) =~= Seq::<(Seq<char>, Option<Seq<u8>>)>::empty());
    }
    while i < n
        invariant
            n == entries@.len(),
            i <= n,
            all_entries_fit(entries_view(entries@)),
            zip_entries(w) == archive_entries(entries_view(entries@.take(i as int))),
            all_entries_fit(zip_entries(w)),
        decreases n - i,
    {
        let ghost pre = entries_view(entries@.take(i as int));
        let ghost prewrit = zip_entries(w);
        proof {
            assert(entries@.take(i + 1).drop_last() =~= entries@.take(i as int));
            assert(entries_view(entries@.take(i + 1)).drop_last() =~= pre);
            assert(entries_view(entries@.take(i + 1)).last() == entries@[i as int].view_pair());
            assert(entries_view(entries@)[i as int] == entries@[i as int].view_pair());
        }
        let e = &entries[i];
        match &e.content {
            Some(bytes) => {
                let _ = zip_add_file(&mut w, e.path.as_str(), bytes.as_slice());
                proof {
                    assert(archive_entries(entries_view(entries@.take(i + 1))) =~= archive_entries(
                        pre,
                    ).push(entries@[i as int].view_pair()));
                    assert forall|k: int| 0 <= k < zip_entries(w).len() implies entry_fits(
                        zip_entries(w)[k],
                    ) by {
                        if k < prewrit.len() {
                            assert(zip_entries(w)[k] == prewrit[k]);
                        }
                    }
                }
            },
            None => {
                if e.path.as_str().unicode_len() > 0 {
                    let _ = zip_add_dir(&mut w, e.path.as_str());
                    proof {
                        assert(archive_entries(entries_view(entries@.take(i + 1)))
                            =~= archive_entries(pre).push(entries@[i as int].view_pair()));
                        assert forall|k: int| 0 <= k < zip_entries(w).len() implies entry_fits(
                            zip_entries(w)[k],
                        ) by {
                            if k < prewrit.len() {
                                assert(zip_entries(w)[k] == prewrit[k]);
                            }
                        }
                    }
                } else {
                    proof {
                        assert(!keeps_entry(entries@[i as int].view_pair()));
                        assert(archive_entries(entries_view(entries@.take(i + 1)))
                            =~= archive_entries(pre));
                    }
                }
            },
        }
        i = i + 1;
    }
    proof {
        assert(entries@.take(n as int) =~= entries@);
    }
    match zip_finish(w) {
        Ok(b) => b,
        Err(_) => {
            proof {
                assert(false);
            }
            Vec::new()
        },
    }
}

} // verus!
