//! Staging files into a fresh XP3 archive.
//!
//! The container format belongs to the `xp3` crate. This module keeps a
//! mathematical picture of the index a writer has accumulated and proves, over
//! that picture, which members a repack registers and with which attributes.

use crate::names::{entry_name, member_name};
use vstd::bytes::{spec_u32_to_le_bytes, spec_u64_to_le_bytes};
use vstd::prelude::*;

verus! {

/// A regular file found under the working root, ready to be packed.
pub struct SourceFile {
    /// Path relative to the working root, separators as the host wrote them.
    pub relative_path: String,
    /// Last modification, in milliseconds.
    pub modified_ms: u64,
    /// The whole content of the file.
    pub data: Vec<u8>,
}

/// Why packing stopped. In memory only the last step, writing the index, can
/// fail; the other two stand for the errors the writer's interface allows.
#[derive(Debug, Clone, Copy, PartialEq, Eq)]
pub enum PackError {
    /// The archive header could not be written.
    Start,
    /// Writing the member at `position` failed; the members before it are staged.
    Write { position: usize },
    /// The index could not be written.
    Finish,
}

/// Minor version written into the header of every archive.
pub const HEADER_MINOR_VERSION: u32 = 1;

/// The gap the header announces between itself and the position of the
/// index offset: none.
pub const INDEX_SIZE_OFFSET: u64 = 0;

/// Whether the index of an archive is written compressed.
pub const COMPRESS_INDEX: bool = true;

/// A finished archive: its bytes and the number of files that went into it.
pub struct PackedArchive {
    pub bytes: Vec<u8>,
    pub count: usize,
}

/// An XP3 archive under construction in memory.
///
/// Wraps `xp3::XP3Writer` over an in-memory cursor. The writer is opaque to
/// the verifier; [`writer_index`] names what its index holds.
#[verifier::external_body]
pub struct ArchiveWriter {
    inner: xp3::XP3Writer<std::io::Cursor<Vec<u8>>>,
}

/// The error type of the `xp3` crate, carried as an opaque value.
#[verifier::external_type_specification]
#[verifier::external_body]
pub struct ExXP3Error(xp3::XP3Error);

/// The error type of `std::io`, carried as an opaque value.
#[verifier::external_type_specification]
#[verifier::external_body]
pub struct ExIoError(std::io::Error);

/// The index a writer has accumulated: member name to
/// (protected, compressed, timestamp, bytes as stored in the data area).
/// The index is keyed by name, so registering a name again replaces the
/// earlier member.
pub uninterp spec fn writer_index(writer: ArchiveWriter) -> Map<
    Seq<char>,
    (bool, bool, Option<u64>, Seq<u8>),
>;

/// What a writer was started with: (minor version of the header, the
/// header's index size offset, whether the index will be compressed).
pub uninterp spec fn writer_layout(writer: ArchiveWriter) -> (u32, u64, bool);

/// Whether `XP3Writer::finish` succeeds on this writer. The one step of it
/// that is not a write into memory is the compression of the index.
pub uninterp spec fn finish_succeeds(writer: ArchiveWriter) -> bool;

/// The first 32 bytes of an archive with the current header layout: the
/// format's signature and version marker, the marker of the current layout,
/// the minor version, the header's end marker and the index size offset,
/// the numbers in little-endian order.
pub open spec fn header_image(minor_version: u32, index_size_offset: u64) -> Seq<u8> {
    seq![0x58u8, 0x50u8, 0x33u8, 0x0Du8, 0x0Au8, 0x20u8, 0x0Au8, 0x1Au8, 0x8Bu8, 0x67u8, 0x01u8]
        + spec_u64_to_le_bytes(0x17) + spec_u32_to_le_bytes(minor_version) + seq![0x80u8]
        + spec_u64_to_le_bytes(index_size_offset)
}

/// Whether `bytes` begins with `prefix`.
pub open spec fn opens_with(bytes: Seq<u8>, prefix: Seq<u8>) -> bool {
    prefix.len() <= bytes.len() && bytes.subrange(0, prefix.len() as int) == prefix
}

/// The index of a writer that has registered nothing.
pub open spec fn empty_index() -> Map<Seq<char>, (bool, bool, Option<u64>, Seq<u8>)> {
    Map::empty()
}

/// What this tool records for a member: not protected, stored uncompressed
/// (so the stored bytes are the file's bytes), stamped with `timestamp`.
pub open spec fn stored_entry(timestamp: u64, data: Seq<u8>) -> (
    bool,
    bool,
    Option<u64>,
    Seq<u8>,
) {
    (false, false, Some(timestamp), data)
}

/// Whether `needle` occurs in `hay` as one contiguous run.
pub open spec fn occurs_in(needle: Seq<u8>, hay: Seq<u8>) -> bool {
    exists|at: int|
        0 <= at && at + needle.len() <= hay.len() && #[trigger] hay.subrange(
            at,
            at + needle.len(),
        ) == needle
}

/// Whether `bytes` carries the stored bytes of every member of `index`.
pub open spec fn holds_members(
    bytes: Seq<u8>,
    index: Map<Seq<char>, (bool, bool, Option<u64>, Seq<u8>)>,
) -> bool {
    forall|name: Seq<char>| #[trigger] index.dom().contains(name) ==> occurs_in(index[name].3, bytes)
}

/// Calls `xp3::XP3Writer::start` on an empty in-memory cursor, with the
/// current header layout. Trusted: the call succeeds, since it only writes
/// the header into the cursor, which grows as needed; the writer has an empty
/// index and keeps what it was started with.
#[verifier::external_body]
fn start_writer(minor_version: u32, index_size_offset: u64, compress_index: bool) -> (started:
    Result<ArchiveWriter, xp3::XP3Error>)
    ensures
        started is Ok,
        started matches Ok(writer) ==> writer_index(writer) == empty_index(),
        started matches Ok(writer) ==> writer_layout(writer) == (
            minor_version,
            index_size_offset,
            compress_index,
        ),
{
    let compression = if compress_index {
        xp3::index_set::XP3IndexCompression::Compressed
    } else {
        xp3::index_set::XP3IndexCompression::UnCompressed
    };
    let version = xp3::header::XP3HeaderVersion::Current { minor_version, index_size_offset };
    let inner = xp3::XP3Writer::start(std::io::Cursor::new(Vec::new()), version, compression)?;
    Ok(ArchiveWriter { inner })
}

/// Registers one member through `XP3Writer::enter_file`,
/// `EntryWriter::write_segment` and `EntryWriter::finish`, the three calls
/// that make up one member: its bytes go into one uncompressed segment.
/// Trusted: the calls succeed, since an uncompressed segment is only copied
/// into the cursor; the segment's size is returned and the index maps `name`
/// to the new member, replacing any earlier member of that name; what the
/// writer was started with is untouched.
#[verifier::external_body]
fn write_entry(
    writer: &mut ArchiveWriter,
    protected: bool,
    name: String,
    timestamp: Option<u64>,
    data: &[u8],
) -> (written: Result<u64, std::io::Error>)
    ensures
        written is Ok,
        written matches Ok(size) ==> size == data@.len(),
        writer_index(*final(writer)) == writer_index(*old(writer)).insert(
            name@,
            (protected, false, timestamp, data@),
        ),
        writer_layout(*final(writer)) == writer_layout(*old(writer)),
{
    let protection = if protected {
        xp3::index::file::IndexInfoFlag::Protected
    } else {
        xp3::index::file::IndexInfoFlag::NotProtected
    };
    let mut entry = writer.inner.enter_file(protection, name, timestamp);
    let written = entry.write_segment(xp3::index::file::IndexSegmentFlag::UnCompressed, data);
    if written.is_ok() {
        entry.finish();
    }
    written
}

/// Calls `XP3Writer::finish`, which writes the index behind the data, and
/// hands back the buffer. Trusted: whether it succeeds depends on the writer
/// alone; the header stands at the start as `XP3Writer::start` wrote it and
/// the data area is left as the segments were written, so the stored bytes of
/// every indexed member occur in the result. Nothing is said of the index
/// bytes: their order follows a hash map.
#[verifier::external_body]
fn finish_writer(writer: ArchiveWriter) -> (finished: Result<Vec<u8>, xp3::XP3Error>)
    ensures
        (finished is Ok) == finish_succeeds(writer),
        finished matches Ok(bytes) ==> holds_members(bytes@, writer_index(writer)),
        finished matches Ok(bytes) ==> opens_with(
            bytes@,
            header_image(writer_layout(writer).0, writer_layout(writer).1),
        ),
{
    let (_, stream) = writer.inner.finish()?;
    Ok(stream.into_inner())
}

/// The index after the members of `files` have been registered, in order, on
/// top of `index`.
pub open spec fn staged(
    index: Map<Seq<char>, (bool, bool, Option<u64>, Seq<u8>)>,
    files: Seq<SourceFile>,
) -> Map<Seq<char>, (bool, bool, Option<u64>, Seq<u8>)>
    decreases files.len(),
{
    if files.len() == 0 {
        index
    } else {
        let file = files.last();
        staged(index, files.drop_last()).insert(
            member_name(file.relative_path@),
            stored_entry(file.modified_ms, file.data@),
        )
    }
}

/// The archive member name of the file at `position`.
pub open spec fn name_at(files: Seq<SourceFile>, position: int) -> Seq<char> {
    member_name(files[position].relative_path@)
}

/// The member names of all of `files`.
pub open spec fn member_names(files: Seq<SourceFile>) -> Set<Seq<char>> {
    Set::new(
        |name: Seq<char>|
            exists|position: int| 0 <= position < files.len() && #[trigger] name_at(files, position) == name,
    )
}

/// Whether no two of `files` end up under the same member name.
pub open spec fn names_distinct(files: Seq<SourceFile>) -> bool {
    forall|first: int, second: int|
        0 <= first < second < files.len() ==> #[trigger] name_at(files, first) != #[trigger] name_at(
            files,
            second,
        )
}

/// Staging adds exactly the member names of the files to the index.
pub proof fn staged_names(
    index: Map<Seq<char>, (bool, bool, Option<u64>, Seq<u8>)>,
    files: Seq<SourceFile>,
)
    ensures
        staged(index, files).dom() =~= index.dom().union(member_names(files)),
    decreases files.len(),
{
    if files.len() > 0 {
        let rest = files.drop_last();
        staged_names(index, rest);
        let last = files.len() - 1;
        assert forall|name: Seq<char>| #[trigger]
            member_names(files).contains(name) <==> (member_names(rest).contains(name) || name
                == name_at(files, last)) by {
            if member_names(files).contains(name) {
                let position = choose|position: int|
                    0 <= position < files.len() && #[trigger] name_at(files, position) == name;
                if position < last {
                    assert(name_at(rest, position) == name);
                }
            }
            if member_names(rest).contains(name) {
                let position = choose|position: int|
                    0 <= position < rest.len() && #[trigger] name_at(rest, position) == name;
                assert(name_at(files, position) == name);
            }
        }
    }
}

/// Every member this tool stages is named with forward slashes only, is not
/// protected, is stored uncompressed, carries a timestamp, and holds the
/// bytes and the timestamp of one of the files that map to its name.
pub proof fn staged_members_are_plain(files: Seq<SourceFile>, name: Seq<char>)
    requires
        staged(empty_index(), files).dom().contains(name),
    ensures
        !name.contains('\\'),
        exists|position: int|
            0 <= position < files.len() && #[trigger] name_at(files, position) == name && staged(
                empty_index(),
                files,
            )[name] == stored_entry(files[position].modified_ms, files[position].data@),
        !staged(empty_index(), files)[name].0,
        !staged(empty_index(), files)[name].1,
        staged(empty_index(), files)[name].2 is Some,
    decreases files.len(),
{
    if files.len() > 0 {
        let rest = files.drop_last();
        let last = files.len() - 1;
        if name == name_at(files, last) {
            let path = files[last].relative_path@;
            assert forall|at: int| 0 <= at < name.len() implies name[at] != '\\' by {
                assert(name[at] == crate::names::normalized_char(path[at]));
            }
        } else {
            staged_members_are_plain(rest, name);
            let position = choose|position: int|
                0 <= position < rest.len() && #[trigger] name_at(rest, position) == name && staged(
                    empty_index(),
                    rest,
                )[name] == stored_entry(rest[position].modified_ms, rest[position].data@);
            assert(name_at(files, position) == name);
        }
    }
}

/// Repacking a working root whose files map to distinct member names yields
/// one member per file: as many members as files, named exactly by the files'
/// relative paths with forward slashes, each holding its file's bytes as they
/// are.
pub proof fn repack_registers_each_file_once(files: Seq<SourceFile>)
    requires
        names_distinct(files),
    ensures
        staged(empty_index(), files).dom() == member_names(files),
        staged(empty_index(), files).dom().finite(),
        staged(empty_index(), files).dom().len() == files.len(),
        forall|position: int|
            0 <= position < files.len() ==> staged(empty_index(), files)[#[trigger] name_at(
                files,
                position,
            )] == stored_entry(files[position].modified_ms, files[position].data@),
    decreases files.len(),
{
    staged_names(empty_index(), files);
    assert(staged(empty_index(), files).dom() =~= member_names(files));
    if files.len() > 0 {
        let rest = files.drop_last();
        let last = files.len() - 1;
        assert(names_distinct(rest)) by {
            assert forall|first: int, second: int| 0 <= first < second < rest.len() implies name_at(
                rest,
                first,
            ) != name_at(rest, second) by {
                assert(name_at(files, first) != name_at(files, second));
            }
        }
        repack_registers_each_file_once(rest);
        staged_names(empty_index(), rest);
        assert(!member_names(rest).contains(name_at(files, last))) by {
            if member_names(rest).contains(name_at(files, last)) {
                let position = choose|position: int|
                    0 <= position < rest.len() && #[trigger] name_at(rest, position) == name_at(
                        files,
                        last,
                    );
                assert(name_at(files, position) != name_at(files, last));
            }
        }
        assert forall|position: int| 0 <= position < files.len() implies staged(
            empty_index(),
            files,
        )[#[trigger] name_at(files, position)] == stored_entry(
            files[position].modified_ms,
            files[position].data@,
        ) by {
            if position < last {
                assert(name_at(rest, position) == name_at(files, position));
                assert(name_at(files, position) != name_at(files, last));
            }
        }
    }
}

/// An archive that carries the members staged from `files` carries the bytes
/// of every file exactly as they are, provided the files map to distinct
/// member names: nothing this tool packs is compressed or otherwise altered.
pub proof fn packed_archive_carries_every_file(files: Seq<SourceFile>, bytes: Seq<u8>)
    requires
        names_distinct(files),
        holds_members(bytes, staged(empty_index(), files)),
    ensures
        forall|position: int|
            0 <= position < files.len() ==> occurs_in((#[trigger] files[position]).data@, bytes),
{
    repack_registers_each_file_once(files);
    assert forall|position: int| 0 <= position < files.len() implies occurs_in(
        (#[trigger] files[position]).data@,
        bytes,
    ) by {
        let name = name_at(files, position);
        assert(member_names(files).contains(name));
        assert(staged(empty_index(), files).dom().contains(name));
    }
}

/// Starts an empty archive in memory, with the header and index settings
/// of this tool. This always succeeds.
pub fn start_archive() -> (started: Result<ArchiveWriter, PackError>)
    ensures
        started is Ok,
        started matches Ok(writer) ==> writer_index(writer) == empty_index(),
        started matches Ok(writer) ==> writer_layout(writer) == (
            HEADER_MINOR_VERSION,
            INDEX_SIZE_OFFSET,
            COMPRESS_INDEX,
        ),
{
    match start_writer(HEADER_MINOR_VERSION, INDEX_SIZE_OFFSET, COMPRESS_INDEX) {
        Ok(writer) => Ok(writer),
        Err(_) => Err(PackError::Start),
    }
}

/// Registers one file as a member named after its relative path (with
/// forward slashes), not protected, stored uncompressed and stamped with the
/// file's modification time. The index then maps the member's name to the
/// file's bytes, replacing an earlier member of that name. Returns whether
/// the member was written, which in memory it always is.
pub fn add_file(writer: &mut ArchiveWriter, file: &SourceFile) -> (added: bool)
    ensures
        added,
        writer_index(*final(writer)) == writer_index(*old(writer)).insert(
            member_name(file.relative_path@),
            stored_entry(file.modified_ms, file.data@),
        ),
        writer_layout(*final(writer)) == writer_layout(*old(writer)),
{
    let name = entry_name(file.relative_path.as_str());
    match write_entry(writer, false, name, Some(file.modified_ms), file.data.as_slice()) {
        Ok(_) => true,
        Err(_) => false,
    }
}

/// Registers every file of `files`, in order, and returns how many were
/// packed: all of them.
pub fn add_all_file(writer: &mut ArchiveWriter, files: &Vec<SourceFile>) -> (packed: Result<
    usize,
    PackError,
>)
    ensures
        packed == Ok::<usize, PackError>(files.len()),
        writer_index(*final(writer)) == staged(writer_index(*old(writer)), files@),
        writer_layout(*final(writer)) == writer_layout(*old(writer)),
{
    let mut count: usize = 0;
    proof {
        assert(files@.take(0) =~= Seq::<SourceFile>::empty());
    }
    while count < files.len()
        invariant
            count <= files@.len(),
            writer_index(*writer) == staged(writer_index(*old(writer)), files@.take(count as int)),
            writer_layout(*writer) == writer_layout(*old(writer)),
        decreases files@.len() - count,
    {
        let added = add_file(writer, &files[count]);
        if !added {
            return Err(PackError::Write { position: count });
        }
        proof {
            let next = files@.take(count + 1);
            assert(next.drop_last() =~= files@.take(count as int));
            assert(next.last() == files@[count as int]);
        }
        count = count + 1;
    }
    proof {
        assert(files@.take(count as int) =~= files@);
    }
    Ok(count)
}

/// Finishes an archive and hands back its bytes. They open with the header
/// the writer was started with and carry the stored bytes of every member.
/// Fails exactly when the index cannot be written.
pub fn finish_archive(writer: ArchiveWriter) -> (finished: Result<Vec<u8>, PackError>)
    ensures
        (finished is Ok) == finish_succeeds(writer),
        finished matches Ok(bytes) ==> holds_members(bytes@, writer_index(writer)),
        finished matches Ok(bytes) ==> opens_with(
            bytes@,
            header_image(writer_layout(writer).0, writer_layout(writer).1),
        ),
        finished matches Err(error) ==> error == PackError::Finish,
{
    match finish_writer(writer) {
        Ok(bytes) => Ok(bytes),
        Err(_) => Err(PackError::Finish),
    }
}

/// Whether `packed` is what finishing `writer` gives, `writer` being a writer
/// started with this tool's settings on which exactly `files` are staged.
pub open spec fn packed_from(
    writer: ArchiveWriter,
    files: Seq<SourceFile>,
    packed: Result<PackedArchive, PackError>,
) -> bool {
    &&& writer_index(writer) == staged(empty_index(), files)
    &&& writer_layout(writer) == (HEADER_MINOR_VERSION, INDEX_SIZE_OFFSET, COMPRESS_INDEX)
    &&& (packed is Ok) == finish_succeeds(writer)
}

/// Packs `files` into a fresh archive: every file becomes one member, named
/// by its relative path with forward slashes, not protected, uncompressed.
/// Staging never fails, so the result is that of finishing a writer on which
/// exactly these files are staged. The archive opens with this tool's header
/// and carries the bytes of every member of the resulting index; the count is
/// the number of files.
pub fn pack_xp3(files: &Vec<SourceFile>) -> (packed: Result<PackedArchive, PackError>)
    ensures
        exists|writer: ArchiveWriter| #[trigger] packed_from(writer, files@, packed),
        packed matches Ok(archive) ==> archive.count == files@.len(),
        packed matches Ok(archive) ==> holds_members(archive.bytes@, staged(empty_index(), files@)),
        packed matches Ok(archive) ==> opens_with(
            archive.bytes@,
            header_image(HEADER_MINOR_VERSION, INDEX_SIZE_OFFSET),
        ),
        packed matches Err(error) ==> error == PackError::Finish,
{
    let mut writer = match start_archive() {
        Ok(writer) => writer,
        Err(error) => {
            return Err(error);
        },
    };
    let count = match add_all_file(&mut writer, files) {
        Ok(count) => count,
        Err(error) => {
            return Err(error);
        },
    };
    let ghost staged_writer = writer;
    let packed = match finish_archive(writer) {
        Ok(bytes) => Ok(PackedArchive { bytes, count }),
        Err(error) => Err(error),
    };
    proof {
        assert(packed_from(staged_writer, files@, packed));
    }
    packed
}

} // verus!
