use std::collections::BTreeMap;
use std::io::Cursor;
use xp3_audio_speedup::archive::{
    add_all_file, add_file, finish_archive, pack_xp3, start_archive, SourceFile, COMPRESS_INDEX,
    HEADER_MINOR_VERSION, INDEX_SIZE_OFFSET,
};

fn source(path: &str, modified_ms: u64, data: &[u8]) -> SourceFile {
    SourceFile { relative_path: path.to_string(), modified_ms, data: data.to_vec() }
}

/// Reads an archive back: member name to (timestamp, bytes).
fn read_back(bytes: Vec<u8>) -> BTreeMap<String, (Option<u64>, Vec<u8>)> {
    let archive = xp3::XP3Reader::open_archive(Cursor::new(bytes)).unwrap();
    let mut members = BTreeMap::new();
    for (name, index) in archive.entries() {
        let mut data = Vec::new();
        archive.unpack(name, &mut data).unwrap();
        assert!(matches!(index.info().flag(), xp3::index::file::IndexInfoFlag::NotProtected));
        for segment in index.segments() {
            assert!(matches!(segment.flag(), xp3::index::file::IndexSegmentFlag::UnCompressed));
            assert_eq!(segment.saved_size(), segment.original_size());
        }
        members.insert(name.clone(), (index.time().map(|time| time.timestamp()), data));
    }
    members
}

fn occurs_in(needle: &[u8], hay: &[u8]) -> bool {
    needle.is_empty() || hay.windows(needle.len()).any(|window| window == needle)
}

#[test]
fn empty_archive_has_the_magic_and_no_members() {
    let writer = start_archive().unwrap();
    let bytes = finish_archive(writer).unwrap();
    assert_eq!(&bytes[..10], &xp3::XP3_MAGIC[..]);
    assert!(read_back(bytes).is_empty());
}

#[test]
fn packing_nothing_counts_zero() {
    let packed = pack_xp3(&Vec::new()).unwrap();
    assert_eq!(packed.count, 0);
    assert!(read_back(packed.bytes).is_empty());
}

#[test]
fn packed_files_read_back_byte_for_byte() {
    let files = vec![
        source("bgm/theme.ogg", 1_700_000_000_000, b"OggS\x00\x02 tempo shifted stream"),
        source("script/main.txt", 42, b"hello, world\n"),
        source("empty.bin", 0, b""),
    ];
    let packed = pack_xp3(&files).unwrap();
    assert_eq!(packed.count, 3);
    let members = read_back(packed.bytes);
    assert_eq!(members.len(), 3);
    for file in &files {
        let (timestamp, data) = &members[&file.relative_path];
        assert_eq!(*timestamp, Some(file.modified_ms));
        assert_eq!(data, &file.data);
    }
}

#[test]
fn member_names_use_forward_slashes() {
    let files = vec![
        source("bgm\\theme.ogg", 1, b"one"),
        source("script\\sub\\main.txt", 2, b"two"),
        source("top.txt", 3, b"three"),
    ];
    let packed = pack_xp3(&files).unwrap();
    assert_eq!(packed.count, 3);
    let members = read_back(packed.bytes);
    let names: Vec<&str> = members.keys().map(|name| name.as_str()).collect();
    assert_eq!(names, vec!["bgm/theme.ogg", "script/sub/main.txt", "top.txt"]);
    assert_eq!(members["bgm/theme.ogg"].1, b"one");
    assert_eq!(members["script/sub/main.txt"].1, b"two");
}

#[test]
fn entry_count_equals_the_number_of_files() {
    for n in [1usize, 2, 7, 40] {
        let files: Vec<SourceFile> = (0..n)
            .map(|i| source(&format!("dir{}/file{}.dat", i % 3, i), i as u64, &vec![i as u8; i]))
            .collect();
        let packed = pack_xp3(&files).unwrap();
        assert_eq!(packed.count, n);
        let members = read_back(packed.bytes);
        assert_eq!(members.len(), n);
        for file in &files {
            assert_eq!(members[&file.relative_path].1, file.data);
        }
    }
}

#[test]
fn archive_carries_every_file_verbatim() {
    let files = vec![
        source("a.bin", 1, &[0xde, 0xad, 0xbe, 0xef, 0x01, 0x02, 0x03]),
        source("b.bin", 2, b"a run of bytes that compresses well well well well well well"),
    ];
    let packed = pack_xp3(&files).unwrap();
    for file in &files {
        assert!(occurs_in(&file.data, &packed.bytes));
    }
}

#[test]
fn same_member_name_keeps_the_later_file() {
    let files = vec![source("a\\b.txt", 1, b"first"), source("a/b.txt", 2, b"second")];
    let packed = pack_xp3(&files).unwrap();
    assert_eq!(packed.count, 2);
    let members = read_back(packed.bytes);
    assert_eq!(members.len(), 1);
    assert_eq!(members["a/b.txt"], (Some(2), b"second".to_vec()));
}

#[test]
fn add_file_registers_one_member() {
    let mut writer = start_archive().unwrap();
    assert!(add_file(&mut writer, &source("x\\y.bin", 9, b"xy")));
    let members = read_back(finish_archive(writer).unwrap());
    assert_eq!(members.len(), 1);
    assert_eq!(members["x/y.bin"], (Some(9), b"xy".to_vec()));
}

#[test]
fn add_all_file_adds_to_what_is_staged() {
    let mut writer = start_archive().unwrap();
    assert!(add_file(&mut writer, &source("first.txt", 1, b"1")));
    let more = vec![source("second.txt", 2, b"22"), source("third.txt", 3, b"333")];
    assert_eq!(add_all_file(&mut writer, &more), Ok(2));
    assert_eq!(add_all_file(&mut writer, &Vec::new()), Ok(0));
    let members = read_back(finish_archive(writer).unwrap());
    assert_eq!(members.len(), 3);
    assert_eq!(members["first.txt"].1, b"1");
    assert_eq!(members["second.txt"].1, b"22");
    assert_eq!(members["third.txt"].1, b"333");
}

#[test]
fn large_member_round_trips() {
    let data: Vec<u8> = (0..200_000u32).map(|i| (i * 31 % 251) as u8).collect();
    let files = vec![source("big.bin", 5, &data)];
    let packed = pack_xp3(&files).unwrap();
    assert_eq!(packed.count, 1);
    assert_eq!(read_back(packed.bytes)["big.bin"].1, data);
}

#[test]
fn unicode_member_names_round_trip() {
    let files = vec![source("音楽\\テーマ.ogg", 7, b"OggS")];
    let packed = pack_xp3(&files).unwrap();
    let members = read_back(packed.bytes);
    assert_eq!(members["音楽/テーマ.ogg"], (Some(7), b"OggS".to_vec()));
}

#[test]
fn header_and_index_are_written_as_configured() {
    assert_eq!(HEADER_MINOR_VERSION, 1);
    assert!(COMPRESS_INDEX);
    let packed = pack_xp3(&vec![source("a.txt", 1, b"a")]).unwrap();
    let archive = xp3::XP3Reader::open_archive(Cursor::new(packed.bytes)).unwrap();
    let container = archive.container();
    match container.header().version() {
        xp3::header::XP3HeaderVersion::Current { minor_version, index_size_offset } => {
            assert_eq!(minor_version, 1);
            assert_eq!(index_size_offset, 0);
        }
        xp3::header::XP3HeaderVersion::Old => panic!("the current header layout is expected"),
    }
    assert!(matches!(
        container.index_set().compression(),
        xp3::index_set::XP3IndexCompression::Compressed
    ));
}

#[test]
fn archive_opens_with_the_header() {
    let mut expected = vec![0x58u8, 0x50, 0x33, 0x0D, 0x0A, 0x20, 0x0A, 0x1A, 0x8B, 0x67, 0x01];
    expected.extend_from_slice(&0x17u64.to_le_bytes());
    expected.extend_from_slice(&HEADER_MINOR_VERSION.to_le_bytes());
    expected.push(0x80);
    expected.extend_from_slice(&INDEX_SIZE_OFFSET.to_le_bytes());
    assert_eq!(expected.len(), 32);
    assert_eq!(INDEX_SIZE_OFFSET, 0);
    for files in [Vec::new(), vec![source("a.txt", 1, b"abc")]] {
        let packed = pack_xp3(&files).unwrap();
        assert_eq!(&packed.bytes[..32], &expected[..]);
    }
    let bytes = finish_archive(start_archive().unwrap()).unwrap();
    assert_eq!(&bytes[..32], &expected[..]);
}

#[test]
fn staging_in_memory_always_succeeds() {
    assert!(start_archive().is_ok());
    let mut writer = start_archive().unwrap();
    let files: Vec<SourceFile> =
        (0..25).map(|i| source(&format!("d\\f{}", i), i, &vec![7u8; 1000 * i as usize])).collect();
    for file in &files {
        assert!(add_file(&mut writer, file));
    }
    assert_eq!(add_all_file(&mut writer, &files), Ok(25));
    assert_eq!(add_all_file(&mut writer, &Vec::new()), Ok(0));
    let members = read_back(finish_archive(writer).unwrap());
    assert_eq!(members.len(), 25);
}

#[test]
fn packing_again_after_adding_a_file_adds_one_member() {
    let mut files = vec![source("bgm/theme.ogg", 1, b"OggS"), source("script/main.txt", 2, b"hi")];
    let first = pack_xp3(&files).unwrap();
    files.push(source("extra/new.bin", 3, b"new"));
    let second = pack_xp3(&files).unwrap();
    assert_eq!(second.count, first.count + 1);
    let before = read_back(first.bytes);
    let after = read_back(second.bytes);
    assert_eq!(after.len(), before.len() + 1);
    for (name, member) in &before {
        assert_eq!(&after[name], member);
    }
    assert_eq!(after["extra/new.bin"], (Some(3), b"new".to_vec()));
}
