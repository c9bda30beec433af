use async_zip::compress::Compression;
use async_zip::error::ZipError;
use async_zip::write::{EntryOptions, ZipFileWriter};
use std::io::Read;

fn u16_at(b: &[u8], at: usize) -> u16 {
    u16::from_le_bytes([b[at], b[at + 1]])
}

fn u32_at(b: &[u8], at: usize) -> u32 {
    u32::from_le_bytes([b[at], b[at + 1], b[at + 2], b[at + 3]])
}

fn opts(name: &str, c: Compression) -> EntryOptions {
    EntryOptions::new(name.to_string(), c)
}

fn inflate(b: &[u8]) -> Vec<u8> {
    let mut out = Vec::new();
    flate2::read::DeflateDecoder::new(b).read_to_end(&mut out).unwrap();
    out
}

/// Collects the whole archive: what was taken along the way, then what close returns.
fn finish(mut w: ZipFileWriter, mut so_far: Vec<u8>) -> Vec<u8> {
    so_far.extend(w.take_output());
    so_far.extend(w.close().unwrap());
    so_far
}

#[test]
fn single_stored_entry_layout() {
    let mut w = ZipFileWriter::new();
    w.write_entry_whole(opts("a.txt", Compression::Stored), b"hello").unwrap();
    let z = finish(w, Vec::new());
    assert_eq!(u32_at(&z, 0), 0x04034b50);
    assert_eq!(u16_at(&z, 6), 0);
    assert_eq!(u16_at(&z, 8), 0);
    assert_eq!(u32_at(&z, 14), 0x3610a686);
    assert_eq!(u32_at(&z, 18), 5);
    assert_eq!(u32_at(&z, 22), 5);
    assert_eq!(u16_at(&z, 26), 5);
    assert_eq!(u16_at(&z, 28), 0);
    assert_eq!(&z[30..35], b"a.txt");
    assert_eq!(&z[35..40], b"hello");
    // central directory record at 40
    assert_eq!(u32_at(&z, 40), 0x02014b50);
    assert_eq!(u16_at(&z, 40 + 10), 0);
    assert_eq!(u32_at(&z, 40 + 16), 0x3610a686);
    assert_eq!(u32_at(&z, 40 + 20), 5);
    assert_eq!(u32_at(&z, 40 + 24), 5);
    assert_eq!(u16_at(&z, 40 + 28), 5);
    assert_eq!(u32_at(&z, 40 + 42), 0);
    assert_eq!(&z[86..91], b"a.txt");
    // end record at 91
    assert_eq!(u32_at(&z, 91), 0x06054b50);
    assert_eq!(u16_at(&z, 91 + 8), 1);
    assert_eq!(u16_at(&z, 91 + 10), 1);
    assert_eq!(u32_at(&z, 91 + 12), 51);
    assert_eq!(u32_at(&z, 91 + 16), 40);
    assert_eq!(z.len(), 91 + 22);
}

#[test]
fn deflate_whole_entry_checksum_and_round_trip() {
    let payload: Vec<u8> = b"abcabcabcabcabcabcabcabcabcabcabcabcabcabc".to_vec();
    let mut w = ZipFileWriter::new();
    w.write_entry_whole(opts("d.bin", Compression::Deflate), &payload).unwrap();
    let z = finish(w, Vec::new());
    let crc = crc32fast::hash(&payload);
    assert_eq!(u16_at(&z, 8), 8);
    assert_eq!(u32_at(&z, 14), crc);
    let csize = u32_at(&z, 18) as usize;
    assert_eq!(u32_at(&z, 22) as usize, payload.len());
    assert!(csize < payload.len());
    let data = &z[30 + 5..30 + 5 + csize];
    assert_ne!(data, &payload[..]);
    assert_eq!(inflate(data), payload);
    let cd = 30 + 5 + csize;
    assert_eq!(u32_at(&z, cd), 0x02014b50);
    assert_eq!(u32_at(&z, cd + 16), crc);
    assert_eq!(u32_at(&z, cd + 20) as usize, csize);
}

#[test]
fn stream_header_deferred_and_descriptor() {
    let mut w = ZipFileWriter::new();
    w.write_entry_stream(opts("s", Compression::Stored)).unwrap();
    w.append_stream_data(b"ab").unwrap();
    w.append_stream_data(b"").unwrap();
    w.append_stream_data(b"cde").unwrap();
    w.finish_stream_entry().unwrap();
    let z = finish(w, Vec::new());
    assert_eq!(u16_at(&z, 6) & 0x0008, 0x0008);
    assert_eq!(u32_at(&z, 14), 0);
    assert_eq!(u32_at(&z, 18), 0);
    assert_eq!(u32_at(&z, 22), 0);
    assert_eq!(&z[31..36], b"abcde");
    assert_eq!(u32_at(&z, 36), 0x08074b50);
    assert_eq!(u32_at(&z, 40), crc32fast::hash(b"abcde"));
    assert_eq!(u32_at(&z, 44), 5);
    assert_eq!(u32_at(&z, 48), 5);
    // central directory record carries the real values
    assert_eq!(u32_at(&z, 52), 0x02014b50);
    assert_eq!(u16_at(&z, 52 + 8), 0x0008);
    assert_eq!(u32_at(&z, 52 + 16), crc32fast::hash(b"abcde"));
    assert_eq!(u32_at(&z, 52 + 20), 5);
    assert_eq!(u32_at(&z, 52 + 24), 5);
    assert_eq!(u32_at(&z, 52 + 42), 0);
}

#[test]
fn deflate_stream_round_trip() {
    let mut w = ZipFileWriter::new();
    w.write_entry_stream(opts("z", Compression::Deflate)).unwrap();
    let mut all = Vec::new();
    for i in 0..50u8 {
        let chunk = vec![i % 7; 100];
        all.extend_from_slice(&chunk);
        w.append_stream_data(&chunk).unwrap();
    }
    w.finish_stream_entry().unwrap();
    let z = finish(w, Vec::new());
    let start = 31;
    let cd = z.len() - 22 - 47;
    let desc = cd - 16;
    assert_eq!(u32_at(&z, desc), 0x08074b50);
    let csize = u32_at(&z, desc + 8) as usize;
    assert_eq!(u32_at(&z, desc + 12) as usize, all.len());
    assert_eq!(u32_at(&z, desc + 4), crc32fast::hash(&all));
    assert_eq!(start + csize, desc);
    assert_eq!(inflate(&z[start..desc]), all);
}

#[test]
fn local_header_offsets_of_three_entries() {
    let mut w = ZipFileWriter::new();
    let mut expected = Vec::new();
    expected.push(w.offset());
    w.write_entry_whole(opts("one", Compression::Stored), &[1u8; 3]).unwrap();
    expected.push(w.offset());
    w.write_entry_stream(opts("two", Compression::Deflate)).unwrap();
    w.append_stream_data(&[2u8; 300]).unwrap();
    w.finish_stream_entry().unwrap();
    expected.push(w.offset());
    w.write_entry_whole(opts("three", Compression::Stored), &[3u8; 77]).unwrap();
    let cd_start = w.offset();
    let z = finish(w, Vec::new());
    assert_eq!(expected[0], 0);
    assert_eq!(expected[1], 30 + 3 + 3);
    let mut at = cd_start as usize;
    for off in &expected {
        assert_eq!(u32_at(&z, at), 0x02014b50);
        assert_eq!(u32_at(&z, at + 42), *off);
        assert_eq!(u32_at(&z, *off as usize), 0x04034b50);
        let n = u16_at(&z, at + 28) as usize;
        at += 46 + n;
    }
    assert_eq!(u32_at(&z, at), 0x06054b50);
    assert_eq!(u16_at(&z, at + 10), 3);
    assert_eq!(u32_at(&z, at + 12), at as u32 - cd_start);
    assert_eq!(u32_at(&z, at + 16), cd_start);
}

#[test]
fn end_record_counts_extra_and_comment() {
    let mut w = ZipFileWriter::new();
    let o = opts("n", Compression::Stored).extra(vec![9, 9, 9]).comment("hey".to_string());
    w.write_entry_whole(o, b"x").unwrap();
    let z = finish(w, Vec::new());
    let cd = 30 + 1 + 3 + 1;
    assert_eq!(u16_at(&z, 28), 3);
    assert_eq!(&z[31..34], &[9, 9, 9]);
    assert_eq!(u16_at(&z, cd + 30), 3);
    assert_eq!(u16_at(&z, cd + 32), 3);
    assert_eq!(&z[cd + 46..cd + 53], b"n\x09\x09\x09hey");
    let end = cd + 46 + 7;
    assert_eq!(u32_at(&z, end + 12), 53);
    assert_eq!(u32_at(&z, end + 16), cd as u32);
}

#[test]
fn second_entry_while_stream_open_is_refused() {
    let mut w = ZipFileWriter::new();
    w.write_entry_stream(opts("s", Compression::Stored)).unwrap();
    let before = w.offset();
    assert_eq!(w.write_entry_stream(opts("t", Compression::Stored)), Err(ZipError::EntryOpen));
    assert_eq!(w.write_entry_whole(opts("u", Compression::Stored), b"x"), Err(ZipError::EntryOpen));
    assert_eq!(w.offset(), before);
}

#[test]
fn close_with_open_stream_is_refused() {
    let mut w = ZipFileWriter::new();
    w.write_entry_stream(opts("s", Compression::Stored)).unwrap();
    assert_eq!(w.close().err(), Some(ZipError::EntryOpen));
}

#[test]
fn append_without_open_stream_is_refused() {
    let mut w = ZipFileWriter::new();
    assert_eq!(w.append_stream_data(b"x"), Err(ZipError::NoEntryOpen));
    assert_eq!(w.finish_stream_entry(), Err(ZipError::NoEntryOpen));
    w.write_entry_stream(opts("s", Compression::Stored)).unwrap();
    w.finish_stream_entry().unwrap();
    assert_eq!(w.append_stream_data(b"x"), Err(ZipError::NoEntryOpen));
}

#[test]
fn duplicate_name_is_refused() {
    let mut w = ZipFileWriter::new();
    w.write_entry_whole(opts("a", Compression::Stored), b"1").unwrap();
    let before = w.offset();
    assert_eq!(w.write_entry_whole(opts("a", Compression::Deflate), b"2"), Err(ZipError::DuplicateName));
    assert_eq!(w.write_entry_stream(opts("a", Compression::Stored)), Err(ZipError::DuplicateName));
    assert_eq!(w.offset(), before);
    w.write_entry_whole(opts("b", Compression::Stored), b"2").unwrap();
}

/// Writes one whole entry and returns (method code, csize, usize, crc, stored bytes).
fn whole_entry_fields(c: Compression, payload: &[u8]) -> (u16, usize, usize, u32, Vec<u8>) {
    let mut w = ZipFileWriter::new();
    w.write_entry_whole(opts("e", c), payload).unwrap();
    let z = finish(w, Vec::new());
    let csize = u32_at(&z, 18) as usize;
    (u16_at(&z, 8), csize, u32_at(&z, 22) as usize, u32_at(&z, 14), z[31..31 + csize].to_vec())
}

fn sample() -> Vec<u8> {
    b"the quick brown fox jumps over the lazy dog; ".repeat(20)
}

#[test]
fn bzip2_whole_entry() {
    let p = sample();
    let (code, csize, usize_, crc, data) = whole_entry_fields(Compression::Bz, &p);
    assert_eq!(code, 12);
    assert_eq!(usize_, p.len());
    assert_eq!(crc, crc32fast::hash(&p));
    assert!(csize < p.len());
    assert_eq!(&data[..3], b"BZh");
    let mut out = Vec::new();
    bzip2::read::BzDecoder::new(&data[..]).read_to_end(&mut out).unwrap();
    assert_eq!(out, p);
}

#[test]
fn lzma_whole_entry() {
    let p = sample();
    let (code, csize, usize_, crc, data) = whole_entry_fields(Compression::Lzma, &p);
    assert_eq!(code, 14);
    assert_eq!(usize_, p.len());
    assert_eq!(crc, crc32fast::hash(&p));
    assert_eq!(csize, data.len());
    let mut out = Vec::new();
    lzma_rs::lzma_decompress(&mut &data[..], &mut out).unwrap();
    assert_eq!(out, p);
}

#[test]
fn xz_whole_entry() {
    let p = sample();
    let (code, _csize, usize_, crc, data) = whole_entry_fields(Compression::Xz, &p);
    assert_eq!(code, 95);
    assert_eq!(usize_, p.len());
    assert_eq!(crc, crc32fast::hash(&p));
    assert_eq!(&data[..6], &[0xFD, b'7', b'z', b'X', b'Z', 0x00]);
    let mut out = Vec::new();
    lzma_rs::xz_decompress(&mut &data[..], &mut out).unwrap();
    assert_eq!(out, p);
}

#[test]
fn zstd_whole_entry() {
    let p = sample();
    let (code, csize, usize_, crc, data) = whole_entry_fields(Compression::Zstd, &p);
    assert_eq!(code, 93);
    assert_eq!(usize_, p.len());
    assert_eq!(crc, crc32fast::hash(&p));
    assert!(csize < p.len());
    assert_eq!(u32::from_le_bytes([data[0], data[1], data[2], data[3]]), 0xFD2FB528);
}

#[test]
fn buffered_methods_stream_like_whole() {
    for c in [Compression::Bz, Compression::Lzma, Compression::Xz, Compression::Zstd] {
        let p = sample();
        let (_, _, _, _, whole) = whole_entry_fields(c, &p);
        let mut w = ZipFileWriter::new();
        w.write_entry_stream(opts("e", c)).unwrap();
        let (a, b) = p.split_at(100);
        w.append_stream_data(a).unwrap();
        assert_eq!(w.offset(), 31);
        w.append_stream_data(b).unwrap();
        w.finish_stream_entry().unwrap();
        let z = finish(w, Vec::new());
        assert_eq!(u16_at(&z, 6), 0x0008);
        assert_eq!(u32_at(&z, 14), 0);
        assert_eq!(&z[31..31 + whole.len()], &whole[..]);
        let desc = 31 + whole.len();
        assert_eq!(u32_at(&z, desc), 0x08074b50);
        assert_eq!(u32_at(&z, desc + 4), crc32fast::hash(&p));
        assert_eq!(u32_at(&z, desc + 8) as usize, whole.len());
        assert_eq!(u32_at(&z, desc + 12) as usize, p.len());
    }
}

#[test]
fn overlong_name_is_refused() {
    let mut w = ZipFileWriter::new();
    let name = "n".repeat(65536);
    assert_eq!(w.write_entry_whole(opts(&name, Compression::Stored), b"1"), Err(ZipError::FieldTooLarge));
    assert_eq!(w.write_entry_stream(opts(&name, Compression::Deflate)), Err(ZipError::FieldTooLarge));
    let extra = opts("x", Compression::Stored).extra(vec![0u8; 65536]);
    assert_eq!(w.write_entry_whole(extra, b"1"), Err(ZipError::FieldTooLarge));
    assert_eq!(w.offset(), 0);
    let ok = "n".repeat(65535);
    w.write_entry_whole(opts(&ok, Compression::Stored), b"1").unwrap();
    assert_eq!(w.offset(), 30 + 65535 + 1);
}

#[test]
fn empty_archive() {
    let w = ZipFileWriter::new();
    let z = w.close().unwrap();
    assert_eq!(z.len(), 22);
    assert_eq!(u32_at(&z, 0), 0x06054b50);
    assert_eq!(u16_at(&z, 10), 0);
    assert_eq!(u32_at(&z, 12), 0);
    assert_eq!(u32_at(&z, 16), 0);
}

#[test]
fn taken_output_is_not_repeated() {
    let mut w = ZipFileWriter::new();
    w.write_entry_whole(opts("a", Compression::Stored), b"hello").unwrap();
    let first = w.take_output();
    assert_eq!(first.len(), 36);
    assert!(w.take_output().is_empty());
    assert_eq!(w.offset(), 36);
    let rest = w.close().unwrap();
    assert_eq!(u32_at(&rest, 0), 0x02014b50);
    assert_eq!(u32_at(&rest, rest.len() - 22 + 16), 36);
}

#[test]
fn options_builders() {
    let o = EntryOptions::new("f".to_string(), Compression::Lzma).extra(vec![1, 2]).comment("c".to_string());
    assert_eq!(o.filename, "f");
    assert_eq!(o.compression, Compression::Lzma);
    assert_eq!(o.extra, vec![1, 2]);
    assert_eq!(o.comment, "c");
    assert_eq!(Compression::Xz.code(), 95);
    assert_eq!(ZipError::DuplicateName.description(), "an entry of this file name was already written");
}
