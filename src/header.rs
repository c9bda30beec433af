//! Fixed-layout ZIP records and their little-endian encodings.

use vstd::prelude::*;

verus! {

/// Signature that starts a local file header.
pub const LFHD: u32 = 0x04034b50;

/// Signature that starts a central directory file header.
pub const CDFHD: u32 = 0x02014b50;

/// Signature that starts the end-of-central-directory record.
pub const EOCDD: u32 = 0x06054b50;

/// Signature that starts a data descriptor.
pub const DDD: u32 = 0x08074b50;

/// Little-endian bytes of a 16-bit value.
pub open spec fn le16(v: u16) -> Seq<u8> {
    seq![(v % 256) as u8, (v / 256) as u8]
}

/// Little-endian bytes of a 32-bit value.
pub open spec fn le32(v: u32) -> Seq<u8> {
    seq![
        (v % 256) as u8,
        ((v / 256) % 256) as u8,
        ((v / 65536) % 256) as u8,
        (v / 16777216) as u8,
    ]
}

/// Appends the little-endian bytes of `v`.
pub fn push_u16(out: &mut Vec<u8>, v: u16)
    ensures
        final(out)@ == old(out)@ + le16(v),
{
    out.push((v % 256) as u8);
    out.push((v / 256) as u8);
    assert(final(out)@ =~= old(out)@ + le16(v));
}

/// Appends the little-endian bytes of `v`.
pub fn push_u32(out: &mut Vec<u8>, v: u32)
    ensures
        final(out)@ == old(out)@ + le32(v),
{
    out.push((v % 256) as u8);
    out.push(((v / 256) % 256) as u8);
    out.push(((v / 65536) % 256) as u8);
    out.push((v / 16777216) as u8);
    assert(final(out)@ =~= old(out)@ + le32(v));
}

/// The record that precedes each entry's data.
#[derive(Clone, Copy, PartialEq, Eq, Structural)]
pub struct LocalFileHeader {
    pub version: u16,
    pub flags: u16,
    pub compression: u16,
    pub mod_time: u16,
    pub mod_date: u16,
    pub crc: u32,
    pub compressed_size: u32,
    pub uncompressed_size: u32,
    pub file_name_length: u16,
    pub extra_field_length: u16,
}

impl LocalFileHeader {
    /// The 26 bytes that follow the signature.
    pub open spec fn encoding(&self) -> Seq<u8> {
        le16(self.version) + le16(self.flags) + le16(self.compression) + le16(self.mod_time)
            + le16(self.mod_date) + le32(self.crc) + le32(self.compressed_size) + le32(
            self.uncompressed_size,
        ) + le16(self.file_name_length) + le16(self.extra_field_length)
    }

    pub fn to_slice(&self) -> (r: Vec<u8>)
        ensures
            r@ == self.encoding(),
            r@.len() == 26,
    {
        let mut out: Vec<u8> = Vec::new();
        push_u16(&mut out, self.version);
        push_u16(&mut out, self.flags);
        push_u16(&mut out, self.compression);
        push_u16(&mut out, self.mod_time);
        push_u16(&mut out, self.mod_date);
        push_u32(&mut out, self.crc);
        push_u32(&mut out, self.compressed_size);
        push_u32(&mut out, self.uncompressed_size);
        push_u16(&mut out, self.file_name_length);
        push_u16(&mut out, self.extra_field_length);
        assert(out@ =~= self.encoding());
        out
    }
}

/// The record that follows a streamed entry's data with its real checksum and sizes.
#[derive(Clone, Copy, PartialEq, Eq, Structural)]
pub struct DataDescriptor {
    pub crc: u32,
    pub compressed_size: u32,
    pub uncompressed_size: u32,
}

impl DataDescriptor {
    /// The 12 bytes that follow the signature.
    pub open spec fn encoding(&self) -> Seq<u8> {
        le32(self.crc) + le32(self.compressed_size) + le32(self.uncompressed_size)
    }

    pub fn to_slice(&self) -> (r: Vec<u8>)
        ensures
            r@ == self.encoding(),
            r@.len() == 12,
    {
        let mut out: Vec<u8> = Vec::new();
        push_u32(&mut out, self.crc);
        push_u32(&mut out, self.compressed_size);
        push_u32(&mut out, self.uncompressed_size);
        assert(out@ =~= self.encoding());
        out
    }
}

/// The central directory's record of one entry.
#[derive(Clone, Copy, PartialEq, Eq, Structural)]
pub struct CentralDirectoryHeader {
    pub v_made_by: u16,
    pub v_needed: u16,
    pub flags: u16,
    pub compression: u16,
    pub mod_time: u16,
    pub mod_date: u16,
    pub crc: u32,
    pub compressed_size: u32,
    pub uncompressed_size: u32,
    pub file_name_length: u16,
    pub extra_field_length: u16,
    pub file_comment_length: u16,
    pub disk_start: u16,
    pub inter_attr: u16,
    pub exter_attr: u32,
    pub lh_offset: u32,
}

impl CentralDirectoryHeader {
    /// The 42 bytes that follow the signature.
    pub open spec fn encoding(&self) -> Seq<u8> {
        le16(self.v_made_by) + le16(self.v_needed) + le16(self.flags) + le16(self.compression)
            + le16(self.mod_time) + le16(self.mod_date) + le32(self.crc) + le32(
            self.compressed_size,
        ) + le32(self.uncompressed_size) + le16(self.file_name_length) + le16(
            self.extra_field_length,
        ) + le16(self.file_comment_length) + le16(self.disk_start) + le16(self.inter_attr)
            + le32(self.exter_attr) + le32(self.lh_offset)
    }

    pub fn to_slice(&self) -> (r: Vec<u8>)
        ensures
            r@ == self.encoding(),
            r@.len() == 42,
    {
        let mut out: Vec<u8> = Vec::new();
        push_u16(&mut out, self.v_made_by);
        push_u16(&mut out, self.v_needed);
        push_u16(&mut out, self.flags);
        push_u16(&mut out, self.compression);
        push_u16(&mut out, self.mod_time);
        push_u16(&mut out, self.mod_date);
        push_u32(&mut out, self.crc);
        push_u32(&mut out, self.compressed_size);
        push_u32(&mut out, self.uncompressed_size);
        push_u16(&mut out, self.file_name_length);
        push_u16(&mut out, self.extra_field_length);
        push_u16(&mut out, self.file_comment_length);
        push_u16(&mut out, self.disk_start);
        push_u16(&mut out, self.inter_attr);
        push_u32(&mut out, self.exter_attr);
        push_u32(&mut out, self.lh_offset);
        assert(out@ =~= self.encoding());
        out
    }
}

/// The final record of an archive, locating the central directory.
#[derive(Clone, Copy, PartialEq, Eq, Structural)]
pub struct EndOfCentralDirectoryHeader {
    pub disk_num: u16,
    pub start_cent_dir_disk: u16,
    pub num_of_entries_disk: u16,
    pub num_of_entries: u16,
    pub size_cent_dir: u32,
    pub cent_dir_offset: u32,
    pub file_comm_length: u16,
}

impl EndOfCentralDirectoryHeader {
    /// The 18 bytes that follow the signature.
    pub open spec fn encoding(&self) -> Seq<u8> {
        le16(self.disk_num) + le16(self.start_cent_dir_disk) + le16(self.num_of_entries_disk)
            + le16(self.num_of_entries) + le32(self.size_cent_dir) + le32(self.cent_dir_offset)
            + le16(self.file_comm_length)
    }

    pub fn to_slice(&self) -> (r: Vec<u8>)
        ensures
            r@ == self.encoding(),
            r@.len() == 18,
    {
        let mut out: Vec<u8> = Vec::new();
        push_u16(&mut out, self.disk_num);
        push_u16(&mut out, self.start_cent_dir_disk);
        push_u16(&mut out, self.num_of_entries_disk);
        push_u16(&mut out, self.num_of_entries);
        push_u32(&mut out, self.size_cent_dir);
        push_u32(&mut out, self.cent_dir_offset);
        push_u16(&mut out, self.file_comm_length);
        assert(out@ =~= self.encoding());
        out
    }
}

} // verus!
