//! Facts about the bytes an archive holds, proved over the writer's model.

use vstd::prelude::*;
use crate::compress::{crc32_update, Compression};
use crate::header::{le16, le32};
use crate::offset_writer::MAX_OFFSET;
use crate::write::{
    cd_block, cd_record, closing_bytes, local_record, stream_local_header, whole_cd_entry,
    whole_entry_bytes, whole_local_header, CentralDirectoryEntry, EntryOptions, DESCRIPTOR_FLAG,
    MAX_FIELD,
};

verus! {

/// The central directory of `es` followed by one more entry is that of `es`
/// followed by the new entry's record.
pub proof fn lemma_cd_block_push(es: Seq<CentralDirectoryEntry>, e: CentralDirectoryEntry)
    ensures
        cd_block(es.push(e)) == cd_block(es) + cd_record(e),
{
    assert(es.push(e).drop_last() =~= es);
}

/// A whole entry carries the CRC-32 of its uncompressed payload, both in its
/// local header and, once the archive is closed, in its central directory record.
pub proof fn lemma_whole_entry_checksum(
    offset: nat,
    es: Seq<CentralDirectoryEntry>,
    o: EntryOptions,
    data: Seq<u8>,
    lh_offset: u32,
)
    ensures
        whole_entry_bytes(o, data).subrange(14, 18) == le32(crc32_update(0, data)),
        ({
            let k = cd_block(es).len() as int;
            closing_bytes(offset, es.push(whole_cd_entry(o, data, lh_offset))).subrange(k + 16, k + 20)
                == le32(crc32_update(0, data))
        }),
{
    let e = whole_cd_entry(o, data, lh_offset);
    lemma_cd_block_push(es, e);
    let k = cd_block(es).len() as int;
    let all = closing_bytes(offset, es.push(e));
    let rec = cd_record(e);
    let enc = e.header.encoding();
    assert(rec.len() >= 46);
    assert(all.subrange(k + 16, k + 20) =~= rec.subrange(16, 20));
    assert(rec.subrange(16, 20) =~= enc.subrange(12, 16));
    lemma_cd_crc_field(e);
    lemma_local_crc_field(o, data);
}

proof fn lemma_cd_crc_field(e: CentralDirectoryEntry)
    ensures
        e.header.encoding().subrange(12, 16) == le32(e.header.crc),
{
    assert(e.header.encoding().subrange(12, 16) =~= le32(e.header.crc));
}

proof fn lemma_local_crc_field(o: EntryOptions, data: Seq<u8>)
    ensures
        whole_entry_bytes(o, data).subrange(14, 18) == le32(crc32_update(0, data)),
{
    let h = whole_local_header(o, data);
    let b = whole_entry_bytes(o, data);
    assert(b.subrange(14, 18) =~= h.encoding().subrange(10, 14));
    assert(h.encoding().subrange(10, 14) =~= le32(h.crc));
}

/// A streamed entry's local header has the descriptor flag set and its
/// checksum, compressed size and uncompressed size all zero.
pub proof fn lemma_stream_header_deferred(o: EntryOptions)
    ensures
        local_record(stream_local_header(o), o).subrange(6, 8) == le16(DESCRIPTOR_FLAG),
        local_record(stream_local_header(o), o).subrange(14, 26) == Seq::<u8>::new(12, |i: int| 0u8),
{
    let r = local_record(stream_local_header(o), o);
    assert(r.subrange(6, 8) =~= le16(DESCRIPTOR_FLAG));
    assert(r.subrange(14, 26) =~= Seq::<u8>::new(12, |i: int| 0u8));
}

/// The end record of a closed archive states the entry count, the exact size of
/// the central directory, and the offset at which closing began.
pub proof fn lemma_end_record_fields(offset: nat, es: Seq<CentralDirectoryEntry>)
    requires
        es.len() <= MAX_FIELD,
        offset <= MAX_OFFSET,
        cd_block(es).len() <= MAX_OFFSET,
    ensures
        ({
            let k = cd_block(es).len() as int;
            let all = closing_bytes(offset, es);
            &&& all.len() == k + 22
            &&& all.subrange(0, k) == cd_block(es)
            &&& all.subrange(k + 8, k + 10) == le16(es.len() as u16)
            &&& all.subrange(k + 10, k + 12) == le16(es.len() as u16)
            &&& all.subrange(k + 12, k + 16) == le32(k as u32)
            &&& all.subrange(k + 16, k + 20) == le32(offset as u32)
            &&& (k as u32) as int == k
            &&& (offset as u32) as nat == offset
            &&& (es.len() as u16) as nat == es.len()
        }),
{
    let k = cd_block(es).len() as int;
    let all = closing_bytes(offset, es);
    assert(all.subrange(0, k) =~= cd_block(es));
    assert(all.subrange(k + 8, k + 10) =~= le16(es.len() as u16));
    assert(all.subrange(k + 10, k + 12) =~= le16(es.len() as u16));
    assert(all.subrange(k + 12, k + 16) =~= le32(k as u32));
    assert(all.subrange(k + 16, k + 20) =~= le32(offset as u32));
}

/// Under the stored method a whole entry's compressed size equals its
/// uncompressed size, and the payload follows the header unchanged.
pub proof fn lemma_stored_whole_entry(o: EntryOptions, data: Seq<u8>)
    requires
        o.compression == Compression::Stored,
    ensures
        whole_local_header(o, data).compressed_size == whole_local_header(o, data).uncompressed_size,
        whole_entry_bytes(o, data).subrange(
            whole_entry_bytes(o, data).len() - data.len(),
            whole_entry_bytes(o, data).len() as int,
        ) == data,
{
    let b = whole_entry_bytes(o, data);
    assert(b.subrange(b.len() - data.len(), b.len() as int) =~= data);
}

} // verus!
