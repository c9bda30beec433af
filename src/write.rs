//! The archive writer: whole entries, streamed entries, and the central directory.

use vstd::prelude::*;
use vstd::utf8::encode_utf8;
use crate::compress::{compress_whole, compressed_of, crc32_extend, crc32_update, Compression, Deflater};
use crate::error::ZipError;
use crate::header::{
    le32, push_u32, CentralDirectoryHeader, DataDescriptor, EndOfCentralDirectoryHeader,
    LocalFileHeader, CDFHD, DDD, EOCDD, LFHD,
};
use crate::offset_writer::{OffsetWriter, MAX_OFFSET, SINK_LIMIT};

verus! {

/// ZIP version 2.0, written both as "made by" and "needed to extract".
pub const VERSION: u16 = 20;

/// General-purpose flag bit: checksum and sizes follow the data in a descriptor.
pub const DESCRIPTOR_FLAG: u16 = 0x0008;

/// The largest length of a file name, extra field or comment, and the largest entry count.
pub const MAX_FIELD: u16 = 0xFFFF;

/// The largest central directory record: 46 fixed bytes and three fields of
/// at most `MAX_FIELD` bytes each.
pub const MAX_CD_RECORD: u64 = 196651;

/// A set of options for opening new ZIP entries.
pub struct EntryOptions {
    pub filename: String,
    pub compression: Compression,
    pub extra: Vec<u8>,
    pub comment: String,
}

impl EntryOptions {
    /// Options with the given name and method, no extra field and no comment.
    pub fn new(filename: String, compression: Compression) -> (r: Self)
        ensures
            r.filename == filename,
            r.compression == compression,
            r.extra@ == Seq::<u8>::empty(),
            r.comment@ == Seq::<char>::empty(),
    {
        EntryOptions { filename, compression, extra: Vec::new(), comment: String::new() }
    }

    /// The same options with the extra field replaced.
    pub fn extra(self, extra: Vec<u8>) -> (r: Self)
        ensures
            r.filename == self.filename,
            r.compression == self.compression,
            r.extra == extra,
            r.comment == self.comment,
    {
        EntryOptions { filename: self.filename, compression: self.compression, extra, comment: self.comment }
    }

    /// The same options with the file comment replaced.
    pub fn comment(self, comment: String) -> (r: Self)
        ensures
            r.filename == self.filename,
            r.compression == self.compression,
            r.extra == self.extra,
            r.comment == comment,
    {
        EntryOptions { filename: self.filename, compression: self.compression, extra: self.extra, comment }
    }
}

/// A finished entry as the central directory will record it.
pub struct CentralDirectoryEntry {
    pub header: CentralDirectoryHeader,
    pub opts: EntryOptions,
}

/// The UTF-8 bytes of the file name.
pub open spec fn name_bytes(o: EntryOptions) -> Seq<u8> {
    encode_utf8(o.filename@)
}

/// The UTF-8 bytes of the file comment.
pub open spec fn comment_bytes(o: EntryOptions) -> Seq<u8> {
    encode_utf8(o.comment@)
}

/// The name, extra field and comment each fit a 16-bit length field.
pub open spec fn options_fit(o: EntryOptions) -> bool {
    &&& name_bytes(o).len() <= MAX_FIELD
    &&& o.extra@.len() <= MAX_FIELD
    &&& comment_bytes(o).len() <= MAX_FIELD
}

/// Some entry in `es` has the file name `name`.
pub open spec fn name_taken(es: Seq<CentralDirectoryEntry>, name: Seq<char>) -> bool {
    exists|i: int| 0 <= i < es.len() && #[trigger] es[i].opts.filename@ == name
}

/// The local file header of an entry.
pub open spec fn local_header_of(o: EntryOptions, flags: u16, crc: u32, csize: u32, usize: u32) -> LocalFileHeader {
    LocalFileHeader {
        version: VERSION,
        flags,
        compression: o.compression.spec_code(),
        mod_time: 0,
        mod_date: 0,
        crc,
        compressed_size: csize,
        uncompressed_size: usize,
        file_name_length: name_bytes(o).len() as u16,
        extra_field_length: o.extra@.len() as u16,
    }
}

/// Signature, local file header, name and extra field: the bytes before an entry's data.
pub open spec fn local_record(h: LocalFileHeader, o: EntryOptions) -> Seq<u8> {
    le32(LFHD) + h.encoding() + name_bytes(o) + o.extra@
}

/// The central directory header of an entry whose local header starts at `offset`.
pub open spec fn cd_header_of(
    o: EntryOptions,
    flags: u16,
    crc: u32,
    csize: u32,
    usize: u32,
    offset: u32,
) -> CentralDirectoryHeader {
    CentralDirectoryHeader {
        v_made_by: VERSION,
        v_needed: VERSION,
        flags,
        compression: o.compression.spec_code(),
        mod_time: 0,
        mod_date: 0,
        crc,
        compressed_size: csize,
        uncompressed_size: usize,
        file_name_length: name_bytes(o).len() as u16,
        extra_field_length: o.extra@.len() as u16,
        file_comment_length: comment_bytes(o).len() as u16,
        disk_start: 0,
        inter_attr: 0,
        exter_attr: 0,
        lh_offset: offset,
    }
}

/// The local header of a whole entry with payload `data`.
pub open spec fn whole_local_header(o: EntryOptions, data: Seq<u8>) -> LocalFileHeader {
    local_header_of(
        o,
        0,
        crc32_update(0, data),
        compressed_of(o.compression, data).len() as u32,
        data.len() as u32,
    )
}

/// All bytes of a whole entry with payload `data`.
pub open spec fn whole_entry_bytes(o: EntryOptions, data: Seq<u8>) -> Seq<u8> {
    local_record(whole_local_header(o, data), o) + compressed_of(o.compression, data)
}

/// The central directory entry of a whole entry written at `offset`.
pub open spec fn whole_cd_entry(o: EntryOptions, data: Seq<u8>, offset: u32) -> CentralDirectoryEntry {
    CentralDirectoryEntry {
        header: cd_header_of(
            o,
            0,
            crc32_update(0, data),
            compressed_of(o.compression, data).len() as u32,
            data.len() as u32,
            offset,
        ),
        opts: o,
    }
}

/// The local header of a streamed entry: descriptor flag set, checksum and sizes zero.
pub open spec fn stream_local_header(o: EntryOptions) -> LocalFileHeader {
    local_header_of(o, DESCRIPTOR_FLAG, 0, 0, 0)
}

/// A whole entry of these lengths can be written at `offset` after `n` entries.
pub open spec fn whole_fits(n: nat, offset: nat, o: EntryOptions, dlen: nat, clen: nat) -> bool {
    &&& options_fit(o)
    &&& n < MAX_FIELD
    &&& dlen <= MAX_OFFSET
    &&& offset + 30 + name_bytes(o).len() + o.extra@.len() + clen <= MAX_OFFSET
}

/// A streamed entry can be opened at `offset` after `n` entries.
pub open spec fn stream_fits(n: nat, offset: nat, o: EntryOptions) -> bool {
    &&& options_fit(o)
    &&& n < MAX_FIELD
    &&& offset + 30 + name_bytes(o).len() + o.extra@.len() <= MAX_OFFSET
}

/// The central directory record of an entry.
pub open spec fn cd_record(e: CentralDirectoryEntry) -> Seq<u8> {
    le32(CDFHD) + e.header.encoding() + name_bytes(e.opts) + e.opts.extra@ + comment_bytes(e.opts)
}

/// The central directory: the records of `es`, in order.
pub open spec fn cd_block(es: Seq<CentralDirectoryEntry>) -> Seq<u8>
    decreases es.len(),
{
    if es.len() == 0 {
        Seq::empty()
    } else {
        cd_block(es.drop_last()) + cd_record(es.last())
    }
}

/// The end-of-central-directory record of a single-disk archive.
pub open spec fn eocd_of(n: nat, size: nat, offset: nat) -> EndOfCentralDirectoryHeader {
    EndOfCentralDirectoryHeader {
        disk_num: 0,
        start_cent_dir_disk: 0,
        num_of_entries_disk: n as u16,
        num_of_entries: n as u16,
        size_cent_dir: size as u32,
        cent_dir_offset: offset as u32,
        file_comm_length: 0,
    }
}

/// What closing writes after `offset` bytes: the central directory and its end record.
pub open spec fn closing_bytes(offset: nat, es: Seq<CentralDirectoryEntry>) -> Seq<u8> {
    cd_block(es) + le32(EOCDD) + eocd_of(es.len(), cd_block(es).len(), offset).encoding()
}

/// The chunks joined in order.
pub open spec fn concat(chunks: Seq<Seq<u8>>) -> Seq<u8>
    decreases chunks.len(),
{
    if chunks.len() == 0 {
        Seq::empty()
    } else {
        concat(chunks.drop_last()) + chunks.last()
    }
}

/// The total length of the chunks.
pub open spec fn total_len(chunks: Seq<Seq<u8>>) -> nat
    decreases chunks.len(),
{
    if chunks.len() == 0 {
        0
    } else {
        total_len(chunks.drop_last()) + chunks.last().len()
    }
}

/// The data of a streamed entry, which its descriptor's uncompressed size
/// counts, is as long as all chunks appended to it together.
pub proof fn lemma_concat_len(chunks: Seq<Seq<u8>>)
    ensures
        concat(chunks).len() == total_len(chunks),
    decreases chunks.len(),
{
    if chunks.len() > 0 {
        lemma_concat_len(chunks.drop_last());
    }
}

/// Appending a chunk to a streamed entry adds exactly its bytes to the data
/// that the descriptor's uncompressed size counts.
pub proof fn lemma_concat_push(chunks: Seq<Seq<u8>>, d: Seq<u8>)
    ensures
        concat(chunks.push(d)) == concat(chunks) + d,
        concat(chunks.push(d)).len() == concat(chunks).len() + d.len(),
{
    assert(chunks.push(d).drop_last() =~= chunks);
}

proof fn lemma_cd_block_step(es: Seq<CentralDirectoryEntry>, i: int)
    requires
        0 <= i < es.len(),
    ensures
        cd_block(es.take(i + 1)) == cd_block(es.take(i)) + cd_record(es[i]),
        cd_record(es[i]).len() == 46 + name_bytes(es[i].opts).len() + es[i].opts.extra@.len()
            + comment_bytes(es[i].opts).len(),
{
    assert(es.take(i + 1).drop_last() =~= es.take(i));
}

proof fn lemma_cd_block_prefix(es: Seq<CentralDirectoryEntry>, i: int)
    requires
        0 <= i <= es.len(),
    ensures
        cd_block(es.take(i)).len() <= cd_block(es).len(),
    decreases es.len(),
{
    if i == es.len() {
        assert(es.take(i) =~= es);
    } else {
        assert(es.drop_last().take(i) =~= es.take(i));
        lemma_cd_block_prefix(es.drop_last(), i);
    }
}

/// Compressor of a streamed entry.
enum StreamCompressor {
    Stored,
    Deflate(Deflater),
    /// The input so far, for a method compressed only once it is complete.
    Buffered(Vec<u8>),
}

/// The entry being streamed.
struct OpenStream {
    opts: EntryOptions,
    lh_offset: u32,
    data_start: u32,
    crc: u32,
    size: u32,
    compressor: StreamCompressor,
    chunks: Ghost<Seq<Seq<u8>>>,
}

impl OpenStream {
    spec fn wf(&self, written: Seq<u8>) -> bool {
        &&& options_fit(self.opts)
        &&& self.lh_offset + 30 + name_bytes(self.opts).len() + self.opts.extra@.len() == self.data_start
        &&& self.data_start <= written.len()
        &&& self.size == concat(self.chunks@).len()
        &&& self.crc == crc32_update(0, concat(self.chunks@))
        &&& (self.opts.compression is Stored <==> self.compressor is Stored)
        &&& (self.opts.compression is Deflate <==> self.compressor is Deflate)
        &&& (self.compressor matches StreamCompressor::Buffered(raw) ==> raw@ == concat(self.chunks@))
        &&& (self.opts.compression is Stored ==> written.subrange(self.data_start as int, written.len() as int) == concat(self.chunks@))
    }
}

/// A ZIP archive writer for a sink that never seeks. The bytes it produces are
/// queued and handed out by `take_output` and `close`.
pub struct ZipFileWriter {
    writer: OffsetWriter,
    cd_entries: Vec<CentralDirectoryEntry>,
    stream: Option<OpenStream>,
}

impl ZipFileWriter {
    /// Every byte of the archive written so far.
    pub closed spec fn written(&self) -> Seq<u8> {
        self.writer.written()
    }

    /// How many written bytes `take_output` has handed out.
    pub closed spec fn handed_out(&self) -> nat {
        self.writer.handed_out()
    }

    /// The written bytes not yet handed out.
    pub open spec fn pending(&self) -> Seq<u8> {
        self.written().subrange(self.handed_out() as int, self.written().len() as int)
    }

    /// The finished entries, in write order.
    pub closed spec fn entries(&self) -> Seq<CentralDirectoryEntry> {
        self.cd_entries@
    }

    /// A streamed entry is open.
    pub closed spec fn stream_open(&self) -> bool {
        self.stream is Some
    }

    /// The options of the open streamed entry.
    pub closed spec fn stream_opts(&self) -> EntryOptions {
        self.stream->0.opts
    }

    /// Where the open streamed entry's local header starts.
    pub closed spec fn stream_offset(&self) -> nat {
        self.stream->0.lh_offset as nat
    }

    /// Where the open streamed entry's data starts.
    pub closed spec fn stream_data_start(&self) -> nat {
        self.stream->0.data_start as nat
    }

    /// The chunks appended to the open streamed entry so far.
    pub closed spec fn stream_chunks(&self) -> Seq<Seq<u8>> {
        self.stream->0.chunks@
    }

    pub closed spec fn wf(&self) -> bool {
        &&& self.writer.wf()
        &&& self.writer.written().len() <= MAX_OFFSET
        &&& self.cd_entries@.len() <= MAX_FIELD
        &&& forall|i: int| 0 <= i < self.cd_entries@.len() ==> options_fit(#[trigger] self.cd_entries@[i].opts)
        &&& match self.stream {
            None => true,
            Some(st) => st.wf(self.writer.written()) && self.cd_entries@.len() < MAX_FIELD,
        }
    }

    /// An empty archive.
    pub fn new() -> (r: ZipFileWriter)
        ensures
            r.wf(),
            r.written() == Seq::<u8>::empty(),
            r.pending() == Seq::<u8>::empty(),
            r.entries() == Seq::<CentralDirectoryEntry>::empty(),
            !r.stream_open(),
            r.handed_out() == 0,
    {
        ZipFileWriter { writer: OffsetWriter::new(), cd_entries: Vec::new(), stream: None }
    }

    /// The number of bytes written so far.
    pub fn offset(&self) -> (r: u32)
        requires
            self.wf(),
        ensures
            r == self.written().len(),
    {
        self.writer.offset() as u32
    }

    /// Hands out the bytes written since the last call.
    pub fn take_output(&mut self) -> (r: Vec<u8>)
        requires
            old(self).wf(),
        ensures
            final(self).wf(),
            r@ == old(self).pending(),
            final(self).pending() == Seq::<u8>::empty(),
            final(self).written() == old(self).written(),
            final(self).entries() == old(self).entries(),
            final(self).stream_open() == old(self).stream_open(),
            final(self).handed_out() == old(self).written().len(),
    {
        proof {
            self.writer.lemma_pending();
        }
        let r = self.writer.take();
        proof {
            self.writer.lemma_pending();
            assert(self.pending() =~= Seq::<u8>::empty());
        }
        r
    }

    /// Writes a whole entry of the given payload and records it. The payload is
    /// compressed in full before any byte is written.
    pub fn write_entry_whole(&mut self, options: EntryOptions, data: &[u8]) -> (r: Result<(), ZipError>)
        requires
            old(self).wf(),
        ensures
            final(self).wf(),
            final(self).handed_out() == old(self).handed_out(),
            r == Err::<(), ZipError>(ZipError::EntryOpen) <==> old(self).stream_open(),
            !old(self).stream_open() && name_taken(old(self).entries(), options.filename@) ==> r
                == Err::<(), ZipError>(ZipError::DuplicateName),
            !old(self).stream_open() && !name_taken(old(self).entries(), options.filename@) && !(
            options_fit(options) && old(self).entries().len() < MAX_FIELD && data@.len()
                <= MAX_OFFSET) ==> r == Err::<(), ZipError>(ZipError::FieldTooLarge),
            !old(self).stream_open() && !name_taken(old(self).entries(), options.filename@)
                && !whole_fits(
                old(self).entries().len(),
                old(self).written().len(),
                options,
                data@.len(),
                compressed_of(options.compression, data@).len(),
            ) ==> r == Err::<(), ZipError>(ZipError::FieldTooLarge) || r == Err::<(), ZipError>(
                ZipError::CompressionFailed,
            ),
            r == Err::<(), ZipError>(ZipError::CompressionFailed) ==> !(options.compression is Stored
                || options.compression is Zstd),
            r is Err ==> *final(self) == *old(self),
            r is Ok ==> {
                &&& whole_fits(
                    old(self).entries().len(),
                    old(self).written().len(),
                    options,
                    data@.len(),
                    compressed_of(options.compression, data@).len(),
                )
                &&& final(self).written() == old(self).written() + whole_entry_bytes(options, data@)
                &&& final(self).entries() == old(self).entries().push(
                    whole_cd_entry(options, data@, old(self).written().len() as u32),
                )
                &&& !final(self).stream_open()
            },
            !old(self).stream_open() && !name_taken(old(self).entries(), options.filename@)
                && whole_fits(
                old(self).entries().len(),
                old(self).written().len(),
                options,
                data@.len(),
                compressed_of(options.compression, data@).len(),
            ) ==> r is Ok || r == Err::<(), ZipError>(ZipError::CompressionFailed),
    {
        if self.stream.is_some() {
            return Err(ZipError::EntryOpen);
        }
        if self.has_entry_named(&options.filename) {
            return Err(ZipError::DuplicateName);
        }
        if !self.can_record(&options) || data.len() > MAX_OFFSET as usize {
            return Err(ZipError::FieldTooLarge);
        }
        let crc = crc32_extend(0, data);
        match options.compression {
            Compression::Stored => self.write_whole_payload(options, data, crc, data.len() as u32),
            _ => {
                match compress_whole(options.compression, data) {
                    Ok(compressed) => self.write_whole_payload(
                        options,
                        compressed.as_slice(),
                        crc,
                        data.len() as u32,
                    ),
                    Err(e) => Err(e),
                }
            },
        }
    }

    /// Opens a streamed entry: writes its local header with the descriptor flag
    /// set and zero checksum and sizes, then its name and extra field.
    pub fn write_entry_stream(&mut self, opts: EntryOptions) -> (r: Result<(), ZipError>)
        requires
            old(self).wf(),
        ensures
            final(self).wf(),
            final(self).handed_out() == old(self).handed_out(),
            r == Err::<(), ZipError>(ZipError::EntryOpen) <==> old(self).stream_open(),
            !old(self).stream_open() && name_taken(old(self).entries(), opts.filename@) ==> r
                == Err::<(), ZipError>(ZipError::DuplicateName),
            !old(self).stream_open() && !name_taken(old(self).entries(), opts.filename@)
                && !stream_fits(old(self).entries().len(), old(self).written().len(), opts) ==> r
                == Err::<(), ZipError>(ZipError::FieldTooLarge),
            r is Err ==> *final(self) == *old(self),
            r is Ok <==> !old(self).stream_open() && !name_taken(old(self).entries(), opts.filename@)
                && stream_fits(old(self).entries().len(), old(self).written().len(), opts),
            r is Ok ==> {
                &&& final(self).written() == old(self).written() + local_record(
                    stream_local_header(opts),
                    opts,
                )
                &&& final(self).entries() == old(self).entries()
                &&& final(self).stream_open()
                &&& final(self).stream_opts() == opts
                &&& final(self).stream_offset() == old(self).written().len()
                &&& final(self).stream_data_start() == final(self).written().len()
                &&& final(self).stream_chunks() == Seq::<Seq<u8>>::empty()
            },
    {
        if self.stream.is_some() {
            return Err(ZipError::EntryOpen);
        }
        if self.has_entry_named(&opts.filename) {
            return Err(ZipError::DuplicateName);
        }
        if !self.can_record(&opts) {
            return Err(ZipError::FieldTooLarge);
        }
        let offset = self.writer.offset() as u32;
        let name_len = opts.filename.as_str().as_bytes().len();
        if offset as u64 + 30 + name_len as u64 + opts.extra.len() as u64 > MAX_OFFSET as u64 {
            return Err(ZipError::FieldTooLarge);
        }
        let header = LocalFileHeader {
            version: VERSION,
            flags: DESCRIPTOR_FLAG,
            compression: opts.compression.code(),
            mod_time: 0,
            mod_date: 0,
            crc: 0,
            compressed_size: 0,
            uncompressed_size: 0,
            file_name_length: name_len as u16,
            extra_field_length: opts.extra.len() as u16,
        };
        write_local_record(&mut self.writer, &header, &opts);
        let compressor = match opts.compression {
            Compression::Stored => StreamCompressor::Stored,
            Compression::Deflate => StreamCompressor::Deflate(Deflater::new()),
            _ => StreamCompressor::Buffered(Vec::new()),
        };
        let nothing: Vec<u8> = Vec::new();
        let crc = crc32_extend(0, nothing.as_slice());
        let data_start = self.writer.offset() as u32;
        self.stream = Some(
            OpenStream {
                opts,
                lh_offset: offset,
                data_start,
                crc,
                size: 0,
                compressor,
                chunks: Ghost(Seq::empty()),
            },
        );
        proof {
            let w = self.writer.written();
            assert(w.subrange(data_start as int, w.len() as int) =~= concat(Seq::<Seq<u8>>::empty()));
        }
        Ok(())
    }

    /// Feeds more bytes to the open streamed entry. Under Stored and Deflate
    /// what the compressor emits is written at once; the other methods have no
    /// incremental encoder, so their input is kept until the entry is finished.
    pub fn append_stream_data(&mut self, data: &[u8]) -> (r: Result<(), ZipError>)
        requires
            old(self).wf(),
        ensures
            final(self).wf(),
            final(self).handed_out() == old(self).handed_out(),
            r == Err::<(), ZipError>(ZipError::NoEntryOpen) <==> !old(self).stream_open(),
            old(self).stream_open() && concat(old(self).stream_chunks()).len() + data@.len()
                > MAX_OFFSET ==> r == Err::<(), ZipError>(ZipError::FieldTooLarge),
            old(self).stream_open() && !(old(self).stream_opts().compression is Deflate) && concat(
                old(self).stream_chunks(),
            ).len() + data@.len() <= MAX_OFFSET && (old(self).stream_opts().compression is Stored
                ==> old(self).written().len() + data@.len() <= MAX_OFFSET) ==> r is Ok,
            r is Ok ==> {
                &&& final(self).stream_open()
                &&& final(self).stream_opts() == old(self).stream_opts()
                &&& final(self).stream_offset() == old(self).stream_offset()
                &&& final(self).stream_data_start() == old(self).stream_data_start()
                &&& final(self).stream_chunks() == old(self).stream_chunks().push(data@)
                &&& final(self).entries() == old(self).entries()
                &&& old(self).written().len() <= final(self).written().len()
                &&& final(self).written().subrange(0, old(self).written().len() as int)
                    == old(self).written()
                &&& old(self).stream_opts().compression is Stored ==> final(self).written()
                    == old(self).written() + data@
                &&& !(old(self).stream_opts().compression is Stored) && !(old(
                    self,
                ).stream_opts().compression is Deflate) ==> final(self).written() == old(
                    self,
                ).written()
            },
            r is Err ==> final(self).written() == old(self).written() && final(self).entries()
                == old(self).entries(),
            r is Err && final(self).stream_open() ==> *final(self) == *old(self),
            r == Err::<(), ZipError>(ZipError::CompressionFailed) ==> old(self).stream_opts().compression is Deflate
                && !final(self).stream_open(),
            r is Err && !final(self).stream_open() && old(self).stream_open() ==> old(
                self,
            ).stream_opts().compression is Deflate,
            r is Err ==> r == Err::<(), ZipError>(ZipError::NoEntryOpen) || r == Err::<(), ZipError>(
                ZipError::FieldTooLarge,
            ) || r == Err::<(), ZipError>(ZipError::CompressionFailed),
    {
        let taken = self.stream.take();
        match taken {
            None => Err(ZipError::NoEntryOpen),
            Some(st) => {
                let OpenStream { opts, lh_offset, data_start, crc, size, compressor, chunks } = st;
                proof {
                    lemma_concat_push(chunks@, data@);
                }
                if data.len() > MAX_OFFSET as usize || size as u64 + data.len() as u64
                    > MAX_OFFSET as u64 {
                    self.stream = Some(
                        OpenStream { opts, lh_offset, data_start, crc, size, compressor, chunks },
                    );
                    return Err(ZipError::FieldTooLarge);
                }
                let offset = self.writer.offset();
                let compressor = match compressor {
                    StreamCompressor::Stored => {
                        if offset as u64 + data.len() as u64 > MAX_OFFSET as u64 {
                            self.stream = Some(
                                OpenStream {
                                    opts,
                                    lh_offset,
                                    data_start,
                                    crc,
                                    size,
                                    compressor: StreamCompressor::Stored,
                                    chunks,
                                },
                            );
                            return Err(ZipError::FieldTooLarge);
                        }
                        self.writer.write(data);
                        proof {
                            let w = self.writer.written();
                            let w0 = old(self).writer.written();
                            assert(w.subrange(data_start as int, w.len() as int) =~= w0.subrange(
                                data_start as int,
                                w0.len() as int,
                            ) + data@);
                        }
                        StreamCompressor::Stored
                    },
                    StreamCompressor::Deflate(mut deflater) => {
                        match deflater.feed(data) {
                            Err(_) => {
                                return Err(ZipError::CompressionFailed);
                            },
                            Ok(out) => {
                                if out.len() > MAX_OFFSET as usize || offset as u64 + out.len() as u64
                                    > MAX_OFFSET as u64 {
                                    return Err(ZipError::FieldTooLarge);
                                }
                                self.writer.write(out.as_slice());
                                StreamCompressor::Deflate(deflater)
                            },
                        }
                    },
                    StreamCompressor::Buffered(mut raw) => {
                        let ghost before = raw@;
                        raw.extend_from_slice(data);
                        assert(raw@ =~= before + data@);
                        StreamCompressor::Buffered(raw)
                    },
                };
                let crc = crc32_extend(crc, data);
                self.stream = Some(
                    OpenStream {
                        opts,
                        lh_offset,
                        data_start,
                        crc,
                        size: size + data.len() as u32,
                        compressor,
                        chunks: Ghost(chunks@.push(data@)),
                    },
                );
                assert(self.writer.written().subrange(0, old(self).writer.written().len() as int)
                    =~= old(self).writer.written());
                Ok(())
            },
        }
    }

    /// Finishes the open streamed entry: flushes the compressor, writes the data
    /// descriptor with the real checksum and sizes, and records the entry.
    pub fn finish_stream_entry(&mut self) -> (r: Result<(), ZipError>)
        requires
            old(self).wf(),
        ensures
            final(self).wf(),
            final(self).handed_out() == old(self).handed_out(),
            r == Err::<(), ZipError>(ZipError::NoEntryOpen) <==> !old(self).stream_open(),
            old(self).stream_open() && old(self).stream_opts().compression is Stored
                && old(self).written().len() + 16 <= MAX_OFFSET ==> r is Ok,
            old(self).stream_open() && !(old(self).stream_opts().compression is Stored) && !(old(
                self,
            ).stream_opts().compression is Deflate) && old(self).written().len() + compressed_of(
                old(self).stream_opts().compression,
                concat(old(self).stream_chunks()),
            ).len() + 16 <= MAX_OFFSET ==> r is Ok || r == Err::<(), ZipError>(
                ZipError::CompressionFailed,
            ),
            r is Ok ==> {
                let n = final(self).written().len();
                let d = DataDescriptor {
                    crc: crc32_update(0, concat(old(self).stream_chunks())),
                    compressed_size: (n - 16 - old(self).stream_data_start()) as u32,
                    uncompressed_size: concat(old(self).stream_chunks()).len() as u32,
                };
                &&& old(self).written().len() + 16 <= n
                &&& old(self).stream_data_start() + 16 <= n
                &&& final(self).written().subrange(0, old(self).written().len() as int)
                    == old(self).written()
                &&& final(self).written().subrange(n - 16, n as int) == le32(DDD) + d.encoding()
                &&& old(self).stream_opts().compression is Stored ==> n == old(self).written().len() + 16
                    && final(self).written().subrange(old(self).stream_data_start() as int, n - 16)
                    == concat(old(self).stream_chunks())
                &&& !(old(self).stream_opts().compression is Stored) && !(old(
                    self,
                ).stream_opts().compression is Deflate) ==> final(self).written() == old(
                    self,
                ).written() + compressed_of(
                    old(self).stream_opts().compression,
                    concat(old(self).stream_chunks()),
                ) + le32(DDD) + d.encoding()
                &&& final(self).entries() == old(self).entries().push(
                    CentralDirectoryEntry {
                        header: cd_header_of(
                            old(self).stream_opts(),
                            DESCRIPTOR_FLAG,
                            d.crc,
                            d.compressed_size,
                            d.uncompressed_size,
                            old(self).stream_offset() as u32,
                        ),
                        opts: old(self).stream_opts(),
                    },
                )
                &&& !final(self).stream_open()
            },
            r is Err ==> final(self).written() == old(self).written() && final(self).entries()
                == old(self).entries(),
            r is Err && final(self).stream_open() ==> *final(self) == *old(self),
            r == Err::<(), ZipError>(ZipError::CompressionFailed) ==> !(old(self).stream_opts().compression is Stored)
                && !(old(self).stream_opts().compression is Zstd) && !final(self).stream_open(),
            r is Err && !final(self).stream_open() && old(self).stream_open() ==> !(old(
                self,
            ).stream_opts().compression is Stored),
            r is Err ==> r == Err::<(), ZipError>(ZipError::NoEntryOpen) || r == Err::<(), ZipError>(
                ZipError::FieldTooLarge,
            ) || r == Err::<(), ZipError>(ZipError::CompressionFailed),
    {
        let taken = self.stream.take();
        match taken {
            None => Err(ZipError::NoEntryOpen),
            Some(st) => {
                let OpenStream { opts, lh_offset, data_start, crc, size, compressor, chunks } = st;
                let offset = self.writer.offset();
                let tail = match compressor {
                    StreamCompressor::Stored => {
                        if offset as u64 + 16 > MAX_OFFSET as u64 {
                            self.stream = Some(
                                OpenStream {
                                    opts,
                                    lh_offset,
                                    data_start,
                                    crc,
                                    size,
                                    compressor: StreamCompressor::Stored,
                                    chunks,
                                },
                            );
                            return Err(ZipError::FieldTooLarge);
                        }
                        Ok(Vec::new())
                    },
                    StreamCompressor::Deflate(deflater) => deflater.finish(),
                    StreamCompressor::Buffered(raw) => {
                        match compress_whole(opts.compression, raw.as_slice()) {
                            Ok(v) => Ok(v),
                            Err(_) => {
                                return Err(ZipError::CompressionFailed);
                            },
                        }
                    },
                };
                let tail = match tail {
                    Ok(v) => v,
                    Err(_) => {
                        return Err(ZipError::CompressionFailed);
                    },
                };
                if tail.len() > MAX_OFFSET as usize || offset as u64 + tail.len() as u64 + 16
                    > MAX_OFFSET as u64 {
                    return Err(ZipError::FieldTooLarge);
                }
                self.writer.write(tail.as_slice());
                let end = self.writer.offset() as u32;
                let ghost body_end = self.writer.written();
                let descriptor = DataDescriptor {
                    crc,
                    compressed_size: end - data_start,
                    uncompressed_size: size,
                };
                write_signature(&mut self.writer, DDD);
                let encoded = descriptor.to_slice();
                self.writer.write(encoded.as_slice());
                let cd = self.cd_header(&opts, DESCRIPTOR_FLAG, crc, end - data_start, size, lh_offset);
                self.cd_entries.push(CentralDirectoryEntry { header: cd, opts });
                proof {
                    let w = self.writer.written();
                    assert(w.subrange(0, old(self).writer.written().len() as int) =~= old(self).writer.written());
                    assert(w.subrange(w.len() - 16, w.len() as int) =~= le32(DDD) + descriptor.encoding());
                    assert(w.subrange(data_start as int, w.len() - 16) =~= body_end.subrange(data_start as int, body_end.len() as int));
                    assert(w =~= old(self).writer.written() + tail@ + le32(DDD) + descriptor.encoding());
                    assert forall|i: int| 0 <= i < self.cd_entries@.len() implies options_fit(
                        #[trigger] self.cd_entries@[i].opts,
                    ) by {
                        if i < old(self).cd_entries@.len() {
                            assert(self.cd_entries@[i] == old(self).cd_entries@[i]);
                        }
                    }
                }
                Ok(())
            },
        }
    }

    /// Closes the archive: writes a central directory record for every entry,
    /// in write order, then the end-of-central-directory record. Returns the
    /// bytes not yet handed out, which end the archive.
    pub fn close(self) -> (r: Result<Vec<u8>, ZipError>)
        requires
            self.wf(),
        ensures
            self.stream_open() ==> r == Err::<Vec<u8>, ZipError>(ZipError::EntryOpen),
            r is Ok <==> !self.stream_open() && cd_block(self.entries()).len() <= MAX_OFFSET,
            !self.stream_open() && r is Err ==> r == Err::<Vec<u8>, ZipError>(ZipError::FieldTooLarge),
            r matches Ok(out) ==> out@ == self.pending() + closing_bytes(
                self.written().len(),
                self.entries(),
            ),
    {
        if self.stream.is_some() {
            return Err(ZipError::EntryOpen);
        }
        let ZipFileWriter { writer, cd_entries, stream: _ } = self;
        let mut writer = writer;
        let ghost es = cd_entries@;
        let ghost w0 = writer.written();
        let ghost p0 = writer.pending();
        proof {
            writer.lemma_pending();
        }
        let cd_offset = writer.offset() as u32;
        let cd_size = central_directory_size(&cd_entries);
        if cd_size > MAX_OFFSET as u64 {
            return Err(ZipError::FieldTooLarge);
        }
        let mut i: usize = 0;
        while i < cd_entries.len()
            invariant
                es == cd_entries@,
                forall|j: int| 0 <= j < es.len() ==> options_fit(#[trigger] es[j].opts),
                i <= es.len(),
                writer.wf(),
                writer.written() == w0 + cd_block(es.take(i as int)),
                writer.pending() == p0 + cd_block(es.take(i as int)),
                cd_size == cd_block(es).len(),
                w0.len() <= MAX_OFFSET,
                cd_size <= MAX_OFFSET,
            decreases es.len() - i,
        {
            proof {
                lemma_cd_block_step(es, i as int);
                lemma_cd_block_prefix(es, i as int + 1);
            }
            write_cd_record(&mut writer, &cd_entries[i]);
            i = i + 1;
        }
        assert(es.take(es.len() as int) =~= es);
        write_end_record(&mut writer, cd_entries.len(), cd_size, cd_offset);
        assert(writer.pending() =~= p0 + closing_bytes(w0.len(), es));
        Ok(writer.take())
    }

    /// Whether an entry of these options can still be recorded: its name, extra
    /// field and comment fit their length fields and the entry count has room.
    fn can_record(&self, o: &EntryOptions) -> (r: bool)
        ensures
            r == (options_fit(*o) && self.cd_entries@.len() < MAX_FIELD),
    {
        o.filename.as_str().as_bytes().len() <= MAX_FIELD as usize
            && o.extra.len() <= MAX_FIELD as usize
            && o.comment.as_str().as_bytes().len() <= MAX_FIELD as usize
            && self.cd_entries.len() < MAX_FIELD as usize
    }

    /// Writes a whole entry whose payload is already compressed, and records it.
    fn write_whole_payload(&mut self, options: EntryOptions, payload: &[u8], crc: u32, usize: u32) -> (r: Result<(), ZipError>)
        requires
            old(self).wf(),
            !old(self).stream_open(),
            options_fit(options),
            old(self).entries().len() < MAX_FIELD,
        ensures
            final(self).wf(),
            final(self).handed_out() == old(self).handed_out(),
            r is Ok <==> old(self).written().len() + 30 + name_bytes(options).len() + options.extra@.len()
                + payload@.len() <= MAX_OFFSET,
            r is Err ==> r == Err::<(), ZipError>(ZipError::FieldTooLarge) && *final(self) == *old(self),
            r is Ok ==> {
                &&& final(self).written() == old(self).written() + local_record(
                    local_header_of(options, 0, crc, payload@.len() as u32, usize),
                    options,
                ) + payload@
                &&& final(self).entries() == old(self).entries().push(
                    CentralDirectoryEntry {
                        header: cd_header_of(
                            options,
                            0,
                            crc,
                            payload@.len() as u32,
                            usize,
                            old(self).written().len() as u32,
                        ),
                        opts: options,
                    },
                )
                &&& !final(self).stream_open()
            },
    {
        let offset = self.writer.offset() as u32;
        let name_len = options.filename.as_str().as_bytes().len();
        if payload.len() > MAX_OFFSET as usize || offset as u64 + 30 + name_len as u64
            + options.extra.len() as u64 + payload.len() as u64 > MAX_OFFSET as u64 {
            return Err(ZipError::FieldTooLarge);
        }
        let csize = payload.len() as u32;
        let header = LocalFileHeader {
            version: VERSION,
            flags: 0,
            compression: options.compression.code(),
            mod_time: 0,
            mod_date: 0,
            crc,
            compressed_size: csize,
            uncompressed_size: usize,
            file_name_length: name_len as u16,
            extra_field_length: options.extra.len() as u16,
        };
        write_local_record(&mut self.writer, &header, &options);
        self.writer.write(payload);
        let cd = self.cd_header(&options, 0, crc, csize, usize, offset);
        self.cd_entries.push(CentralDirectoryEntry { header: cd, opts: options });
        proof {
            assert forall|i: int| 0 <= i < self.cd_entries@.len() implies options_fit(
                #[trigger] self.cd_entries@[i].opts,
            ) by {
                if i < old(self).cd_entries@.len() {
                    assert(self.cd_entries@[i] == old(self).cd_entries@[i]);
                }
            }
        }
        Ok(())
    }

    /// The central directory header of an entry of these options.
    fn cd_header(&self, o: &EntryOptions, flags: u16, crc: u32, csize: u32, usize: u32, offset: u32) -> (r: CentralDirectoryHeader)
        requires
            options_fit(*o),
        ensures
            r == cd_header_of(*o, flags, crc, csize, usize, offset),
    {
        CentralDirectoryHeader {
            v_made_by: VERSION,
            v_needed: VERSION,
            flags,
            compression: o.compression.code(),
            mod_time: 0,
            mod_date: 0,
            crc,
            compressed_size: csize,
            uncompressed_size: usize,
            file_name_length: o.filename.as_str().as_bytes().len() as u16,
            extra_field_length: o.extra.len() as u16,
            file_comment_length: o.comment.as_str().as_bytes().len() as u16,
            disk_start: 0,
            inter_attr: 0,
            exter_attr: 0,
            lh_offset: offset,
        }
    }

    /// Whether a finished entry has the file name `name`.
    fn has_entry_named(&self, name: &String) -> (r: bool)
        ensures
            r == name_taken(self.cd_entries@, name@),
    {
        let mut i: usize = 0;
        while i < self.cd_entries.len()
            invariant
                i <= self.cd_entries@.len(),
                forall|j: int| 0 <= j < i ==> #[trigger] self.cd_entries@[j].opts.filename@ != name@,
            decreases self.cd_entries@.len() - i,
        {
            if self.cd_entries[i].opts.filename == *name {
                return true;
            }
            i = i + 1;
        }
        false
    }
}

/// Writes the signature, header, file name and extra field that open an entry.
fn write_local_record(writer: &mut OffsetWriter, h: &LocalFileHeader, o: &EntryOptions)
    requires
        old(writer).wf(),
        old(writer).written().len() + 30 + name_bytes(*o).len() + o.extra@.len() <= SINK_LIMIT,
    ensures
        final(writer).wf(),
        final(writer).handed_out() == old(writer).handed_out(),
        final(writer).written() == old(writer).written() + local_record(*h, *o),
{
    write_signature(writer, LFHD);
    let encoded = h.to_slice();
    writer.write(encoded.as_slice());
    writer.write(o.filename.as_str().as_bytes());
    writer.write(o.extra.as_slice());
    assert(final(writer).written() =~= old(writer).written() + local_record(*h, *o));
}

/// The byte size of the central directory of `es`.
fn central_directory_size(es: &Vec<CentralDirectoryEntry>) -> (r: u64)
    requires
        es@.len() <= MAX_FIELD,
        forall|j: int| 0 <= j < es@.len() ==> options_fit(#[trigger] es@[j].opts),
    ensures
        r == cd_block(es@).len(),
        r <= MAX_FIELD as u64 * MAX_CD_RECORD,
{
    let mut cd_size: u64 = 0;
    let mut i: usize = 0;
    while i < es.len()
        invariant
            es@.len() <= MAX_FIELD,
            forall|j: int| 0 <= j < es@.len() ==> options_fit(#[trigger] es@[j].opts),
            i <= es@.len(),
            cd_size == cd_block(es@.take(i as int)).len(),
            cd_size <= i as u64 * MAX_CD_RECORD,
        decreases es@.len() - i,
    {
        let e = &es[i];
        proof {
            lemma_cd_block_step(es@, i as int);
        }
        cd_size = cd_size + 46 + e.opts.filename.as_str().as_bytes().len() as u64
            + e.opts.extra.len() as u64 + e.opts.comment.as_str().as_bytes().len() as u64;
        i = i + 1;
    }
    assert(es@.take(es@.len() as int) =~= es@);
    cd_size
}

/// Writes the end-of-central-directory record.
fn write_end_record(writer: &mut OffsetWriter, n: usize, size: u64, offset: u32)
    requires
        old(writer).wf(),
        n <= MAX_FIELD,
        size <= MAX_OFFSET,
        old(writer).written().len() + 22 <= SINK_LIMIT,
    ensures
        final(writer).wf(),
        final(writer).handed_out() == old(writer).handed_out(),
        final(writer).written() == old(writer).written() + le32(EOCDD) + eocd_of(n as nat, size as nat, offset as nat).encoding(),
        final(writer).pending() == old(writer).pending() + le32(EOCDD) + eocd_of(n as nat, size as nat, offset as nat).encoding(),
{
    let eocd = EndOfCentralDirectoryHeader {
        disk_num: 0,
        start_cent_dir_disk: 0,
        num_of_entries_disk: n as u16,
        num_of_entries: n as u16,
        size_cent_dir: size as u32,
        cent_dir_offset: offset,
        file_comm_length: 0,
    };
    write_signature(writer, EOCDD);
    let encoded = eocd.to_slice();
    writer.write(encoded.as_slice());
    assert(eocd == eocd_of(n as nat, size as nat, offset as nat));
}

/// Writes the central directory record of an entry.
fn write_cd_record(writer: &mut OffsetWriter, e: &CentralDirectoryEntry)
    requires
        old(writer).wf(),
        old(writer).written().len() + cd_record(*e).len() <= SINK_LIMIT,
    ensures
        final(writer).wf(),
        final(writer).handed_out() == old(writer).handed_out(),
        final(writer).written() == old(writer).written() + cd_record(*e),
        final(writer).pending() == old(writer).pending() + cd_record(*e),
{
    write_signature(writer, CDFHD);
    let encoded = e.header.to_slice();
    writer.write(encoded.as_slice());
    writer.write(e.opts.filename.as_str().as_bytes());
    writer.write(e.opts.extra.as_slice());
    writer.write(e.opts.comment.as_str().as_bytes());
    assert(final(writer).written() =~= old(writer).written() + cd_record(*e));
    assert(final(writer).pending() =~= old(writer).pending() + cd_record(*e));
}

/// Appends the little-endian signature `sig` to the sink.
fn write_signature(writer: &mut OffsetWriter, sig: u32)
    requires
        old(writer).wf(),
        old(writer).written().len() + 4 <= SINK_LIMIT,
    ensures
        final(writer).wf(),
        final(writer).handed_out() == old(writer).handed_out(),
        final(writer).written() == old(writer).written() + le32(sig),
        final(writer).pending() == old(writer).pending() + le32(sig),
{
    let mut bytes: Vec<u8> = Vec::new();
    push_u32(&mut bytes, sig);
    writer.write(bytes.as_slice());
}

} // verus!
