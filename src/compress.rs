//! Compression methods and the outside primitives behind them: CRC-32 and DEFLATE.

use std::io::Write;
use vstd::prelude::*;
use crate::error::ZipError;

verus! {

/// The compression method of one entry.
#[derive(Clone, Copy, PartialEq, Eq, Structural, Debug)]
pub enum Compression {
    Stored,
    Deflate,
    Bz,
    Lzma,
    Zstd,
    Xz,
}

impl Compression {
    /// The method's code in the ZIP records.
    pub open spec fn spec_code(self) -> u16 {
        match self {
            Compression::Stored => 0,
            Compression::Deflate => 8,
            Compression::Bz => 12,
            Compression::Lzma => 14,
            Compression::Zstd => 93,
            Compression::Xz => 95,
        }
    }

    pub fn code(self) -> (r: u16)
        ensures
            r == self.spec_code(),
    {
        match self {
            Compression::Stored => 0,
            Compression::Deflate => 8,
            Compression::Bz => 12,
            Compression::Lzma => 14,
            Compression::Zstd => 93,
            Compression::Xz => 95,
        }
    }
}

/// The bytes stored for `data` under method `c`.
pub open spec fn compressed_of(c: Compression, data: Seq<u8>) -> Seq<u8> {
    match c {
        Compression::Stored => data,
        Compression::Deflate => deflate_of(data),
        Compression::Bz => bzip2_of(data),
        Compression::Lzma => lzma_of(data),
        Compression::Zstd => zstd_of(data),
        Compression::Xz => xz_of(data),
    }
}

/// Compresses the whole of `data` under method `c`.
pub fn compress_whole(c: Compression, data: &[u8]) -> (r: Result<Vec<u8>, ZipError>)
    ensures
        r matches Ok(v) ==> v@ == compressed_of(c, data@),
        r is Err ==> r == Err::<Vec<u8>, ZipError>(ZipError::CompressionFailed),
        c is Stored || c is Zstd ==> r is Ok,
{
    let out = match c {
        Compression::Stored => {
            let mut v: Vec<u8> = Vec::new();
            v.extend_from_slice(data);
            assert(v@ =~= data@);
            Ok(v)
        },
        Compression::Deflate => deflate_whole(data),
        Compression::Bz => bzip2_whole(data),
        Compression::Lzma => lzma_whole(data),
        Compression::Zstd => Ok(zstd_whole(data)),
        Compression::Xz => xz_whole(data),
    };
    match out {
        Ok(v) => Ok(v),
        Err(_) => Err(ZipError::CompressionFailed),
    }
}

#[verifier::external_type_specification]
#[verifier::external_body]
pub struct ExIoError(std::io::Error);

/// A running DEFLATE compressor: flate2's `DeflateEncoder` writing into a `Vec`,
/// kept opaque because Verus refuses a declaration of the encoder's type.
#[verifier::external_body]
pub struct Deflater {
    inner: flate2::write::DeflateEncoder<Vec<u8>>,
}

/// The CRC-32 (ISO-HDLC, as ZIP uses it) of `data`, resumed from the checksum `crc`
/// of the bytes before it; `crc32_update(0, d)` is the checksum of `d` alone.
pub uninterp spec fn crc32_update(crc: u32, data: Seq<u8>) -> u32;

/// The raw DEFLATE stream that flate2 produces for `data` at its default level.
pub uninterp spec fn deflate_of(data: Seq<u8>) -> Seq<u8>;

/// The bzip2 stream that the bzip2 crate produces for `data` at its default level.
pub uninterp spec fn bzip2_of(data: Seq<u8>) -> Seq<u8>;

/// The LZMA stream that lzma-rs produces for `data` with its default options.
pub uninterp spec fn lzma_of(data: Seq<u8>) -> Seq<u8>;

/// The XZ stream that lzma-rs produces for `data`.
pub uninterp spec fn xz_of(data: Seq<u8>) -> Seq<u8>;

/// The Zstandard frame that ruzstd produces for `data` at its fastest level.
pub uninterp spec fn zstd_of(data: Seq<u8>) -> Seq<u8>;

/// Relies on crc32fast's `Hasher::new_with_initial`, `update` and `finalize`:
/// the checksum of `data` continued from `crc`, a function of the two alone.
/// Resuming from the checksum of `p` gives the checksum of `p` followed by
/// `data`, and resuming over no bytes leaves the checksum as it was.
#[verifier::external_body]
pub(crate) fn crc32_extend(crc: u32, data: &[u8]) -> (r: u32)
    ensures
        r == crc32_update(crc, data@),
        forall|p: Seq<u8>| #[trigger] crc32_update(0, p) == crc ==> r == crc32_update(0, p + data@),
        data@.len() == 0 ==> r == crc,
{
    let mut hasher = crc32fast::Hasher::new_with_initial(crc);
    hasher.update(data);
    hasher.finalize()
}

/// Relies on flate2's `DeflateEncoder` over a `Vec` at the default level:
/// feeds all of `data` and finishes the stream.
#[verifier::external_body]
pub(crate) fn deflate_whole(data: &[u8]) -> (r: Result<Vec<u8>, std::io::Error>)
    ensures
        r matches Ok(v) ==> v@ == deflate_of(data@),
{
    let mut encoder = flate2::write::DeflateEncoder::new(Vec::new(), flate2::Compression::default());
    encoder.write_all(data)?;
    encoder.finish()
}

/// Relies on `bzip2::write::BzEncoder` over a `Vec` at the default level:
/// feeds all of `data` and finishes the stream.
#[verifier::external_body]
pub(crate) fn bzip2_whole(data: &[u8]) -> (r: Result<Vec<u8>, std::io::Error>)
    ensures
        r matches Ok(v) ==> v@ == bzip2_of(data@),
{
    let mut encoder = bzip2::write::BzEncoder::new(Vec::new(), bzip2::Compression::default());
    encoder.write_all(data)?;
    encoder.finish()
}

/// Relies on `lzma_rs::lzma_compress` from a byte slice into a `Vec`.
#[verifier::external_body]
pub(crate) fn lzma_whole(data: &[u8]) -> (r: Result<Vec<u8>, std::io::Error>)
    ensures
        r matches Ok(v) ==> v@ == lzma_of(data@),
{
    let mut out = Vec::new();
    lzma_rs::lzma_compress(&mut &data[..], &mut out)?;
    Ok(out)
}

/// Relies on `lzma_rs::xz_compress` from a byte slice into a `Vec`.
#[verifier::external_body]
pub(crate) fn xz_whole(data: &[u8]) -> (r: Result<Vec<u8>, std::io::Error>)
    ensures
        r matches Ok(v) ==> v@ == xz_of(data@),
{
    let mut out = Vec::new();
    lzma_rs::xz_compress(&mut &data[..], &mut out)?;
    Ok(out)
}

/// Relies on `ruzstd::encoding::compress_to_vec` at `CompressionLevel::Fastest`,
/// the level ruzstd implements.
#[verifier::external_body]
pub(crate) fn zstd_whole(data: &[u8]) -> (r: Vec<u8>)
    ensures
        r@ == zstd_of(data@),
{
    ruzstd::encoding::compress_to_vec(data, ruzstd::encoding::CompressionLevel::Fastest)
}

impl Deflater {
    /// Relies on `flate2::write::DeflateEncoder::new` over an empty `Vec`, default level.
    #[verifier::external_body]
    pub(crate) fn new() -> (r: Deflater) {
        Deflater {
            inner: flate2::write::DeflateEncoder::new(Vec::new(), flate2::Compression::default()),
        }
    }

    /// Relies on `write_all` of flate2's `DeflateEncoder`, then moves out the
    /// compressed bytes that the encoder has emitted so far.
    #[verifier::external_body]
    pub(crate) fn feed(&mut self, data: &[u8]) -> (r: Result<Vec<u8>, std::io::Error>) {
        self.inner.write_all(data)?;
        Ok(std::mem::take(self.inner.get_mut()))
    }

    /// Relies on `DeflateEncoder::finish`: the compressed bytes still held by the
    /// encoder, ending the stream.
    #[verifier::external_body]
    pub(crate) fn finish(self) -> (r: Result<Vec<u8>, std::io::Error>) {
        self.inner.finish()
    }
}

} // verus!
