//! The bytes of a sidecar file: one value as JSON text, compressed or not.
use crate::json::{
    json_content, json_from_slice, json_parse, json_text, json_to_vec, reads_back, JsonView,
};
use serde_json::Value;
use vstd::prelude::*;

verus! {

/// How the bytes of sidecar files are written.
#[derive(Clone, Copy, PartialEq, Eq, Structural, Debug)]
pub enum OffloadCodec {
    /// The JSON text, compressed with zstd.
    Zstd,
    /// The JSON text as it is.
    Plain,
}

/// Why the bytes of a sidecar file could not be made or read.
#[derive(Debug)]
pub enum OffloadError {
    Serialize(serde_json::Error),
    Compress(std::io::Error),
    Decompress(std::io::Error),
    Parse(serde_json::Error),
}

/// The compression level of sidecar files.
pub const COMPRESSION_LEVEL: i32 = 15;

/// `std::io::Error`, as the zstd crate reports failures.
#[verifier::external_type_specification]
#[verifier::external_body]
pub struct ExIoError(std::io::Error);

/// What zstd frames hold; `None` where the bytes are no sequence of zstd frames.
pub uninterp spec fn zstd_content(bytes: Seq<u8>) -> Option<Seq<u8>>;

/// `bytes` is what `zstd::encode_all` can make of `data` at `level`.
pub uninterp spec fn zstd_encodes(data: Seq<u8>, level: int, bytes: Seq<u8>) -> bool;

/// `zstd::encode_all`: what it returns are zstd frames that hold the data. Nothing
/// is said of when it fails (it does where the compressor gets no memory), nor
/// which of the frames that hold the data at that level come out.
#[verifier::external_body]
pub(crate) fn zstd_encode_all(data: Vec<u8>, level: i32) -> (result: std::io::Result<Vec<u8>>)
    ensures
        result matches Ok(bytes) ==> zstd_encodes(data@, level as int, bytes@),
        result matches Ok(bytes) ==> zstd_content(bytes@) == Some(data@),
{
    zstd::encode_all(std::io::Cursor::new(data), level)
}

/// `zstd::decode_all`: what it returns is what the frames hold, so it fails where
/// the bytes are no zstd frames. Nothing is said of when it succeeds: it may also
/// fail where the decompressor gets no memory.
#[verifier::external_body]
pub(crate) fn zstd_decode_all(bytes: Vec<u8>) -> (result: std::io::Result<Vec<u8>>)
    ensures
        result matches Ok(data) ==> zstd_content(bytes@) == Some(data@),
{
    zstd::decode_all(std::io::Cursor::new(bytes))
}

/// `result` is what a call of `zstd::encode_all` on this data at this level comes to.
pub closed spec fn zstd_encoding(
    data: Vec<u8>,
    level: i32,
    result: std::io::Result<Vec<u8>>,
) -> bool {
    call_ensures(zstd_encode_all, (data, level), result)
}

/// `result` is what a call of `zstd::decode_all` on these bytes comes to.
pub closed spec fn zstd_decoding(bytes: Vec<u8>, result: std::io::Result<Vec<u8>>) -> bool {
    call_ensures(zstd_decode_all, (bytes,), result)
}

/// The text that the bytes of a sidecar file hold.
pub open spec fn offloaded_text(codec: OffloadCodec, bytes: Seq<u8>) -> Option<Seq<u8>> {
    match codec {
        OffloadCodec::Zstd => zstd_content(bytes),
        OffloadCodec::Plain => Some(bytes),
    }
}

/// `bytes` is what a sidecar file holds once `text` has been written to it.
pub open spec fn writes_text(codec: OffloadCodec, text: Seq<u8>, bytes: Seq<u8>) -> bool {
    &&& offloaded_text(codec, bytes) == Some(text)
    &&& match codec {
        OffloadCodec::Zstd => zstd_encodes(text, COMPRESSION_LEVEL as int, bytes),
        OffloadCodec::Plain => true,
    }
}

/// `bytes` is what a sidecar file holds once a value has been written to it. Such
/// bytes hold the value's JSON text, and that text is read back as the value
/// wherever the parser can do so.
pub open spec fn writes_value(codec: OffloadCodec, value: JsonView, bytes: Seq<u8>) -> bool {
    &&& writes_text(codec, json_text(value), bytes)
    &&& reads_back(value) ==> json_parse(json_text(value)) == Some(value)
}

/// The value that a sidecar file with these bytes holds, `None` where they hold no
/// text or their text is no JSON.
pub open spec fn offloaded_value(codec: OffloadCodec, bytes: Seq<u8>) -> Option<JsonView> {
    match offloaded_text(codec, bytes) {
        Some(text) => json_parse(text),
        None => None,
    }
}

/// Compresses the bytes of a sidecar file.
pub fn compress(data: Vec<u8>) -> (result: std::io::Result<Vec<u8>>)
    ensures
        result matches Ok(bytes) ==> writes_text(OffloadCodec::Zstd, data@, bytes@),
        zstd_encoding(data, COMPRESSION_LEVEL, result),
{
    let encode = zstd_encode_all;
    encode(data, COMPRESSION_LEVEL)
}

/// Decompresses the bytes of a sidecar file.
pub fn decompress(data: Vec<u8>) -> (result: std::io::Result<Vec<u8>>)
    ensures
        result matches Ok(text) ==> zstd_content(data@) == Some(text@),
        zstd_decoding(data, result),
{
    let decode = zstd_decode_all;
    decode(data)
}

/// `zstd_encoding` speaks of a call on all of the data and at the level given.
pub(crate) proof fn law_encoding_is_one_call(
    data: Vec<u8>,
    level: i32,
    result: std::io::Result<Vec<u8>>,
)
    ensures
        zstd_encoding(data, level, result) <==> call_ensures(
            zstd_encode_all,
            (data, level),
            result,
        ),
{
}

/// `zstd_decoding` speaks of a call on all of the bytes.
pub(crate) proof fn law_decoding_is_one_call(bytes: Vec<u8>, result: std::io::Result<Vec<u8>>)
    ensures
        zstd_decoding(bytes, result) <==> call_ensures(zstd_decode_all, (bytes,), result),
{
}

/// zstd reports this error of this data, all of it.
pub open spec fn compressor_refuses(data: Seq<u8>, error: std::io::Error) -> bool {
    exists|whole: Vec<u8>|
        whole@ == data && #[trigger] zstd_encoding(whole, COMPRESSION_LEVEL, Err(error))
}

/// zstd reports this error of these bytes, all of them.
pub open spec fn decompressor_refuses(bytes: Seq<u8>, error: std::io::Error) -> bool {
    exists|whole: Vec<u8>| whole@ == bytes && #[trigger] zstd_decoding(whole, Err(error))
}

/// What reading a sidecar file comes to, once its bytes are decompressed.
pub fn parse_offloaded(decompressed: std::io::Result<Vec<u8>>) -> (result: Result<
    Value,
    OffloadError,
>)
    ensures
        match decompressed {
            Err(error) => result == Err::<Value, OffloadError>(OffloadError::Decompress(error)),
            Ok(text) => match json_parse(text@) {
                Some(content) => result matches Ok(value) && json_content(value) == content,
                None => result is Err && result->Err_0 is Parse,
            },
        },
{
    match decompressed {
        Err(error) => Err(OffloadError::Decompress(error)),
        Ok(text) => match json_from_slice(text.as_slice()) {
            Ok(value) => Ok(value),
            Err(error) => Err(OffloadError::Parse(error)),
        },
    }
}

/// What writing a sidecar file comes to, once its text is compressed.
pub fn finish_encoding(compressed: std::io::Result<Vec<u8>>) -> (result: Result<
    Vec<u8>,
    OffloadError,
>)
    ensures
        match compressed {
            Err(error) => result == Err::<Vec<u8>, OffloadError>(OffloadError::Compress(error)),
            Ok(bytes) => result == Ok::<Vec<u8>, OffloadError>(bytes),
        },
{
    match compressed {
        Err(error) => Err(OffloadError::Compress(error)),
        Ok(bytes) => Ok(bytes),
    }
}

/// The bytes of the sidecar file of a value. Uncompressed, they can always be
/// made; compressed, wherever the compressor takes the value's text.
pub fn encode_offloaded(codec: OffloadCodec, value: &Value) -> (result: Result<
    Vec<u8>,
    OffloadError,
>)
    ensures
        match result {
            Ok(bytes) => writes_value(codec, json_content(*value), bytes@),
            Err(error) => codec is Zstd && (error matches OffloadError::Compress(refusal)
                && compressor_refuses(json_text(json_content(*value)), refusal)),
        },
{
    match json_to_vec(value) {
        Err(error) => Err(OffloadError::Serialize(error)),
        Ok(text) => match codec {
            OffloadCodec::Zstd => finish_encoding(compress(text)),
            OffloadCodec::Plain => Ok(text),
        },
    }
}

/// The value in a sidecar file. It is read wherever the decompressor takes the bytes
/// and what it makes of them is JSON.
pub fn decode_offloaded(codec: OffloadCodec, bytes: Vec<u8>) -> (result: Result<
    Value,
    OffloadError,
>)
    ensures
        match result {
            Ok(value) => offloaded_value(codec, bytes@) == Some(json_content(value)),
            Err(OffloadError::Parse(_)) => offloaded_text(codec, bytes@) matches Some(text)
                && json_parse(text) is None,
            Err(error) => codec is Zstd && (error matches OffloadError::Decompress(refusal)
                && zstd_decoding(bytes, Err(refusal))),
        },
{
    match codec {
        OffloadCodec::Zstd => parse_offloaded(decompress(bytes)),
        OffloadCodec::Plain => parse_offloaded(Ok(bytes)),
    }
}

} // verus!
