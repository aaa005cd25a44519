//! What calls come to: for each step of storing and loading, what it has to do with the
//! entries, the paths and the bytes that went in.
use crate::data::{
    LoadAction, LoadEvent, SaveAction, SaveEvent, StoreAction, TestVectorData, TestVectorFileFormat,
};
use crate::entry::{is_false, EntryView, TestVectorEntry, TestVectorEntryType};
use crate::json::{
    default_null, is_null, json_content, json_parse, json_text, reads_back, JsonView,
};
use crate::message::{debug_json, debug_text, format_difference, format_entry};
use crate::offload::{
    compress, decode_offloaded, decompress, encode_offloaded, finish_encoding, parse_offloaded,
    zstd_content, zstd_decoding, zstd_encodes, zstd_encoding, OffloadCodec, OffloadError,
};
use crate::path::{
    append_suffix_to_filename, decimal, decimal_text, is_offloaded_path, offloaded_path,
    path_parts, PathPart,
};
use crate::session::{Mismatch, ProcessError, SessionError};
use serde_json::Value;
use std::path::PathBuf;
use vstd::prelude::*;

verus! {

// The bytes of sidecar files.

/// Compressing is one call of zstd, on all of the data and at the level of sidecar
/// files. What comes out holds the data.
pub proof fn law_call_of_compress(data: Vec<u8>, result: std::io::Result<Vec<u8>>)
    requires
        call_ensures(compress, (data,), result),
    ensures
        zstd_encoding(data, 15, result),
        result matches Ok(bytes) ==> zstd_content(bytes@) == Some(data@),
        result matches Ok(bytes) ==> zstd_encodes(data@, 15, bytes@),
{
}

/// Decompressing is one call of zstd, on all of the bytes. What comes out is what they
/// hold, so that bytes which hold nothing are refused.
pub proof fn law_call_of_decompress(bytes: Vec<u8>, result: std::io::Result<Vec<u8>>)
    requires
        call_ensures(decompress, (bytes,), result),
    ensures
        zstd_decoding(bytes, result),
        result matches Ok(data) ==> zstd_content(bytes@) == Some(data@),
{
}

/// Decompressing what compressing made gives the data back, or is refused.
pub proof fn law_decompress_undoes_compress(data: Vec<u8>, bytes: Vec<u8>, back: Vec<u8>)
    requires
        call_ensures(compress, (data,), Ok::<Vec<u8>, std::io::Error>(bytes)),
        call_ensures(decompress, (bytes,), Ok::<Vec<u8>, std::io::Error>(back)),
    ensures
        back@ == data@,
{
}

/// What is decompressed is read wherever it is JSON, and a refusal of the decompressor
/// is passed on.
pub proof fn law_call_of_parse_offloaded(
    decompressed: std::io::Result<Vec<u8>>,
    result: Result<Value, OffloadError>,
)
    requires
        call_ensures(parse_offloaded, (decompressed,), result),
    ensures
        result is Ok <==> decompressed is Ok && json_parse(decompressed->Ok_0@) is Some,
        result matches Ok(value) ==> json_parse(decompressed->Ok_0@) == Some(json_content(value)),
        result matches Err(error) ==> {
            ||| error is Parse && decompressed is Ok
            ||| decompressed is Err && error == OffloadError::Decompress(decompressed->Err_0)
        },
{
}

/// Compressed bytes are passed on, and so is a refusal of the compressor.
pub proof fn law_call_of_finish_encoding(
    compressed: std::io::Result<Vec<u8>>,
    result: Result<Vec<u8>, OffloadError>,
)
    requires
        call_ensures(finish_encoding, (compressed,), result),
    ensures
        result is Ok <==> compressed is Ok,
        result is Ok ==> result->Ok_0 == compressed->Ok_0,
        result is Err ==> result->Err_0 == OffloadError::Compress(compressed->Err_0),
{
}

/// The bytes of a value hold its JSON text. They cannot be made for one reason only,
/// that the compressor refuses that text.
pub proof fn law_call_of_encode(
    codec: OffloadCodec,
    value: &Value,
    result: Result<Vec<u8>, OffloadError>,
)
    requires
        call_ensures(encode_offloaded, (codec, value), result),
    ensures
        codec is Plain ==> result is Ok && result->Ok_0@ == json_text(json_content(*value)),
        codec is Zstd && result is Ok ==> {
            &&& zstd_content(result->Ok_0@) == Some(json_text(json_content(*value)))
            &&& zstd_encodes(json_text(json_content(*value)), 15, result->Ok_0@)
        },
        result is Err ==> {
            &&& result->Err_0 matches OffloadError::Compress(refusal)
            &&& exists|text: Vec<u8>|
                text@ == json_text(json_content(*value)) && #[trigger] zstd_encoding(
                    text,
                    15,
                    Err(refusal),
                )
        },
{
}

/// Bytes are read as the value that their text is. They cannot be read for two reasons
/// only: that the decompressor refuses these bytes, or that their text is no JSON.
pub proof fn law_call_of_decode(
    codec: OffloadCodec,
    bytes: Vec<u8>,
    result: Result<Value, OffloadError>,
)
    requires
        call_ensures(decode_offloaded, (codec, bytes), result),
    ensures
        codec is Plain ==> (result is Ok <==> json_parse(bytes@) is Some),
        codec is Plain && result is Ok ==> json_parse(bytes@) == Some(json_content(result->Ok_0)),
        codec is Zstd && result is Ok ==> {
            &&& zstd_content(bytes@) is Some
            &&& json_parse(zstd_content(bytes@)->0) == Some(json_content(result->Ok_0))
        },
        result is Err ==> match result->Err_0 {
            OffloadError::Decompress(refusal) => codec is Zstd && zstd_decoding(
                bytes,
                Err(refusal),
            ),
            OffloadError::Parse(_) => match codec {
                OffloadCodec::Plain => json_parse(bytes@) is None,
                OffloadCodec::Zstd => zstd_content(bytes@) is Some && json_parse(
                    zstd_content(bytes@)->0,
                ) is None,
            },
            _ => false,
        },
{
}

/// Compressed bytes that hold the JSON text of a value are read as that value, unless
/// the decompressor refuses them.
pub proof fn law_intact_bytes_are_read(
    bytes: Vec<u8>,
    content: JsonView,
    result: Result<Value, OffloadError>,
)
    requires
        call_ensures(decode_offloaded, (OffloadCodec::Zstd, bytes), result),
        zstd_content(bytes@) is Some,
        json_parse(zstd_content(bytes@)->0) == Some(content),
        forall|refusal: std::io::Error|
            !#[trigger] zstd_decoding(bytes, Err(refusal)),
    ensures
        result is Ok,
        json_content(result->Ok_0) == content,
{
    law_call_of_decode(OffloadCodec::Zstd, bytes, result);
}

/// A value that the JSON parser can read back is read from the bytes that were made of
/// it, unless the decompressor refuses them.
pub proof fn law_decode_undoes_encode(
    codec: OffloadCodec,
    value: &Value,
    bytes: Vec<u8>,
    result: Result<Value, OffloadError>,
)
    requires
        call_ensures(encode_offloaded, (codec, value), Ok::<Vec<u8>, OffloadError>(bytes)),
        call_ensures(decode_offloaded, (codec, bytes), result),
        reads_back(json_content(*value)),
    ensures
        result matches Ok(back) ==> json_content(back) == json_content(*value),
        result is Err ==> {
            &&& codec is Zstd
            &&& result->Err_0 matches OffloadError::Decompress(refusal)
            &&& zstd_decoding(bytes, Err(refusal))
        },
{
    law_call_of_decode(codec, bytes, result);
}

/// A value is left out of its record exactly where it is null.
pub proof fn law_call_of_is_null(value: &Value, result: bool)
    requires
        call_ensures(is_null, (value,), result),
    ensures
        result <==> json_content(*value) is Null,
{
}

/// A record without a value stands for null.
pub proof fn law_call_of_default_null(value: Value)
    requires
        call_ensures(default_null, (), value),
    ensures
        json_content(value) is Null,
{
}

/// The flag is left out of a record exactly where it is false.
pub proof fn law_call_of_is_false(flag: &bool, result: bool)
    requires
        call_ensures(is_false, (flag,), result),
    ensures
        result != *flag,
{
}

// Where sidecar files are.

/// The number that decimal digits stand for.
pub open spec fn digits_value(digits: Seq<char>) -> int
    decreases digits.len(),
{
    if digits.len() == 0 {
        0
    } else {
        digits_value(digits.drop_last()) * 10 + (digits.last() as int - '0' as int)
    }
}

/// The decimal digits of a number stand for it, are digits all, and begin with none too
/// many.
pub proof fn law_decimal_stands_for_its_number(n: nat)
    ensures
        digits_value(decimal(n)) == n,
        decimal(n).len() > 0,
        forall|i: int|
            #![trigger decimal(n)[i]]
            0 <= i < decimal(n).len() ==> '0' <= decimal(n)[i] <= '9',
        decimal(n)[0] == '0' ==> n == 0 && decimal(n).len() == 1,
    decreases n,
{
    if n < 10 {
        reveal_with_fuel(digits_value, 2);
        assert(decimal(n).drop_last() =~= Seq::<char>::empty());
    } else {
        law_decimal_stands_for_its_number(n / 10);
        assert(decimal(n).drop_last() =~= decimal(n / 10));
        assert(decimal(n)[0] == decimal(n / 10)[0]);
    }
}

/// `decimal_text` writes the decimal digits of the number.
pub proof fn law_call_of_decimal_text(n: usize, text: String)
    requires
        call_ensures(decimal_text, (n,), text),
    ensures
        digits_value(text@) == n,
        forall|i: int| #![trigger text@[i]] 0 <= i < text@.len() ==> '0' <= text@[i] <= '9',
        text@.len() > 0,
        text@[0] == '0' ==> text@.len() == 1,
{
    law_decimal_stands_for_its_number(n as nat);
    assert(text@ == decimal(n as nat));
}

/// A suffix without a separator goes behind the name that a path ends in, as long as no
/// drive is named, and the directory stays. A path that ends in no name stays as it is.
pub proof fn law_call_of_append_suffix(path: &PathBuf, suffix: &str, result: PathBuf)
    requires
        call_ensures(append_suffix_to_filename, (path, suffix), result),
    ensures
        path_parts(*path).len() == 0 || !(path_parts(*path).last() is Normal) ==> result == *path,
        path_parts(*path).len() > 0 ==> (path_parts(*path).last() matches PathPart::Normal(name)
            ==> {
            &&& !name.contains('/')
            &&& !suffix@.contains('/')
            &&& !suffix@.contains('\\')
            &&& (name + suffix@).len() >= 2 && (name + suffix@)[1] == ':' ==> {
                let first = (name + suffix@)[0];
                !('a' <= first <= 'z') && !('A' <= first <= 'Z')
            }
        } ==> {
            &&& path_parts(result).len() == path_parts(*path).len()
            &&& path_parts(result).drop_last() == path_parts(*path).drop_last()
            &&& path_parts(result).last() == PathPart::Normal(name + suffix@)
        }),
{
    if path_parts(*path).len() > 0 {
        if let PathPart::Normal(name) = path_parts(*path).last() {
            let new_name = name + suffix@;
            assert forall|i: int| name.len() <= i < new_name.len() implies #[trigger] new_name[i]
                == suffix@[i - name.len()] && suffix@.contains(new_name[i]) by {
                assert(new_name[i] == suffix@[i - name.len()]);
            }
            assert(path_parts(*path).drop_last().push(PathPart::Normal(new_name)).drop_last()
                =~= path_parts(*path).drop_last());
        }
    }
}

/// The sidecar file of an entry is next to the test vector file, under that file's name
/// with the entry's index behind it in decimal digits.
pub proof fn law_sidecar_has_the_entrys_index(tv_file_path: PathBuf, index: nat, path: PathBuf)
    requires
        is_offloaded_path(tv_file_path, index, path),
    ensures
        path_parts(tv_file_path).len() == 0 || !(path_parts(tv_file_path).last() is Normal) ==> path
            == tv_file_path,
        path_parts(tv_file_path).len() > 0 ==> (path_parts(
            tv_file_path,
        ).last() matches PathPart::Normal(name) ==> {
            &&& !name.contains('/')
            &&& name.len() >= 2 && name[1] == ':' ==> {
                !('a' <= name[0] <= 'z') && !('A' <= name[0] <= 'Z')
            }
        } ==> path_parts(path) == path_parts(tv_file_path).drop_last().push(
            PathPart::Normal(name + "_offloaded_value_"@ + decimal(index) + ".zstd"@),
        )),
{
    if path_parts(tv_file_path).len() > 0 {
        if let PathPart::Normal(name) = path_parts(tv_file_path).last() {
            assert(name + "_offloaded_value_"@ + decimal(index) + ".zstd"@ =~= name + (
            "_offloaded_value_"@ + decimal(index) + ".zstd"@));
            if !name.contains('/') && (name.len() >= 2 && name[1] == ':' ==> {
                !('a' <= name[0] <= 'z') && !('A' <= name[0] <= 'Z')
            }) {
                crate::round_trip::law_sidecar_is_next_to_vector(tv_file_path, index, path);
            }
        }
    }
}

/// `offloaded_path` gives the path of the sidecar file.
pub proof fn law_call_of_offloaded_path(tv_file_path: &PathBuf, index: usize, path: PathBuf)
    requires
        call_ensures(offloaded_path, (tv_file_path, index), path),
    ensures
        is_offloaded_path(*tv_file_path, index as nat, path),
{
}

// Steps of loading and storing.

/// An entry with another value is the same entry but for its value.
pub proof fn law_with_value_changes_the_value(entry: EntryView, value: JsonView)
    ensures
        entry.with_value(value).value == value,
        entry.with_value(value).entry_type == entry.entry_type,
        entry.with_value(value).description == entry.description,
        entry.with_value(value).name == entry.name,
        entry.with_value(value).code_location == entry.code_location,
        entry.with_value(value).test_vec_set_code_location == entry.test_vec_set_code_location,
        entry.with_value(value).offload == entry.offload,
{
}

/// A test vector without entries has none.
pub proof fn law_call_of_new_data(data: TestVectorData)
    requires
        call_ensures(TestVectorData::new, (), data),
    ensures
        data.entries@.len() == 0,
{
}

/// The first step of loading changes nothing. It asks for the sidecar file of the first
/// offloaded entry, and says whether that entry has a value already; where no entry is
/// offloaded, loading is done.
pub proof fn law_loading_begins_with_the_first(
    data: &mut TestVectorData,
    tv_file_path: &PathBuf,
    codec: OffloadCodec,
    action: LoadAction,
)
    requires
        call_ensures(
            TestVectorData::load_offloaded_values,
            (data, tv_file_path, codec, LoadEvent::Begin),
            action,
        ),
    ensures
        final(data).entries@.len() == old(data).entries@.len(),
        forall|i: int|
            #![trigger final(data).entries@[i]]
            0 <= i < old(data).entries@.len() ==> final(data).entries@[i]@
                == old(data).entries@[i]@,
        match action {
            LoadAction::Read { index, path, holds_value } => {
                &&& index < old(data).entries@.len()
                &&& old(data).entries@[index as int].offload
                &&& forall|j: int|
                    #![trigger old(data).entries@[j]]
                    0 <= j < index ==> !old(data).entries@[j].offload
                &&& is_offloaded_path(*tv_file_path, index as nat, path)
                &&& holds_value <==> !(json_content(
                    old(data).entries@[index as int].value,
                ) is Null)
            },
            LoadAction::Done => forall|j: int|
                #![trigger old(data).entries@[j]]
                0 <= j < old(data).entries@.len() ==> !old(data).entries@[j].offload,
            LoadAction::Failed(_) => false,
        },
{
    let entries = old(data).entries@;
    assert forall|j: int| #![trigger entries[j]] 0 <= j < entries.len() implies old(data)@[j]
        == entries[j]@ by {}
    assert forall|i: int|
        #![trigger final(data).entries@[i]]
        0 <= i < entries.len() implies final(data).entries@[i]@ == entries[i]@ by {
        assert(final(data)@[i] == final(data).entries@[i]@);
        assert(old(data)@[i] == entries[i]@);
    }
}

/// A step of loading that takes in a sidecar file puts the value that its bytes hold
/// into that entry and leaves all else as it was. It then asks for the file of the next
/// offloaded entry, if there is one. It fails for two reasons only: that the
/// decompressor refuses the bytes of the file, all of them, or that their text is no
/// JSON; then nothing changes.
pub proof fn law_loading_takes_the_value_in(
    data: &mut TestVectorData,
    tv_file_path: &PathBuf,
    codec: OffloadCodec,
    index: usize,
    bytes: Vec<u8>,
    action: LoadAction,
)
    requires
        index < old(data).entries@.len(),
        call_ensures(
            TestVectorData::load_offloaded_values,
            (data, tv_file_path, codec, LoadEvent::Fetched { index, bytes }),
            action,
        ),
    ensures
        final(data).entries@.len() == old(data).entries@.len(),
        forall|i: int|
            #![trigger final(data).entries@[i]]
            0 <= i < old(data).entries@.len() && (i != index || action is Failed) ==> final(data).entries@[i]@ == old(data).entries@[i]@,
        action is Failed ==> match action->Failed_0 {
            OffloadError::Decompress(refusal) => codec is Zstd && exists|whole: Vec<u8>|
                whole@ == bytes@ && #[trigger] zstd_decoding(whole, Err(refusal)),
            OffloadError::Parse(_) => match codec {
                OffloadCodec::Plain => json_parse(bytes@) is None,
                OffloadCodec::Zstd => zstd_content(bytes@) is Some && json_parse(
                    zstd_content(bytes@)->0,
                ) is None,
            },
            _ => false,
        },
        !(action is Failed) ==> {
            let entry = final(data).entries@[index as int]@;
            let before = old(data).entries@[index as int]@;
            &&& match codec {
                OffloadCodec::Plain => json_parse(bytes@) == Some(entry.value),
                OffloadCodec::Zstd => zstd_content(bytes@) is Some && json_parse(
                    zstd_content(bytes@)->0,
                ) == Some(entry.value),
            }
            &&& entry.entry_type == before.entry_type
            &&& entry.description == before.description
            &&& entry.name == before.name
            &&& entry.code_location == before.code_location
            &&& entry.test_vec_set_code_location == before.test_vec_set_code_location
            &&& entry.offload == before.offload
        },
        action matches LoadAction::Read { index: next, path, holds_value } ==> {
            &&& index < next < old(data).entries@.len()
            &&& old(data).entries@[next as int].offload
            &&& forall|j: int|
                #![trigger old(data).entries@[j]]
                index < j < next ==> !old(data).entries@[j].offload
            &&& is_offloaded_path(*tv_file_path, next as nat, path)
            &&& holds_value <==> !(json_content(old(data).entries@[next as int].value) is Null)
        },
        action is Done ==> forall|j: int|
            #![trigger old(data).entries@[j]]
            index < j < old(data).entries@.len() ==> !old(data).entries@[j].offload,
{
    let entries = old(data).entries@;
    assert(old(data)@.len() == entries.len());
    assert(final(data)@.len() == final(data).entries@.len());
    assert forall|j: int| #![trigger entries[j]] 0 <= j < entries.len() implies old(data)@[j]
        == entries[j]@ && final(data)@[j].offload == entries[j].offload by {
        assert(old(data)@[j] == entries[j]@);
    }
    assert forall|i: int|
        #![trigger final(data).entries@[i]]
        0 <= i < entries.len() && (i != index || action is Failed) implies final(data).entries@[i]@ == entries[i]@ by {
        assert(final(data)@[i] == final(data).entries@[i]@);
        assert(old(data)@[i] == entries[i]@);
    }
    assert(old(data)@[index as int] == entries[index as int]@);
    assert(final(data)@[index as int] == final(data).entries@[index as int]@);
}

/// The first step of saving changes nothing. It asks for the sidecar file of the first
/// offloaded entry, with the JSON text of that entry's value; where no entry is
/// offloaded, saving is done. It fails for one reason only, that the compressor refuses
/// that text.
pub proof fn law_saving_begins_with_the_first(
    data: &mut TestVectorData,
    tv_file_path: &PathBuf,
    codec: OffloadCodec,
    action: SaveAction,
)
    requires
        call_ensures(
            TestVectorData::save_offloaded_values,
            (data, tv_file_path, codec, SaveEvent::Begin),
            action,
        ),
    ensures
        final(data).entries@.len() == old(data).entries@.len(),
        forall|i: int|
            #![trigger final(data).entries@[i]]
            0 <= i < old(data).entries@.len() ==> final(data).entries@[i]@
                == old(data).entries@[i]@,
        match action {
            SaveAction::Write { index, path, bytes } => {
                let entries = old(data).entries@;
                let text = json_text(json_content(entries[index as int].value));
                &&& index < entries.len()
                &&& entries[index as int].offload
                &&& forall|j: int| #![trigger entries[j]] 0 <= j < index ==> !entries[j].offload
                &&& is_offloaded_path(*tv_file_path, index as nat, path)
                &&& match codec {
                    OffloadCodec::Plain => bytes@ == text,
                    OffloadCodec::Zstd => zstd_content(bytes@) == Some(text) && zstd_encodes(
                        text,
                        15,
                        bytes@,
                    ),
                }
            },
            SaveAction::Done => {
                &&& forall|j: int|
                    #![trigger old(data).entries@[j]]
                    0 <= j < old(data).entries@.len() ==> !old(data).entries@[j].offload
            },
            SaveAction::Failed { index, error } => {
                let entries = old(data).entries@;
                &&& index < entries.len()
                &&& entries[index as int].offload
                &&& forall|j: int| #![trigger entries[j]] 0 <= j < index ==> !entries[j].offload
                &&& codec is Zstd
                &&& error matches OffloadError::Compress(refusal)
                &&& exists|text: Vec<u8>|
                    text@ == json_text(json_content(entries[index as int].value))
                        && #[trigger] zstd_encoding(text, 15, Err(refusal))
            },
        },
{
    let entries = old(data).entries@;
    assert forall|j: int| #![trigger entries[j]] 0 <= j < entries.len() implies old(data)@[j]
        == entries[j]@ by {}
    assert forall|i: int|
        #![trigger final(data).entries@[i]]
        0 <= i < entries.len() implies final(data).entries@[i]@ == entries[i]@ by {
        assert(final(data)@[i] == final(data).entries@[i]@);
        assert(old(data)@[i] == entries[i]@);
    }
}

/// A step of saving blanks the entry whose sidecar file was written, leaves all else as
/// it was, and goes on with the next offloaded entry.
pub proof fn law_saving_blanks_what_was_written(
    data: &mut TestVectorData,
    tv_file_path: &PathBuf,
    codec: OffloadCodec,
    written: usize,
    action: SaveAction,
)
    requires
        written < old(data).entries@.len(),
        call_ensures(
            TestVectorData::save_offloaded_values,
            (data, tv_file_path, codec, SaveEvent::Written { index: written }),
            action,
        ),
    ensures
        final(data).entries@.len() == old(data).entries@.len(),
        forall|i: int|
            #![trigger final(data).entries@[i]]
            0 <= i < old(data).entries@.len() && i != written ==> final(data).entries@[i]@
                == old(data).entries@[i]@,
        ({
            let entry = final(data).entries@[written as int]@;
            let before = old(data).entries@[written as int]@;
            &&& entry.value is Null
            &&& entry.entry_type == before.entry_type
            &&& entry.description == before.description
            &&& entry.name == before.name
            &&& entry.code_location == before.code_location
            &&& entry.test_vec_set_code_location == before.test_vec_set_code_location
            &&& entry.offload == before.offload
        }),
        match action {
            SaveAction::Write { index, path, bytes } => {
                let entries = old(data).entries@;
                let text = json_text(json_content(entries[index as int].value));
                &&& written < index < entries.len()
                &&& entries[index as int].offload
                &&& forall|j: int|
                    #![trigger entries[j]]
                    written < j < index ==> !entries[j].offload
                &&& is_offloaded_path(*tv_file_path, index as nat, path)
                &&& match codec {
                    OffloadCodec::Plain => bytes@ == text,
                    OffloadCodec::Zstd => zstd_content(bytes@) == Some(text) && zstd_encodes(
                        text,
                        15,
                        bytes@,
                    ),
                }
            },
            SaveAction::Done => {
                &&& forall|j: int|
                    #![trigger old(data).entries@[j]]
                    written < j < old(data).entries@.len() ==> !old(data).entries@[j].offload
            },
            SaveAction::Failed { index, error } => {
                let entries = old(data).entries@;
                &&& written < index < entries.len()
                &&& entries[index as int].offload
                &&& forall|j: int|
                    #![trigger entries[j]]
                    written < j < index ==> !entries[j].offload
                &&& codec is Zstd
                &&& error matches OffloadError::Compress(refusal)
                &&& exists|text: Vec<u8>|
                    text@ == json_text(json_content(entries[index as int].value))
                        && #[trigger] zstd_encoding(text, 15, Err(refusal))
            },
        },
{
    let entries = old(data).entries@;
    assert forall|j: int| #![trigger entries[j]] 0 <= j < entries.len() implies old(data)@[j]
        == entries[j]@ && final(data)@[j].offload == entries[j].offload by {
        assert(old(data)@[j] == entries[j]@);
    }
    assert forall|i: int|
        #![trigger final(data).entries@[i]]
        0 <= i < entries.len() && i != written implies final(data).entries@[i]@
        == entries[i]@ by {
        assert(final(data)@[i] == final(data).entries@[i]@);
        assert(old(data)@[i] == entries[i]@);
    }
    assert(old(data)@[written as int] == entries[written as int]@);
    assert(final(data)@[written as int] == final(data).entries@[written as int]@);
}

/// The first step of storing changes nothing. It asks for the sidecar file of the first
/// offloaded entry, with the JSON text of that entry's value; where no entry is
/// offloaded, for the test vector file in the given format, and before it for the
/// directory that it is in.
pub proof fn law_storing_begins_with_the_first(
    data: &mut TestVectorData,
    tv_file_path: &PathBuf,
    file_format: TestVectorFileFormat,
    codec: OffloadCodec,
    action: StoreAction,
)
    requires
        call_ensures(
            TestVectorData::store_to_file,
            (data, tv_file_path, file_format, codec, SaveEvent::Begin),
            action,
        ),
    ensures
        final(data).entries@.len() == old(data).entries@.len(),
        forall|i: int|
            #![trigger final(data).entries@[i]]
            0 <= i < old(data).entries@.len() ==> final(data).entries@[i]@
                == old(data).entries@[i]@,
        match action {
            StoreAction::WriteSidecar { index, path, bytes } => {
                let entries = old(data).entries@;
                let text = json_text(json_content(entries[index as int].value));
                &&& index < entries.len()
                &&& entries[index as int].offload
                &&& forall|j: int| #![trigger entries[j]] 0 <= j < index ==> !entries[j].offload
                &&& is_offloaded_path(*tv_file_path, index as nat, path)
                &&& match codec {
                    OffloadCodec::Plain => bytes@ == text,
                    OffloadCodec::Zstd => zstd_content(bytes@) == Some(text) && zstd_encodes(
                        text,
                        15,
                        bytes@,
                    ),
                }
            },
            StoreAction::WriteEntries { parent, file_format: asked } => {
                &&& forall|j: int|
                    #![trigger old(data).entries@[j]]
                    0 <= j < old(data).entries@.len() ==> !old(data).entries@[j].offload
                &&& asked == file_format
                &&& parent is None <==> {
                    let parts = path_parts(*tv_file_path);
                    parts.len() == 0 || parts.last() is RootDir || parts.last() is Prefix
                }
                &&& parent matches Some(directory) ==> path_parts(directory) == path_parts(
                    *tv_file_path,
                ).drop_last()
            },
            StoreAction::Failed { index, error } => {
                let entries = old(data).entries@;
                &&& index < entries.len()
                &&& entries[index as int].offload
                &&& forall|j: int| #![trigger entries[j]] 0 <= j < index ==> !entries[j].offload
                &&& codec is Zstd
                &&& error matches OffloadError::Compress(refusal)
                &&& exists|text: Vec<u8>|
                    text@ == json_text(json_content(entries[index as int].value))
                        && #[trigger] zstd_encoding(text, 15, Err(refusal))
            },
        },
{
    let entries = old(data).entries@;
    assert forall|j: int| #![trigger entries[j]] 0 <= j < entries.len() implies old(data)@[j]
        == entries[j]@ by {}
    assert forall|i: int|
        #![trigger final(data).entries@[i]]
        0 <= i < entries.len() implies final(data).entries@[i]@ == entries[i]@ by {
        assert(final(data)@[i] == final(data).entries@[i]@);
        assert(old(data)@[i] == entries[i]@);
    }
}

/// A step of storing blanks the entry whose sidecar file was written, leaves all else as
/// it was, and goes on with the next offloaded entry; after the last, it asks for the
/// test vector file in the given format, and before it for the directory that it is in.
pub proof fn law_storing_blanks_what_was_written(
    data: &mut TestVectorData,
    tv_file_path: &PathBuf,
    file_format: TestVectorFileFormat,
    codec: OffloadCodec,
    written: usize,
    action: StoreAction,
)
    requires
        written < old(data).entries@.len(),
        call_ensures(
            TestVectorData::store_to_file,
            (data, tv_file_path, file_format, codec, SaveEvent::Written { index: written }),
            action,
        ),
    ensures
        final(data).entries@.len() == old(data).entries@.len(),
        forall|i: int|
            #![trigger final(data).entries@[i]]
            0 <= i < old(data).entries@.len() && i != written ==> final(data).entries@[i]@
                == old(data).entries@[i]@,
        ({
            let entry = final(data).entries@[written as int]@;
            let before = old(data).entries@[written as int]@;
            &&& entry.value is Null
            &&& entry.entry_type == before.entry_type
            &&& entry.description == before.description
            &&& entry.name == before.name
            &&& entry.code_location == before.code_location
            &&& entry.test_vec_set_code_location == before.test_vec_set_code_location
            &&& entry.offload == before.offload
        }),
        match action {
            StoreAction::WriteSidecar { index, path, bytes } => {
                let entries = old(data).entries@;
                let text = json_text(json_content(entries[index as int].value));
                &&& written < index < entries.len()
                &&& entries[index as int].offload
                &&& forall|j: int|
                    #![trigger entries[j]]
                    written < j < index ==> !entries[j].offload
                &&& is_offloaded_path(*tv_file_path, index as nat, path)
                &&& match codec {
                    OffloadCodec::Plain => bytes@ == text,
                    OffloadCodec::Zstd => zstd_content(bytes@) == Some(text) && zstd_encodes(
                        text,
                        15,
                        bytes@,
                    ),
                }
            },
            StoreAction::WriteEntries { parent, file_format: asked } => {
                &&& forall|j: int|
                    #![trigger old(data).entries@[j]]
                    written < j < old(data).entries@.len() ==> !old(data).entries@[j].offload
                &&& asked == file_format
                &&& parent is None <==> {
                    let parts = path_parts(*tv_file_path);
                    parts.len() == 0 || parts.last() is RootDir || parts.last() is Prefix
                }
                &&& parent matches Some(directory) ==> path_parts(directory) == path_parts(
                    *tv_file_path,
                ).drop_last()
            },
            StoreAction::Failed { index, error } => {
                let entries = old(data).entries@;
                &&& written < index < entries.len()
                &&& entries[index as int].offload
                &&& forall|j: int|
                    #![trigger entries[j]]
                    written < j < index ==> !entries[j].offload
                &&& codec is Zstd
                &&& error matches OffloadError::Compress(refusal)
                &&& exists|text: Vec<u8>|
                    text@ == json_text(json_content(entries[index as int].value))
                        && #[trigger] zstd_encoding(text, 15, Err(refusal))
            },
        },
{
    let entries = old(data).entries@;
    assert forall|j: int| #![trigger entries[j]] 0 <= j < entries.len() implies old(data)@[j]
        == entries[j]@ && final(data)@[j].offload == entries[j].offload by {
        assert(old(data)@[j] == entries[j]@);
    }
    assert forall|i: int|
        #![trigger final(data).entries@[i]]
        0 <= i < entries.len() && i != written implies final(data).entries@[i]@
        == entries[i]@ by {
        assert(final(data)@[i] == final(data).entries@[i]@);
        assert(old(data)@[i] == entries[i]@);
    }
    assert(old(data)@[written as int] == entries[written as int]@);
    assert(final(data)@[written as int] == final(data).entries@[written as int]@);
}

// Reports.

/// The report of an entry shows each of its fields under its name.
pub proof fn law_call_of_format_entry(entry: &TestVectorEntry, text: String)
    requires
        call_ensures(format_entry, (entry,), text),
    ensures
        text@ == "TestVectorEntry { entry_type: "@ + (match entry.entry_type {
            TestVectorEntryType::Const => "Const"@,
            TestVectorEntryType::Output => "Output"@,
        }) + ", description: "@ + debug_text(entry@.description) + ", name: "@ + debug_text(
            entry@.name,
        ) + ", value: "@ + debug_json(entry@.value) + ", code_location: "@ + debug_text(
            entry@.code_location,
        ) + ", test_vec_set_code_location: "@ + debug_text(entry@.test_vec_set_code_location)
            + ", offload: "@ + (if entry.offload {
            "true"@
        } else {
            "false"@
        }) + " }"@,
{
}

/// The report of a difference shows names, values and kinds of both entries.
pub proof fn law_call_of_format_difference(
    loaded: &TestVectorEntry,
    observed: &TestVectorEntry,
    text: String,
)
    requires
        call_ensures(format_difference, (loaded, observed), text),
    ensures
        text@ == "\nloaded name: "@ + debug_text(loaded@.name) + "\nobserved name: "@ + debug_text(
            observed@.name,
        ) + "\nloaded value: "@ + debug_json(loaded@.value) + "\nobserved value: "@ + debug_json(
            observed@.value,
        ) + "\nloaded entry_type: "@ + (match loaded.entry_type {
            TestVectorEntryType::Const => "Const"@,
            TestVectorEntryType::Output => "Output"@,
        }) + "\nobserved entry_type: "@ + (match observed.entry_type {
            TestVectorEntryType::Const => "Const"@,
            TestVectorEntryType::Output => "Output"@,
        }) + "\n"@,
{
}

/// The report of a refused entry begins with the reason and ends with the report of the
/// entries that it is about.
pub proof fn law_call_of_message(mismatch: &Mismatch, text: String, part: String)
    requires
        call_ensures(Mismatch::message, (mismatch,), text),
        match *mismatch {
            Mismatch::Missing { observed } => call_ensures(format_entry, (&observed,), part),
            Mismatch::Name { loaded, observed } => call_ensures(
                format_difference,
                (&loaded, &observed),
                part,
            ),
            Mismatch::EntryType { loaded, observed } => call_ensures(
                format_difference,
                (&loaded, &observed),
                part,
            ),
            Mismatch::Value { loaded, observed } => call_ensures(
                format_difference,
                (&loaded, &observed),
                part,
            ),
        },
    ensures
        text@ == (match *mismatch {
            Mismatch::Missing { .. } =>
                "Observed value does not exist in loaded test vector: \n observed: "@,
            Mismatch::Name { .. } => "Observed value does not match the loaded test vectors name:"@,
            Mismatch::EntryType { .. } =>
                "Observed value does not match the loaded test vectors type:"@,
            Mismatch::Value { .. } =>
                "Observed value does not match the loaded test vectors value:"@,
        }) + part@,
{
}

/// A session that cannot be begun is reported with what to do about it, or with the
/// session that is under way.
pub proof fn law_call_of_session_context<E>(error: &SessionError<E>, text: String)
    requires
        call_ensures(SessionError::<E>::context, (error,), text),
    ensures
        error is Load ==> text@
            == "Error loading test vector. You may need to switch to init mode. Internal error: "@,
        error is AlreadyInitialized ==> text@ == "A test vector session is already initialized"@,
{
}

/// A refused entry is reported with its whole message, and an error of the serializer or
/// of reading a recorded constant without a word of its own.
pub proof fn law_call_of_process_context<E>(error: &ProcessError<E>, text: String)
    requires
        call_ensures(ProcessError::<E>::context, (error,), text),
    ensures
        *error matches ProcessError::Mismatch(mismatch) ==> forall|message: String| #[trigger]
            call_ensures(Mismatch::message, (&mismatch,), message) ==> text@ == message@,
        error is Serialize || error is DeserializeLoaded ==> text@.len() == 0,
        error is NotInitialized ==> text@ == "No test vector session is initialized"@,
        error is DeserializeObserved ==> text@
            == "Failed to deserialize constant value right after serializing it. There probably is a bug in the TestVectorMomento implementation"@,
{
}

} // verus!
