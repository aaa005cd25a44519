use assert_tv::data::TestVectorData;
use assert_tv::entry::is_false;
use assert_tv::json::{default_null, is_null};
use assert_tv::offload::{
    compress, decode_offloaded, decompress, encode_offloaded, finish_encoding, parse_offloaded,
};
use assert_tv::path::{append_suffix_to_filename, decimal_text, offloaded_path};
use assert_tv::{
    finalize_tv_case, initialize_tv_case_from_file, process_next_entry, FinalizeAction, LoadAction, LoadEvent, OffloadCodec,
    OffloadError, SaveAction, SaveEvent, StoreAction, TestMode, TestVecSession, TestVectorEntry,
    TestVectorEntryType, TestVectorFileFormat,
};
use serde_json::Value;
use std::collections::HashMap;
use std::path::PathBuf;

type Files = HashMap<PathBuf, Vec<u8>>;

fn entry(value: Value, offload: bool) -> TestVectorEntry {
    TestVectorEntry {
        entry_type: TestVectorEntryType::Output,
        description: None,
        name: Some("payload".to_string()),
        value,
        code_location: None,
        test_vec_set_code_location: None,
        offload,
    }
}

fn store(data: &mut TestVectorData, path: &PathBuf, codec: OffloadCodec, files: &mut Files) -> Option<PathBuf> {
    let mut event = SaveEvent::Begin;
    loop {
        match data.store_to_file(path, TestVectorFileFormat::Toml, codec, event) {
            StoreAction::WriteSidecar { index, path, bytes } => {
                files.insert(path, bytes);
                event = SaveEvent::Written { index };
            }
            StoreAction::WriteEntries { parent, file_format } => {
                assert_eq!(file_format, TestVectorFileFormat::Toml);
                return parent;
            }
            StoreAction::Failed { error, .. } => panic!("{:?}", error),
        }
    }
}

fn load(data: &mut TestVectorData, path: &PathBuf, codec: OffloadCodec, files: &Files) -> Result<Vec<usize>, OffloadError> {
    let mut read = vec![];
    let mut event = LoadEvent::Begin;
    loop {
        match data.load_offloaded_values(path, codec, event) {
            LoadAction::Read { index, path, .. } => {
                read.push(index);
                event = LoadEvent::Fetched { index, bytes: files[&path].clone() };
            }
            LoadAction::Done => return Ok(read),
            LoadAction::Failed(error) => return Err(error),
        }
    }
}

fn sample() -> Vec<TestVectorEntry> {
    let object: serde_json::Map<String, Value> = vec![
        ("b".to_string(), Value::from(vec![1, 2, 3])),
        ("a".to_string(), Value::from(-5)),
    ]
    .into_iter()
    .collect();
    vec![
        entry(Value::from("kept"), false),
        entry(Value::Object(object), true),
        entry(Value::from(true), false),
        entry(Value::from("x".repeat(5000)), true),
    ]
}

#[test]
fn stored_sidecars_are_loaded_back() {
    for codec in [OffloadCodec::Zstd, OffloadCodec::Plain] {
        let path = PathBuf::from("vecs/case.toml");
        let mut files = Files::new();
        let mut data = TestVectorData { entries: sample() };
        let parent = store(&mut data, &path, codec, &mut files);
        assert_eq!(parent, Some(PathBuf::from("vecs")));
        assert_eq!(files.len(), 2);
        assert!(files.contains_key(&PathBuf::from("vecs/case.toml_offloaded_value_1.zstd")));
        assert!(files.contains_key(&PathBuf::from("vecs/case.toml_offloaded_value_3.zstd")));
        assert!(data.entries[1].value.is_null());
        assert!(data.entries[3].value.is_null());
        assert_eq!(data.entries[0].value, Value::from("kept"));
        assert_eq!(data.entries[2].value, Value::from(true));
        assert_eq!(load(&mut data, &path, codec, &files).unwrap(), vec![1, 3]);
        assert!(data == TestVectorData { entries: sample() });
    }
}

#[test]
fn sidecar_bytes_are_compressed_json() {
    let value = Value::from("x".repeat(5000));
    let text = serde_json::to_vec(&value).unwrap();
    let plain = encode_offloaded(OffloadCodec::Plain, &value).unwrap();
    assert_eq!(plain, text);
    let packed = encode_offloaded(OffloadCodec::Zstd, &value).unwrap();
    assert!(packed.len() < 200);
    assert_eq!(decompress(packed).unwrap(), text);
    assert_eq!(decompress(compress(text.clone()).unwrap()).unwrap(), text);
}

#[test]
fn json_text_is_compact_and_sorted() {
    let data = sample();
    let text = encode_offloaded(OffloadCodec::Plain, &data[1].value).unwrap();
    assert_eq!(text, b"{\"a\":-5,\"b\":[1,2,3]}".to_vec());
}

#[test]
fn broken_sidecars_are_refused() {
    let mut data = TestVectorData { entries: vec![entry(Value::Null, true)] };
    let path = PathBuf::from("case.json");
    let event = |bytes: &[u8]| LoadEvent::Fetched { index: 0, bytes: bytes.to_vec() };
    let action = data.load_offloaded_values(&path, OffloadCodec::Zstd, event(b"not zstd"));
    assert!(matches!(action, LoadAction::Failed(OffloadError::Decompress(_))));
    let action = data.load_offloaded_values(&path, OffloadCodec::Plain, event(b"{"));
    assert!(matches!(action, LoadAction::Failed(OffloadError::Parse(_))));
    assert!(data.entries[0].value.is_null());
    let action = data.load_offloaded_values(&path, OffloadCodec::Plain, event(b"[1]"));
    assert!(matches!(action, LoadAction::Done));
    assert_eq!(data.entries[0].value, Value::from(vec![1]));
}

#[test]
fn outside_failures_are_told_apart() {
    let failure = || std::io::Error::new(std::io::ErrorKind::Other, "no memory");
    assert!(matches!(parse_offloaded(Err(failure())), Err(OffloadError::Decompress(_))));
    assert!(matches!(finish_encoding(Err(failure())), Err(OffloadError::Compress(_))));
    assert_eq!(finish_encoding(Ok(vec![1])).unwrap(), vec![1]);
    assert_eq!(parse_offloaded(Ok(b"3".to_vec())).unwrap(), Value::from(3));
}

#[test]
fn nesting_has_a_limit() {
    let nested = |depth: usize| {
        let mut value = Value::Null;
        for _ in 0..depth {
            value = Value::Array(vec![value]);
        }
        value
    };
    let deepest = nested(127);
    let bytes = encode_offloaded(OffloadCodec::Zstd, &deepest).unwrap();
    assert_eq!(decode_offloaded(OffloadCodec::Zstd, bytes).unwrap(), deepest);
    let bytes = encode_offloaded(OffloadCodec::Zstd, &nested(128)).unwrap();
    assert!(matches!(decode_offloaded(OffloadCodec::Zstd, bytes), Err(OffloadError::Parse(_))));
}

#[test]
fn integers_survive_storing() {
    for value in [Value::from(u64::MAX), Value::from(i64::MIN), Value::from(0), Value::from(0.5f64)] {
        let bytes = encode_offloaded(OffloadCodec::Plain, &value).unwrap();
        assert_eq!(decode_offloaded(OffloadCodec::Plain, bytes).unwrap(), value);
    }
}

#[test]
fn some_floats_are_not_read_back() {
    let value = Value::from(8.383658838626809e-78f64);
    let bytes = encode_offloaded(OffloadCodec::Plain, &value).unwrap();
    assert_ne!(decode_offloaded(OffloadCodec::Plain, bytes).unwrap(), value);
}

#[test]
fn entry_that_holds_a_value_is_pointed_out() {
    let path = PathBuf::from("case.json");
    let mut data = TestVectorData { entries: vec![entry(Value::from(1), true)] };
    let action = data.load_offloaded_values(&path, OffloadCodec::Plain, LoadEvent::Begin);
    assert!(matches!(action, LoadAction::Read { index: 0, holds_value: true, .. }));
    let mut data = TestVectorData { entries: vec![entry(Value::Null, false), entry(Value::Null, true)] };
    let action = data.load_offloaded_values(&path, OffloadCodec::Plain, LoadEvent::Begin);
    assert!(matches!(action, LoadAction::Read { index: 1, holds_value: false, .. }));
}

#[test]
fn saving_goes_file_by_file() {
    let path = PathBuf::from("case.json");
    let mut data = TestVectorData { entries: vec![entry(Value::from(1), true), entry(Value::from(2), true)] };
    let first = data.save_offloaded_values(&path, OffloadCodec::Plain, SaveEvent::Begin);
    assert!(matches!(first, SaveAction::Write { index: 0, bytes, .. } if bytes == b"1"));
    assert_eq!(data.entries[0].value, Value::from(1));
    let second = data.save_offloaded_values(&path, OffloadCodec::Plain, SaveEvent::Written { index: 0 });
    assert!(matches!(second, SaveAction::Write { index: 1, bytes, .. } if bytes == b"2"));
    assert!(data.entries[0].value.is_null());
    assert_eq!(data.entries[1].value, Value::from(2));
    let last = data.save_offloaded_values(&path, OffloadCodec::Plain, SaveEvent::Written { index: 1 });
    assert!(matches!(last, SaveAction::Done));
    assert!(data.entries[1].value.is_null());
}

#[test]
fn suffix_goes_behind_the_file_name() {
    let suffixed = |path: &str| append_suffix_to_filename(&PathBuf::from(path), "_x");
    assert_eq!(suffixed("a/b.toml"), PathBuf::from("a/b.toml_x"));
    assert_eq!(suffixed("b"), PathBuf::from("b_x"));
    assert_eq!(suffixed("a/./b/."), PathBuf::from("a/./b_x"));
    assert_eq!(suffixed("a/run 2: b"), PathBuf::from("a/run 2: b_x"));
    let timed = append_suffix_to_filename(&PathBuf::from("a/foo"), ":12:30");
    assert_eq!(timed, PathBuf::from("a/foo:12:30"));
    assert_eq!(suffixed("/"), PathBuf::from("/"));
    assert_eq!(suffixed("a/.."), PathBuf::from("a/.."));
    assert_eq!(suffixed(""), PathBuf::from(""));
}

#[test]
fn sidecar_paths_count_the_entry() {
    let path = PathBuf::from("manual_tv.toml");
    assert_eq!(offloaded_path(&path, 1), PathBuf::from("manual_tv.toml_offloaded_value_1.zstd"));
    assert_eq!(offloaded_path(&path, 120), PathBuf::from("manual_tv.toml_offloaded_value_120.zstd"));
    assert_ne!(offloaded_path(&path, 12), offloaded_path(&path, 21));
}

#[test]
fn decimal_digits() {
    assert_eq!(decimal_text(0), "0");
    assert_eq!(decimal_text(9), "9");
    assert_eq!(decimal_text(10), "10");
    assert_eq!(decimal_text(1907), "1907");
    assert_eq!(decimal_text(usize::MAX), usize::MAX.to_string());
}

#[test]
fn store_names_the_parent_directory() {
    let parent = |path: &str| {
        let mut data = TestVectorData::new();
        store(&mut data, &PathBuf::from(path), OffloadCodec::Plain, &mut Files::new())
    };
    assert_eq!(parent("a/b/c.json"), Some(PathBuf::from("a/b")));
    assert_eq!(parent("c.json"), Some(PathBuf::from("")));
    assert_eq!(parent("/"), None);
    assert_eq!(parent(""), None);
}

#[test]
fn left_out_fields_have_their_defaults() {
    assert!(is_null(&default_null()));
    assert!(!is_null(&Value::from(0)));
    assert!(!is_null(&Value::from("")));
    assert!(is_false(&false));
    assert!(!is_false(&true));
}

fn serialize_number(value: &u64) -> Result<Value, String> {
    Ok(Value::String(value.to_string()))
}

fn deserialize_number(value: &Value) -> Result<u64, String> {
    value.as_str().and_then(|text| text.parse().ok()).ok_or("no number".to_string())
}

fn serialize_text(value: &String) -> Result<Value, String> {
    Ok(Value::from(value.as_str()))
}

fn observe(session: &mut TestVecSession, a: u64) -> u64 {
    let exposed = process_next_entry(
        session,
        TestVectorEntryType::Const,
        Some("a is a u64".to_string()),
        Some("a".to_string()),
        &a,
        None,
        None,
        &serialize_number,
        Some(&deserialize_number),
        false,
    );
    let a = exposed.unwrap().unwrap();
    let b = if a % 2 == 0 { "abc".to_string() } else { "def".to_string() };
    let checked = process_next_entry(
        session,
        TestVectorEntryType::Output,
        None,
        None,
        &b,
        None,
        None,
        &serialize_text,
        None::<&fn(&Value) -> Result<String, String>>,
        true,
    );
    assert_eq!(checked.unwrap(), None);
    a
}

#[test]
fn manual_set_records_then_replays() {
    let path = PathBuf::from("manual_tv.toml");
    let mut session = TestVecSession::new();
    initialize_tv_case_from_file::<String>(
        &mut session,
        path.clone(),
        TestVectorFileFormat::Toml,
        TestMode::Init,
        Ok(TestVectorData::new()),
    )
    .unwrap();
    assert_eq!(observe(&mut session, 20), 20);
    let mut files = Files::new();
    assert_eq!(finalize_tv_case(&session, None), Ok(FinalizeAction::Store));
    let mut data = session.active.as_ref().unwrap().entries_to_store();
    store(&mut data, &path, OffloadCodec::Zstd, &mut files);
    let entries = data.entries;
    session.release();
    assert_eq!(entries[0].name.as_deref(), Some("a"));
    assert_eq!(entries[0].value.as_str(), Some("20"));
    assert!(entries[1].value.is_null());
    assert!(files.contains_key(&PathBuf::from("manual_tv.toml_offloaded_value_1.zstd")));

    let mut stored = TestVectorData { entries };
    load(&mut stored, &path, OffloadCodec::Zstd, &files).unwrap();
    initialize_tv_case_from_file::<String>(
        &mut session,
        path,
        TestVectorFileFormat::Toml,
        TestMode::Check,
        Ok(stored),
    )
    .unwrap();
    assert_eq!(observe(&mut session, 77), 20);
}

#[test]
fn ending_a_session_twice_stores_once() {
    let path = PathBuf::from("manual_tv.toml");
    let mut session = TestVecSession::new();
    initialize_tv_case_from_file::<String>(
        &mut session,
        path.clone(),
        TestVectorFileFormat::Toml,
        TestMode::Init,
        Ok(TestVectorData::new()),
    )
    .unwrap();
    observe(&mut session, 21);
    let env = session.active.as_ref().unwrap();
    let mut files = Files::new();
    let mut stored = env.entries_to_store();
    store(&mut stored, &path, OffloadCodec::Zstd, &mut files);
    assert!(stored.entries[1].value.is_null());
    assert_eq!(env.recorded_tv_data.entries[1].value, Value::from("def"));
    load(&mut stored, &path, OffloadCodec::Zstd, &files).unwrap();
    assert_eq!(finalize_tv_case(&session, Some(&stored)), Ok(FinalizeAction::Keep));
    // Storing again, as after a failure, writes the same sidecar.
    let mut again = Files::new();
    store(&mut env.entries_to_store(), &path, OffloadCodec::Plain, &mut again);
    assert_eq!(again[&offloaded_path(&path, 1)], b"\"def\"".to_vec());
}

#[test]
fn loading_twice_changes_nothing() {
    let path = PathBuf::from("case.toml");
    let mut files = Files::new();
    let mut data = TestVectorData { entries: sample() };
    store(&mut data, &path, OffloadCodec::Zstd, &mut files);
    load(&mut data, &path, OffloadCodec::Zstd, &files).unwrap();
    assert_eq!(load(&mut data, &path, OffloadCodec::Zstd, &files).unwrap(), vec![1, 3]);
    assert!(data == TestVectorData { entries: sample() });
}

#[test]
fn suffixes_add_up() {
    for path in ["a/b.toml", "b", "/", "a/..", ""] {
        let path = PathBuf::from(path);
        let one = append_suffix_to_filename(&append_suffix_to_filename(&path, "_x"), ".y");
        assert_eq!(one, append_suffix_to_filename(&path, "_x.y"));
    }
}

#[test]
fn compression_round_trip() {
    for data in [vec![], vec![0u8], vec![7u8; 100_000]] {
        assert_eq!(decompress(compress(data.clone()).unwrap()).unwrap(), data);
    }
}

#[test]
fn storing_again_writes_the_same() {
    let path = PathBuf::from("case.toml");
    let unreadable = || vec![entry(Value::from(8.383658838626809e-78f64), true), entry(Value::from(2), true)];
    for codec in [OffloadCodec::Zstd, OffloadCodec::Plain] {
        let mut first = Files::new();
        let mut second = Files::new();
        let mut data = TestVectorData { entries: unreadable() };
        store(&mut data, &path, codec, &mut first);
        let mut again = TestVectorData { entries: unreadable() };
        store(&mut again, &path, codec, &mut second);
        assert!(data == again);
        assert_eq!(first.len(), 2);
        for (path, bytes) in first {
            match codec {
                OffloadCodec::Plain => assert_eq!(bytes, second[&path]),
                OffloadCodec::Zstd => assert_eq!(
                    decompress(bytes).unwrap(),
                    decompress(second[&path].clone()).unwrap()
                ),
            }
        }
    }
}
