use assert_tv::data::TestVectorData;
use assert_tv::session::{deserializer_required, process_entry};
use assert_tv::{
    finalize_tv_case, initialize_tv_case_from_file, process_next_entry, FinalizeAction, Mismatch,
    NotInitialized, ProcessError, SessionError, TestMode, TestVecSession, TestVectorEntry,
    TestVectorEntryType, TestVectorFileFormat,
};
use serde_json::Value;
use std::path::PathBuf;
use std::str::FromStr;

type Deserializer = fn(&Value) -> Result<u64, String>;

fn serialize(value: &u64) -> Result<Value, String> {
    Ok(Value::String(value.to_string()))
}

fn deserialize(value: &Value) -> Result<u64, String> {
    let text = value.as_str().ok_or("no string".to_string())?;
    u64::from_str(text).map_err(|e| e.to_string())
}

fn refuse(_: &u64) -> Result<Value, String> {
    Err("cannot serialize".to_string())
}

fn refuse_back(_: &Value) -> Result<u64, String> {
    Err("cannot deserialize".to_string())
}

fn entry(entry_type: TestVectorEntryType, name: &str, value: Value) -> TestVectorEntry {
    TestVectorEntry {
        entry_type,
        description: None,
        name: Some(name.to_string()),
        value,
        code_location: Some("src/a.rs:1".to_string()),
        test_vec_set_code_location: None,
        offload: false,
    }
}

fn begin(mode: TestMode, stored: Vec<TestVectorEntry>) -> TestVecSession {
    let mut session = TestVecSession::new();
    initialize_tv_case_from_file::<String>(
        &mut session,
        PathBuf::from("vec.json"),
        TestVectorFileFormat::Json,
        mode,
        Ok(TestVectorData { entries: stored }),
    )
    .unwrap();
    session
}

fn expose(session: &mut TestVecSession, name: &str, value: u64) -> Result<Option<u64>, ProcessError<String>> {
    process_next_entry(
        session,
        TestVectorEntryType::Const,
        Some("an input".to_string()),
        Some(name.to_string()),
        &value,
        None,
        None,
        &serialize,
        Some(&deserialize),
        false,
    )
}

fn check(session: &mut TestVecSession, name: &str, value: u64) -> Result<Option<u64>, ProcessError<String>> {
    process_next_entry(
        session,
        TestVectorEntryType::Output,
        None,
        Some(name.to_string()),
        &value,
        None,
        None,
        &serialize,
        None::<&Deserializer>,
        false,
    )
}

fn recorded(session: &TestVecSession) -> Vec<TestVectorEntry> {
    session.active.as_ref().unwrap().recorded_tv_data.entries.clone()
}

#[test]
fn init_session_records_and_hands_constants_back() {
    let mut session = begin(TestMode::Init, vec![]);
    assert_eq!(expose(&mut session, "rand", 41).unwrap(), Some(41));
    assert_eq!(check(&mut session, "sum", 46).unwrap(), None);
    let entries = recorded(&session);
    assert_eq!(entries.len(), 2);
    assert_eq!(entries[0].name.as_deref(), Some("rand"));
    assert_eq!(entries[0].description.as_deref(), Some("an input"));
    assert_eq!(entries[0].value, Value::String("41".to_string()));
    assert_eq!(entries[0].entry_type, TestVectorEntryType::Const);
    assert_eq!(entries[1].entry_type, TestVectorEntryType::Output);
    assert_eq!(entries[1].value, Value::String("46".to_string()));
}

#[test]
fn check_session_replays_recorded_constants() {
    let mut init = begin(TestMode::Init, vec![]);
    expose(&mut init, "rand", 41).unwrap();
    check(&mut init, "sum", 46).unwrap();

    let mut session = begin(TestMode::Check, recorded(&init));
    assert_eq!(expose(&mut session, "rand", 9999).unwrap(), Some(41));
    assert_eq!(check(&mut session, "sum", 46).unwrap(), None);
    assert_eq!(session.active.as_ref().unwrap().loaded_tv_data.entries.len(), 2);
    assert_eq!(recorded(&session)[0].value, Value::String("9999".to_string()));
}

#[test]
fn check_session_refuses_what_differs() {
    let stored = vec![
        entry(TestVectorEntryType::Const, "a", Value::String("1".to_string())),
        entry(TestVectorEntryType::Const, "b", Value::String("2".to_string())),
        entry(TestVectorEntryType::Output, "c", Value::String("3".to_string())),
    ];
    let mut session = begin(TestMode::Check, stored);
    let name = expose(&mut session, "other", 1).unwrap_err();
    assert!(matches!(name, ProcessError::Mismatch(Mismatch::Name { .. })));
    let kind = check(&mut session, "b", 2).unwrap_err();
    assert!(matches!(kind, ProcessError::Mismatch(Mismatch::EntryType { .. })));
    match check(&mut session, "c", 4).unwrap_err() {
        ProcessError::Mismatch(Mismatch::Value { loaded, observed }) => {
            assert_eq!(loaded.value, Value::String("3".to_string()));
            assert_eq!(observed.value, Value::String("4".to_string()));
        }
        other => panic!("{:?}", other),
    }
    let missing = check(&mut session, "d", 4).unwrap_err();
    assert!(matches!(missing, ProcessError::Mismatch(Mismatch::Missing { .. })));
    // Refused entries are recorded all the same.
    assert_eq!(recorded(&session).len(), 4);
}

#[test]
fn name_is_compared_before_the_kind() {
    let stored = vec![entry(TestVectorEntryType::Const, "a", Value::Null)];
    let mut session = begin(TestMode::Check, stored);
    let error = check(&mut session, "b", 1).unwrap_err();
    assert!(matches!(error, ProcessError::Mismatch(Mismatch::Name { .. })));
}

#[test]
fn metadata_is_not_compared() {
    let mut stored = entry(TestVectorEntryType::Output, "a", Value::String("7".to_string()));
    stored.description = Some("moved".to_string());
    stored.code_location = Some("elsewhere".to_string());
    stored.offload = true;
    let mut session = begin(TestMode::Check, vec![stored]);
    assert_eq!(check(&mut session, "a", 7).unwrap(), None);
}

#[test]
fn the_two_float_zeros_are_one_output() {
    let plus = Value::from(0.0f64);
    let minus = Value::from(-0.0f64);
    let mut session = begin(
        TestMode::Check,
        vec![
            entry(TestVectorEntryType::Output, "a", plus),
            entry(TestVectorEntryType::Output, "a", Value::from(1)),
        ],
    );
    let same = process_entry::<u64, String, Deserializer>(
        &mut session,
        entry(TestVectorEntryType::Output, "a", minus),
        None,
    );
    assert_eq!(same.unwrap(), None);
    let differs = process_entry::<u64, String, Deserializer>(
        &mut session,
        entry(TestVectorEntryType::Output, "a", Value::from(1.0f64)),
        None,
    );
    assert!(differs.is_err());
}

#[test]
fn serializer_failure_leaves_the_session() {
    let mut session = begin(TestMode::Init, vec![]);
    let result = process_next_entry(
        &mut session,
        TestVectorEntryType::Output,
        None,
        None,
        &1u64,
        None,
        None,
        &refuse,
        None::<&Deserializer>,
        false,
    );
    assert!(matches!(result, Err(ProcessError::Serialize(e)) if e == "cannot serialize"));
    assert_eq!(recorded(&session).len(), 0);
}

#[test]
fn deserializer_failure_is_reported_by_mode() {
    let constant = || entry(TestVectorEntryType::Const, "a", Value::Null);
    let mut init = begin(TestMode::Init, vec![]);
    let result = process_entry(&mut init, constant(), Some(&refuse_back));
    assert!(matches!(result, Err(ProcessError::DeserializeObserved(_))));
    let mut checked = begin(TestMode::Check, vec![constant()]);
    let result = process_entry(&mut checked, constant(), Some(&refuse_back));
    assert!(matches!(result, Err(ProcessError::DeserializeLoaded(_))));
    assert_eq!(recorded(&checked).len(), 1);
}

#[test]
fn deserializer_is_required_for_replayed_constants_only() {
    let stored = vec![entry(TestVectorEntryType::Const, "a", Value::Null)];
    let named = Some("a".to_string());
    let other = Some("b".to_string());
    let init = begin(TestMode::Init, vec![]);
    assert!(deserializer_required(&init, TestVectorEntryType::Const, &other));
    assert!(!deserializer_required(&init, TestVectorEntryType::Output, &other));
    let checked = begin(TestMode::Check, stored);
    assert!(deserializer_required(&checked, TestVectorEntryType::Const, &named));
    assert!(!deserializer_required(&checked, TestVectorEntryType::Const, &other));
    assert!(!deserializer_required(&TestVecSession::new(), TestVectorEntryType::Const, &named));
}

#[test]
fn nothing_works_without_a_session() {
    let mut session = TestVecSession::new();
    assert!(matches!(check(&mut session, "a", 1), Err(ProcessError::NotInitialized)));
    assert_eq!(finalize_tv_case(&session, None), Err(NotInitialized));
    assert!(session.active.is_none());
}

#[test]
fn second_session_is_refused_until_the_first_is_released() {
    let mut session = begin(TestMode::Init, vec![]);
    check(&mut session, "a", 1).unwrap();
    let again = initialize_tv_case_from_file::<String>(
        &mut session,
        PathBuf::from("vec.json"),
        TestVectorFileFormat::Json,
        TestMode::Init,
        Ok(TestVectorData::new()),
    );
    assert!(matches!(again, Err(SessionError::AlreadyInitialized)));
    assert_eq!(recorded(&session).len(), 1);
    session.release();
    let third = initialize_tv_case_from_file::<String>(
        &mut session,
        PathBuf::from("vec.json"),
        TestVectorFileFormat::Json,
        TestMode::Init,
        Ok(TestVectorData::new()),
    );
    assert!(third.is_ok());
    assert_eq!(recorded(&session).len(), 0);
}

#[test]
fn load_failure_matters_in_check_mode_only() {
    let mut session = TestVecSession::new();
    let failed = initialize_tv_case_from_file(
        &mut session,
        PathBuf::from("vec.json"),
        TestVectorFileFormat::Json,
        TestMode::Check,
        Err("no such file".to_string()),
    );
    assert!(matches!(failed, Err(SessionError::Load(e)) if e == "no such file"));
    assert!(session.active.is_none());
    let fine = initialize_tv_case_from_file(
        &mut session,
        PathBuf::from("vec.json"),
        TestVectorFileFormat::Yaml,
        TestMode::Init,
        Err("no such file".to_string()),
    );
    assert!(fine.is_ok());
    let env = session.active.as_ref().unwrap();
    assert_eq!(env.tv_file_path, PathBuf::from("vec.json"));
    assert_eq!(env.file_format, TestVectorFileFormat::Yaml);
    assert_eq!(env.test_mode, TestMode::Init);
}

#[test]
fn init_session_starts_empty() {
    let session = begin(TestMode::Init, vec![entry(TestVectorEntryType::Output, "a", Value::Null)]);
    assert_eq!(session.active.as_ref().unwrap().loaded_tv_data.entries.len(), 0);
}

#[test]
fn file_is_written_when_missing_or_changed() {
    let mut session = begin(TestMode::Init, vec![]);
    let empty = TestVectorData::new();
    assert_eq!(finalize_tv_case(&session, None), Ok(FinalizeAction::Store));
    assert_eq!(finalize_tv_case(&session, Some(&empty)), Ok(FinalizeAction::Keep));
    check(&mut session, "a", 1).unwrap();
    assert_eq!(finalize_tv_case(&session, None), Ok(FinalizeAction::Store));
    assert_eq!(finalize_tv_case(&session, Some(&empty)), Ok(FinalizeAction::Store));
    let same = TestVectorData { entries: recorded(&session) };
    assert_eq!(finalize_tv_case(&session, Some(&same)), Ok(FinalizeAction::Keep));
    let mut other = TestVectorData { entries: recorded(&session) };
    other.entries[0].value = Value::from(2);
    assert_eq!(finalize_tv_case(&session, Some(&other)), Ok(FinalizeAction::Store));
}

#[test]
fn file_is_overwritten_when_nothing_was_recorded() {
    let stored = || vec![entry(TestVectorEntryType::Output, "x", Value::from(1))];
    let session = begin(TestMode::Init, stored());
    let file = TestVectorData { entries: stored() };
    assert_eq!(finalize_tv_case(&session, Some(&file)), Ok(FinalizeAction::Store));
    assert_eq!(session.active.as_ref().unwrap().entries_to_store().entries.len(), 0);
}

#[test]
fn check_session_writes_nothing() {
    let mut session = begin(TestMode::Check, vec![]);
    assert!(check(&mut session, "a", 1).is_err());
    assert_eq!(finalize_tv_case(&session, Some(&TestVectorData::new())), Ok(FinalizeAction::Keep));
    assert_eq!(finalize_tv_case(&session, None), Ok(FinalizeAction::Keep));
}

#[test]
fn check_session_answers_as_the_recording_one() {
    let mut init = begin(TestMode::Init, vec![]);
    let first = [expose(&mut init, "a", 1).unwrap(), check(&mut init, "b", 2).unwrap()];
    let mut session = begin(TestMode::Check, recorded(&init));
    let second = [expose(&mut session, "a", 7).unwrap(), check(&mut session, "b", 2).unwrap()];
    assert_eq!(second, first);
    assert!(matches!(
        check(&mut session, "c", 3),
        Err(ProcessError::Mismatch(Mismatch::Missing { .. }))
    ));
}

#[test]
fn entries_compare_by_every_field() {
    let a = entry(TestVectorEntryType::Const, "a", Value::from(1));
    assert!(a == a.clone());
    let mut b = a.clone();
    b.offload = true;
    assert!(a != b);
    let mut b = a.clone();
    b.code_location = None;
    assert!(a != b);
    let mut b = a.clone();
    b.value = Value::from(2);
    assert!(a != b);
    let one = TestVectorData { entries: vec![a.clone()] };
    let two = TestVectorData { entries: vec![a.clone(), a] };
    assert!(one != two);
    assert!(one == one);
}
