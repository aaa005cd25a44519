use assert_tv::message::{format_difference, format_entry};
use assert_tv::{Mismatch, ProcessError, SessionError, TestVectorEntry, TestVectorEntryType};
use serde_json::Value;

fn entry(entry_type: TestVectorEntryType, name: Option<&str>, value: Value) -> TestVectorEntry {
    TestVectorEntry {
        entry_type,
        description: Some("say \"hi\"".to_string()),
        name: name.map(|n| n.to_string()),
        value,
        code_location: None,
        test_vec_set_code_location: Some("a.rs:3".to_string()),
        offload: true,
    }
}

#[test]
fn entry_is_written_as_debug_writes_it() {
    let entry = entry(TestVectorEntryType::Output, Some("x"), Value::from(1.5f64));
    assert_eq!(format_entry(&entry), format!("{:?}", entry));
    assert_eq!(
        format_entry(&entry),
        "TestVectorEntry { entry_type: Output, description: Some(\"say \\\"hi\\\"\"), \
         name: Some(\"x\"), value: Number(1.5), code_location: None, \
         test_vec_set_code_location: Some(\"a.rs:3\"), offload: true }"
    );
}

#[test]
fn difference_has_both_sides() {
    let loaded = entry(TestVectorEntryType::Const, None, Value::Null);
    let observed = entry(TestVectorEntryType::Output, Some("x"), Value::from("v"));
    assert_eq!(
        format_difference(&loaded, &observed),
        "\nloaded name: None\nobserved name: Some(\"x\")\nloaded value: Null\nobserved value: \
         String(\"v\")\nloaded entry_type: Const\nobserved entry_type: Output\n"
    );
}

#[test]
fn messages_say_what_differs() {
    let loaded = || entry(TestVectorEntryType::Const, None, Value::Null);
    let observed = || entry(TestVectorEntryType::Const, Some("x"), Value::from(true));
    let difference = format_difference(&loaded(), &observed());
    let message = |mismatch: Mismatch| mismatch.message();
    assert_eq!(
        message(Mismatch::Missing { observed: observed() }),
        format!(
            "Observed value does not exist in loaded test vector: \n observed: {:?}",
            observed()
        )
    );
    assert_eq!(
        message(Mismatch::Name { loaded: loaded(), observed: observed() }),
        format!("Observed value does not match the loaded test vectors name:{}", difference)
    );
    assert_eq!(
        message(Mismatch::EntryType { loaded: loaded(), observed: observed() }),
        format!("Observed value does not match the loaded test vectors type:{}", difference)
    );
    assert_eq!(
        message(Mismatch::Value { loaded: loaded(), observed: observed() }),
        format!("Observed value does not match the loaded test vectors value:{}", difference)
    );
}

#[test]
fn contexts_say_what_failed() {
    let load = SessionError::Load("no such file");
    assert_eq!(
        format!("{}{}", load.context(), "no such file"),
        "Error loading test vector. You may need to switch to init mode. Internal error: no such file"
    );
    let active = SessionError::<&str>::AlreadyInitialized;
    assert_eq!(active.context(), "A test vector session is already initialized");
    assert_eq!(
        ProcessError::DeserializeObserved("bad").context(),
        "Failed to deserialize constant value right after serializing it. \
         There probably is a bug in the TestVectorMomento implementation"
    );
    assert_eq!(ProcessError::DeserializeLoaded("bad").context(), "");
    assert_eq!(ProcessError::Serialize("bad").context(), "");
    assert_eq!(
        ProcessError::<&str>::NotInitialized.context(),
        "No test vector session is initialized"
    );
    let observed = entry(TestVectorEntryType::Output, None, Value::Null);
    let mismatch = Mismatch::Missing { observed };
    let message = mismatch.message();
    assert_eq!(ProcessError::<&str>::Mismatch(mismatch).context(), message);
}
