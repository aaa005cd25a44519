//! What refused entries and failed calls are reported with.
use crate::entry::{text_view, EntryView, TestVectorEntry, TestVectorEntryType};
use crate::json::{json_content, JsonView};
use crate::session::{Mismatch, ProcessError, SessionError};
use serde_json::Value;
use vstd::prelude::*;
use vstd::string::*;

verus! {

/// What `{:?}` writes of an optional string.
pub uninterp spec fn debug_text(text: Option<Seq<char>>) -> Seq<char>;

/// What `{:?}` writes of a JSON value. The members of an object come in the order of
/// their keys, as long as serde_json's feature `preserve_order` is off.
pub uninterp spec fn debug_json(value: JsonView) -> Seq<char>;

/// `format!("{:?}", ..)` on an `Option<String>` is a function of the string.
#[verifier::external_body]
fn format_text(text: &Option<String>) -> (result: String)
    ensures
        result@ == debug_text(text_view(*text)),
{
    format!("{:?}", text)
}

/// `format!("{:?}", ..)` on a `serde_json::Value` is a function of what the value
/// holds.
#[verifier::external_body]
fn format_json(value: &Value) -> (result: String)
    ensures
        result@ == debug_json(json_content(*value)),
{
    format!("{:?}", value)
}

pub open spec fn entry_type_name(entry_type: TestVectorEntryType) -> Seq<char> {
    match entry_type {
        TestVectorEntryType::Const => "Const"@,
        TestVectorEntryType::Output => "Output"@,
    }
}

pub open spec fn flag_name(flag: bool) -> Seq<char> {
    if flag {
        "true"@
    } else {
        "false"@
    }
}

fn format_entry_type(entry_type: TestVectorEntryType) -> (result: &'static str)
    ensures
        result@ == entry_type_name(entry_type),
{
    match entry_type {
        TestVectorEntryType::Const => "Const",
        TestVectorEntryType::Output => "Output",
    }
}

fn format_flag(flag: bool) -> (result: &'static str)
    ensures
        result@ == flag_name(flag),
{
    if flag {
        "true"
    } else {
        "false"
    }
}

/// An entry with all of its fields, written as Rust code has it.
pub open spec fn entry_text(entry: EntryView) -> Seq<char> {
    "TestVectorEntry { entry_type: "@ + entry_type_name(entry.entry_type) + ", description: "@
        + debug_text(entry.description) + ", name: "@ + debug_text(entry.name) + ", value: "@
        + debug_json(entry.value) + ", code_location: "@ + debug_text(entry.code_location)
        + ", test_vec_set_code_location: "@ + debug_text(entry.test_vec_set_code_location)
        + ", offload: "@ + flag_name(entry.offload) + " }"@
}

/// A loaded and an observed entry, side by side.
pub open spec fn difference_text(loaded: EntryView, observed: EntryView) -> Seq<char> {
    "\nloaded name: "@ + debug_text(loaded.name) + "\nobserved name: "@ + debug_text(observed.name)
        + "\nloaded value: "@ + debug_json(loaded.value) + "\nobserved value: "@ + debug_json(
        observed.value,
    ) + "\nloaded entry_type: "@ + entry_type_name(loaded.entry_type) + "\nobserved entry_type: "@
        + entry_type_name(observed.entry_type) + "\n"@
}

/// An entry with all of its fields, written as Rust code has it.
pub fn format_entry(entry: &TestVectorEntry) -> (result: String)
    ensures
        result@ == entry_text(entry@),
{
    let mut text = "TestVectorEntry { entry_type: ".to_owned();
    text.append(format_entry_type(entry.entry_type));
    text.append(", description: ");
    text.append(format_text(&entry.description).as_str());
    text.append(", name: ");
    text.append(format_text(&entry.name).as_str());
    text.append(", value: ");
    text.append(format_json(&entry.value).as_str());
    text.append(", code_location: ");
    text.append(format_text(&entry.code_location).as_str());
    text.append(", test_vec_set_code_location: ");
    text.append(format_text(&entry.test_vec_set_code_location).as_str());
    text.append(", offload: ");
    text.append(format_flag(entry.offload));
    text.append(" }");
    text
}

/// A loaded and an observed entry, side by side.
pub fn format_difference(loaded: &TestVectorEntry, observed: &TestVectorEntry) -> (result: String)
    ensures
        result@ == difference_text(loaded@, observed@),
{
    let mut text = "\nloaded name: ".to_owned();
    text.append(format_text(&loaded.name).as_str());
    text.append("\nobserved name: ");
    text.append(format_text(&observed.name).as_str());
    text.append("\nloaded value: ");
    text.append(format_json(&loaded.value).as_str());
    text.append("\nobserved value: ");
    text.append(format_json(&observed.value).as_str());
    text.append("\nloaded entry_type: ");
    text.append(format_entry_type(loaded.entry_type));
    text.append("\nobserved entry_type: ");
    text.append(format_entry_type(observed.entry_type));
    text.append("\n");
    text
}

impl Mismatch {
    pub open spec fn message_text(self) -> Seq<char> {
        match self {
            Mismatch::Missing { observed } =>
                "Observed value does not exist in loaded test vector: \n observed: "@ + entry_text(
                observed@,
            ),
            Mismatch::Name { loaded, observed } =>
                "Observed value does not match the loaded test vectors name:"@ + difference_text(
                loaded@,
                observed@,
            ),
            Mismatch::EntryType { loaded, observed } =>
                "Observed value does not match the loaded test vectors type:"@ + difference_text(
                loaded@,
                observed@,
            ),
            Mismatch::Value { loaded, observed } =>
                "Observed value does not match the loaded test vectors value:"@ + difference_text(
                loaded@,
                observed@,
            ),
        }
    }

    /// What the refused entry is reported with.
    pub fn message(&self) -> (result: String)
        ensures
            result@ == self.message_text(),
    {
        match self {
            Mismatch::Missing { observed } =>
                "Observed value does not exist in loaded test vector: \n observed: ".to_owned().concat(
                format_entry(observed).as_str(),
            ),
            Mismatch::Name { loaded, observed } =>
                "Observed value does not match the loaded test vectors name:".to_owned().concat(
                format_difference(loaded, observed).as_str(),
            ),
            Mismatch::EntryType { loaded, observed } =>
                "Observed value does not match the loaded test vectors type:".to_owned().concat(
                format_difference(loaded, observed).as_str(),
            ),
            Mismatch::Value { loaded, observed } =>
                "Observed value does not match the loaded test vectors value:".to_owned().concat(
                format_difference(loaded, observed).as_str(),
            ),
        }
    }
}

impl<E> SessionError<E> {
    pub open spec fn context_text(self) -> Seq<char> {
        match self {
            SessionError::Load(_) =>
                "Error loading test vector. You may need to switch to init mode. Internal error: "@,
            SessionError::AlreadyInitialized => "A test vector session is already initialized"@,
        }
    }

    /// What the error is reported with. The error of loading, where there is one,
    /// comes behind it.
    pub fn context(&self) -> (result: String)
        ensures
            result@ == self.context_text(),
    {
        match self {
            SessionError::Load(_) =>
                "Error loading test vector. You may need to switch to init mode. Internal error: ".to_owned(),
            SessionError::AlreadyInitialized =>
                "A test vector session is already initialized".to_owned(),
        }
    }
}

impl<E> ProcessError<E> {
    pub open spec fn context_text(self) -> Seq<char> {
        match self {
            ProcessError::Serialize(_) => Seq::empty(),
            ProcessError::NotInitialized => "No test vector session is initialized"@,
            ProcessError::Mismatch(mismatch) => mismatch.message_text(),
            ProcessError::DeserializeObserved(_) =>
                "Failed to deserialize constant value right after serializing it. There probably is a bug in the TestVectorMomento implementation"@,
            ProcessError::DeserializeLoaded(_) => Seq::empty(),
        }
    }

    /// What the error is reported with. It is empty where the error of the
    /// serializer or deserializer is reported as it is.
    pub fn context(&self) -> (result: String)
        ensures
            result@ == self.context_text(),
    {
        match self {
            ProcessError::Serialize(_) => String::new(),
            ProcessError::NotInitialized => "No test vector session is initialized".to_owned(),
            ProcessError::Mismatch(mismatch) => mismatch.message(),
            ProcessError::DeserializeObserved(_) =>
                "Failed to deserialize constant value right after serializing it. There probably is a bug in the TestVectorMomento implementation".to_owned(),
            ProcessError::DeserializeLoaded(_) => String::new(),
        }
    }
}

} // verus!
