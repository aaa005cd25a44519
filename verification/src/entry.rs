//! The entries of a test vector.
use crate::json::{json_content, json_equal, same_json, JsonView};
use serde_json::Value;
use vstd::prelude::*;

verus! {

/// Kind of entry stored in a test vector file.
#[derive(Clone, Copy, PartialEq, Eq, Structural, Debug)]
pub enum TestVectorEntryType {
    /// Constant input captured and, in `Check` mode, injected back.
    Const,
    /// Output that is validated against the stored value in `Check` mode.
    Output,
}

/// One observed value, with what is known of it.
#[derive(Debug)]
pub struct TestVectorEntry {
    pub entry_type: TestVectorEntryType,
    pub description: Option<String>,
    pub name: Option<String>,
    pub value: Value,
    pub code_location: Option<String>,
    pub test_vec_set_code_location: Option<String>,
    /// Whether the value is kept in a sidecar file.
    pub offload: bool,
}

pub struct EntryView {
    pub entry_type: TestVectorEntryType,
    pub description: Option<Seq<char>>,
    pub name: Option<Seq<char>>,
    pub value: JsonView,
    pub code_location: Option<Seq<char>>,
    pub test_vec_set_code_location: Option<Seq<char>>,
    pub offload: bool,
}

pub open spec fn text_view(text: Option<String>) -> Option<Seq<char>> {
    match text {
        Some(text) => Some(text@),
        None => None,
    }
}

impl View for TestVectorEntry {
    type V = EntryView;

    open spec fn view(&self) -> EntryView {
        EntryView {
            entry_type: self.entry_type,
            description: text_view(self.description),
            name: text_view(self.name),
            value: json_content(self.value),
            code_location: text_view(self.code_location),
            test_vec_set_code_location: text_view(self.test_vec_set_code_location),
            offload: self.offload,
        }
    }
}

impl EntryView {
    /// The entry with another value.
    pub open spec fn with_value(self, value: JsonView) -> EntryView {
        EntryView { value, ..self }
    }
}

/// Entries are equal where each of their fields is, values by `same_json`.
pub open spec fn same_entry(a: EntryView, b: EntryView) -> bool {
    same_json(a.value, b.value) && a.with_value(b.value) == b
}

pub(crate) fn same_text(a: &Option<String>, b: &Option<String>) -> (result: bool)
    ensures
        result == (text_view(*a) == text_view(*b)),
{
    match (a, b) {
        (Some(a), Some(b)) => *a == *b,
        (None, None) => true,
        _ => false,
    }
}

pub(crate) fn clone_text(text: &Option<String>) -> (result: Option<String>)
    ensures
        result == *text,
{
    match text {
        Some(text) => Some(text.clone()),
        None => None,
    }
}

impl Clone for TestVectorEntry {
    fn clone(&self) -> (result: Self)
        ensures
            result == *self,
    {
        TestVectorEntry {
            entry_type: self.entry_type,
            description: clone_text(&self.description),
            name: clone_text(&self.name),
            value: self.value.clone(),
            code_location: clone_text(&self.code_location),
            test_vec_set_code_location: clone_text(&self.test_vec_set_code_location),
            offload: self.offload,
        }
    }
}

impl PartialEq for TestVectorEntry {
    fn eq(&self, other: &Self) -> (result: bool) {
        self.entry_type == other.entry_type && same_text(&self.description, &other.description)
            && same_text(&self.name, &other.name) && json_equal(&self.value, &other.value)
            && same_text(&self.code_location, &other.code_location) && same_text(
            &self.test_vec_set_code_location,
            &other.test_vec_set_code_location,
        ) && self.offload == other.offload
    }
}

impl vstd::std_specs::cmp::PartialEqSpecImpl for TestVectorEntry {
    open spec fn obeys_eq_spec() -> bool {
        true
    }

    open spec fn eq_spec(&self, other: &Self) -> bool {
        same_entry(self@, other@)
    }
}

impl Eq for TestVectorEntry {

}

/// Whether the flag `offload` is left out of an entry's record.
pub fn is_false(v: &bool) -> (result: bool)
    ensures
        result == !*v,
{
    !*v
}

} // verus!
