//! What calls come to: for each operation of a session, what its result has to do with
//! what went in.
use crate::data::{TestVectorData, TestVectorFileFormat};
use crate::entry::{text_view, TestVectorEntry, TestVectorEntryType};
use crate::json::{json_content, same_json, JsonNumber, JsonView};
use crate::laws::is_deterministic;
use crate::session::{
    deserializer_required, finalize_tv_case, initialize_tv_case_from_file, process_entry,
    process_next_entry, processes, FinalizeAction, Mismatch, NotInitialized, ProcessError,
    SessionError, TestMode, TestVecEnv, TestVecSession,
};
use serde_json::Value;
use std::path::PathBuf;
use vstd::prelude::*;
use vstd::std_specs::cmp::PartialEqSpec;

verus! {

// What is seen of values.

/// The view of an optional text is its characters.
pub proof fn law_text_is_seen_whole(text: Option<String>)
    ensures
        text is None ==> text_view(text) is None,
        text matches Some(t) ==> text_view(text) == Some(t@),
{
}

/// The view of an entry shows each of its fields.
pub proof fn law_entry_is_seen_whole(entry: TestVectorEntry)
    ensures
        entry@.entry_type == entry.entry_type,
        entry@.description == text_view(entry.description),
        entry@.name == text_view(entry.name),
        entry@.value == json_content(entry.value),
        entry@.code_location == text_view(entry.code_location),
        entry@.test_vec_set_code_location == text_view(entry.test_vec_set_code_location),
        entry@.offload == entry.offload,
{
}

/// The view of a test vector shows each of its entries.
pub proof fn law_data_is_seen_whole(data: TestVectorData)
    ensures
        data@.len() == data.entries@.len(),
        forall|i: int|
            #![trigger data@[i]]
            0 <= i < data.entries@.len() ==> data@[i] == data.entries@[i]@,
{
}

/// The view of a session shows what it knows.
pub proof fn law_session_is_seen_whole(env: TestVecEnv)
    ensures
        env@.tv_file_path == env.tv_file_path,
        env@.file_format == env.file_format,
        env@.loaded == env.loaded_tv_data@,
        env@.recorded == env.recorded_tv_data@,
        env@.test_mode == env.test_mode,
{
}

/// Equal JSON values are of one kind and hold the same: texts by their characters,
/// arrays place by place, objects key by key, and numbers by their value, where an
/// integer is no floating-point number and the two zeros are one.
pub proof fn law_equal_values_hold_the_same(a: JsonView, b: JsonView)
    ensures
        same_json(a, b) <==> match a {
            JsonView::Null => b is Null,
            JsonView::Bool(x) => b == JsonView::Bool(x),
            JsonView::Text(x) => b == JsonView::Text(x),
            JsonView::Number(JsonNumber::Integer(x)) => b == JsonView::Number(
                JsonNumber::Integer(x),
            ),
            JsonView::Number(JsonNumber::Float(x)) => {
                &&& b matches JsonView::Number(JsonNumber::Float(y))
                &&& x == y || {
                    &&& x == 0 || x == 0x8000_0000_0000_0000
                    &&& y == 0 || y == 0x8000_0000_0000_0000
                }
            },
            JsonView::Array(x) => {
                &&& b matches JsonView::Array(y)
                &&& x.len() == y.len()
                &&& forall|i: int| #![trigger x[i]] 0 <= i < x.len() ==> same_json(x[i], y[i])
            },
            JsonView::Object(x) => {
                &&& b matches JsonView::Object(y)
                &&& x.dom() == y.dom()
                &&& forall|k: Seq<char>|
                    #![trigger x[k]]
                    x.dom().contains(k) ==> same_json(x[k], y[k])
            },
        },
{
}

/// Entries are equal exactly where they have the same kind, texts, flag and an equal
/// value.
pub proof fn law_equal_entries_have_equal_fields(a: TestVectorEntry, b: TestVectorEntry)
    ensures
        a.eq_spec(&b) <==> {
            &&& a.entry_type == b.entry_type
            &&& text_view(a.description) == text_view(b.description)
            &&& text_view(a.name) == text_view(b.name)
            &&& same_json(json_content(a.value), json_content(b.value))
            &&& text_view(a.code_location) == text_view(b.code_location)
            &&& text_view(a.test_vec_set_code_location) == text_view(b.test_vec_set_code_location)
            &&& a.offload == b.offload
        },
{
}

/// Test vectors are equal exactly where they have as many entries and equal entries at
/// each place.
pub proof fn law_equal_vectors_have_equal_entries(a: TestVectorData, b: TestVectorData)
    ensures
        a.eq_spec(&b) <==> {
            &&& a.entries@.len() == b.entries@.len()
            &&& forall|i: int|
                #![trigger a.entries@[i]]
                0 <= i < a.entries@.len() ==> a.entries@[i].eq_spec(&b.entries@[i])
        },
{
    if a.eq_spec(&b) {
        assert forall|i: int|
            #![trigger a.entries@[i]]
            0 <= i < a.entries@.len() implies a.entries@[i].eq_spec(&b.entries@[i]) by {
            assert(a@[i] == a.entries@[i]@);
        }
    }
}

// Observed entries.

/// `process_entry` answers and leaves the session as `processes` says.
pub proof fn law_call_of_process_entry<O, E, D: Fn(&Value) -> Result<O, E>>(
    session: &mut TestVecSession,
    observed: TestVectorEntry,
    deserializer: Option<&D>,
    result: Result<Option<O>, ProcessError<E>>,
)
    requires
        call_ensures(process_entry::<O, E, D>, (session, observed, deserializer), result),
    ensures
        processes(*old(session), observed, deserializer, *final(session), result),
{
}

/// `process_next_entry` hands the value to the serializer. Where that fails, the
/// session is as before; else what it gives is processed, in an entry with the other
/// arguments.
pub proof fn law_call_of_process_next_entry<
    O,
    E,
    S: Fn(&O) -> Result<Value, E>,
    D: Fn(&Value) -> Result<O, E>,
>(
    session: &mut TestVecSession,
    entry_type: TestVectorEntryType,
    description: Option<String>,
    name: Option<String>,
    observed_value: &O,
    code_location: Option<String>,
    test_vec_set_code_location: Option<String>,
    serializer: &S,
    deserializer: Option<&D>,
    offload: bool,
    result: Result<Option<O>, ProcessError<E>>,
)
    requires
        call_ensures(
            process_next_entry::<O, E, S, D>,
            (
                session,
                entry_type,
                description,
                name,
                observed_value,
                code_location,
                test_vec_set_code_location,
                serializer,
                deserializer,
                offload,
            ),
            result,
        ),
    ensures
        exists|serialized: Result<Value, E>|
            {
                &&& #[trigger] call_ensures(*serializer, (observed_value,), serialized)
                &&& serialized matches Err(error) ==> *final(session) == *old(session) && result
                    == Err::<Option<O>, ProcessError<E>>(ProcessError::Serialize(error))
                &&& serialized matches Ok(value) ==> processes(
                    *old(session),
                    TestVectorEntry {
                        entry_type,
                        description,
                        name,
                        value,
                        code_location,
                        test_vec_set_code_location,
                        offload,
                    },
                    deserializer,
                    *final(session),
                    result,
                )
            },
{
}

/// In a `Check` session `process_next_entry` accepts an output exactly where the value
/// that the serializer gives equals that of the loaded output at its place, which has
/// the same name.
pub proof fn law_next_output_is_held<
    O,
    E,
    S: Fn(&O) -> Result<Value, E>,
    D: Fn(&Value) -> Result<O, E>,
>(
    session: &mut TestVecSession,
    entry_type: TestVectorEntryType,
    description: Option<String>,
    name: Option<String>,
    observed_value: &O,
    code_location: Option<String>,
    test_vec_set_code_location: Option<String>,
    serializer: &S,
    deserializer: Option<&D>,
    offload: bool,
    result: Result<Option<O>, ProcessError<E>>,
)
    requires
        call_ensures(
            process_next_entry::<O, E, S, D>,
            (
                session,
                entry_type,
                description,
                name,
                observed_value,
                code_location,
                test_vec_set_code_location,
                serializer,
                deserializer,
                offload,
            ),
            result,
        ),
        old(session).active is Some,
        old(session).active->0.test_mode is Check,
        entry_type is Output,
    ensures
        ({
            let loaded = old(session).active->0.loaded_tv_data.entries@;
            let n = old(session).active->0.recorded_tv_data.entries@.len() as int;
            exists|serialized: Result<Value, E>|
                {
                    &&& #[trigger] call_ensures(*serializer, (observed_value,), serialized)
                    &&& result is Ok <==> {
                        &&& serialized is Ok
                        &&& n < loaded.len()
                        &&& text_view(loaded[n].name) == text_view(name)
                        &&& loaded[n].entry_type is Output
                        &&& same_json(
                            json_content(loaded[n].value),
                            json_content(serialized->Ok_0),
                        )
                    }
                }
        }),
        result matches Ok(answer) ==> answer is None,
{
}

/// What `process_next_entry` gives for a constant is what the deserializer makes of a
/// value: in an `Init` session of the one that the serializer gave, in a `Check`
/// session of the one that the test vector has at this place.
pub proof fn law_next_constant_is_handed_back<
    O,
    E,
    S: Fn(&O) -> Result<Value, E>,
    D: Fn(&Value) -> Result<O, E>,
>(
    session: &mut TestVecSession,
    entry_type: TestVectorEntryType,
    description: Option<String>,
    name: Option<String>,
    observed_value: &O,
    code_location: Option<String>,
    test_vec_set_code_location: Option<String>,
    serializer: &S,
    deserializer: Option<&D>,
    offload: bool,
    result: Result<Option<O>, ProcessError<E>>,
)
    requires
        call_ensures(
            process_next_entry::<O, E, S, D>,
            (
                session,
                entry_type,
                description,
                name,
                observed_value,
                code_location,
                test_vec_set_code_location,
                serializer,
                deserializer,
                offload,
            ),
            result,
        ),
        old(session).active is Some,
        entry_type is Const,
        result is Ok,
    ensures
        result->Ok_0 is Some,
        old(session).active->0.test_mode is Init ==> exists|value: Value|
            {
                &&& #[trigger] call_ensures(*serializer, (observed_value,), Ok::<Value, E>(value))
                &&& call_ensures(*deserializer->0, (&value,), Ok::<O, E>(result->Ok_0->0))
            },
        old(session).active->0.test_mode is Check ==> ({
            let loaded = old(session).active->0.loaded_tv_data.entries@;
            let n = old(session).active->0.recorded_tv_data.entries@.len() as int;
            &&& n < loaded.len()
            &&& text_view(loaded[n].name) == text_view(name)
            &&& loaded[n].entry_type is Const
            &&& call_ensures(
                *deserializer->0,
                (&loaded[n].value,),
                Ok::<O, E>(result->Ok_0->0),
            )
        }),
{
}

/// Without a session nothing is processed.
pub proof fn law_no_session_processes_nothing<O, E, D: Fn(&Value) -> Result<O, E>>(
    before: TestVecSession,
    observed: TestVectorEntry,
    deserializer: Option<&D>,
    after: TestVecSession,
    result: Result<Option<O>, ProcessError<E>>,
)
    requires
        processes(before, observed, deserializer, after, result),
    ensures
        before.active is None <==> result == Err::<Option<O>, ProcessError<E>>(
            ProcessError::NotInitialized,
        ),
        before.active is None <==> after.active is None,
{
}

/// Whatever comes of an observed entry, it is the one entry that the session records,
/// and nothing else of the session changes.
pub proof fn law_observed_entry_is_recorded<O, E, D: Fn(&Value) -> Result<O, E>>(
    before: TestVecSession,
    observed: TestVectorEntry,
    deserializer: Option<&D>,
    after: TestVecSession,
    result: Result<Option<O>, ProcessError<E>>,
)
    requires
        processes(before, observed, deserializer, after, result),
        before.active is Some,
    ensures
        after.active is Some,
        after.active->0.recorded_tv_data.entries@.len()
            == before.active->0.recorded_tv_data.entries@.len() + 1,
        after.active->0.recorded_tv_data.entries@.last() == observed,
        after.active->0.recorded_tv_data.entries@.drop_last()
            == before.active->0.recorded_tv_data.entries@,
        after.active->0.loaded_tv_data == before.active->0.loaded_tv_data,
        after.active->0.tv_file_path == before.active->0.tv_file_path,
        after.active->0.file_format == before.active->0.file_format,
        after.active->0.test_mode == before.active->0.test_mode,
{
    assert(after.active->0.recorded_tv_data.entries@.drop_last()
        =~= before.active->0.recorded_tv_data.entries@);
}

/// In `Check` mode an output is accepted exactly where the loaded test vector has an
/// output at its place, under the same name and with an equal value, whatever the
/// other fields and flags are. Nothing takes the place of its value.
pub proof fn law_check_holds_outputs<O, E, D: Fn(&Value) -> Result<O, E>>(
    before: TestVecSession,
    observed: TestVectorEntry,
    deserializer: Option<&D>,
    after: TestVecSession,
    result: Result<Option<O>, ProcessError<E>>,
)
    requires
        processes(before, observed, deserializer, after, result),
        before.active is Some,
        before.active->0.test_mode is Check,
        observed.entry_type is Output,
    ensures
        ({
            let loaded = before.active->0.loaded_tv_data.entries@;
            let n = before.active->0.recorded_tv_data.entries@.len() as int;
            result is Ok <==> {
                &&& n < loaded.len()
                &&& text_view(loaded[n].name) == text_view(observed.name)
                &&& loaded[n].entry_type is Output
                &&& same_json(json_content(loaded[n].value), json_content(observed.value))
            }
        }),
        result matches Ok(answer) ==> answer is None,
{
}

/// In `Check` mode a constant comes to what the deserializer makes of the value that
/// the loaded test vector has at its place, where that is a constant under the same
/// name; else it is refused.
pub proof fn law_check_hands_recorded_constants_back<O, E, D: Fn(&Value) -> Result<O, E>>(
    before: TestVecSession,
    observed: TestVectorEntry,
    deserializer: Option<&D>,
    after: TestVecSession,
    result: Result<Option<O>, ProcessError<E>>,
)
    requires
        processes(before, observed, deserializer, after, result),
        before.active is Some,
        before.active->0.test_mode is Check,
        observed.entry_type is Const,
    ensures
        ({
            let loaded = before.active->0.loaded_tv_data.entries@;
            let n = before.active->0.recorded_tv_data.entries@.len() as int;
            if n < loaded.len() && text_view(loaded[n].name) == text_view(observed.name)
                && loaded[n].entry_type is Const {
                match result {
                    Ok(Some(constant)) => call_ensures(
                        *deserializer->0,
                        (&loaded[n].value,),
                        Ok::<O, E>(constant),
                    ),
                    Err(ProcessError::DeserializeLoaded(error)) => call_ensures(
                        *deserializer->0,
                        (&loaded[n].value,),
                        Err::<O, E>(error),
                    ),
                    _ => false,
                }
            } else {
                result matches Err(error) && error is Mismatch
            }
        }),
{
}

/// In `Init` mode a constant comes to what the deserializer makes of its own value.
pub proof fn law_init_hands_observed_constants_back<O, E, D: Fn(&Value) -> Result<O, E>>(
    before: TestVecSession,
    observed: TestVectorEntry,
    deserializer: Option<&D>,
    after: TestVecSession,
    result: Result<Option<O>, ProcessError<E>>,
)
    requires
        processes(before, observed, deserializer, after, result),
        before.active is Some,
        before.active->0.test_mode is Init,
        observed.entry_type is Const,
    ensures
        match result {
            Ok(Some(constant)) => call_ensures(
                *deserializer->0,
                (&observed.value,),
                Ok::<O, E>(constant),
            ),
            Err(ProcessError::DeserializeObserved(error)) => call_ensures(
                *deserializer->0,
                (&observed.value,),
                Err::<O, E>(error),
            ),
            _ => false,
        },
{
}

/// In `Init` mode every output is accepted, and nothing takes the place of its value.
pub proof fn law_init_keeps_outputs<O, E, D: Fn(&Value) -> Result<O, E>>(
    before: TestVecSession,
    observed: TestVectorEntry,
    deserializer: Option<&D>,
    after: TestVecSession,
    result: Result<Option<O>, ProcessError<E>>,
)
    requires
        processes(before, observed, deserializer, after, result),
        before.active is Some,
        before.active->0.test_mode is Init,
        observed.entry_type is Output,
    ensures
        result == Ok::<Option<O>, ProcessError<E>>(None),
{
}

/// What a refused entry is refused for: that nothing is left in the test vector, else
/// the name, else the kind, else, of an output, the value. The report holds the entry
/// at its place and the observed one.
pub proof fn law_refusals_name_their_reason<O, E, D: Fn(&Value) -> Result<O, E>>(
    before: TestVecSession,
    observed: TestVectorEntry,
    deserializer: Option<&D>,
    after: TestVecSession,
    result: Result<Option<O>, ProcessError<E>>,
)
    requires
        processes(before, observed, deserializer, after, result),
        before.active is Some,
        result is Err,
        result->Err_0 is Mismatch,
    ensures
        before.active->0.test_mode is Check,
        ({
            let entries = before.active->0.loaded_tv_data.entries@;
            let n = before.active->0.recorded_tv_data.entries@.len() as int;
            match result->Err_0->Mismatch_0 {
                Mismatch::Missing { observed: refused } => refused == observed && n
                    >= entries.len(),
                Mismatch::Name { loaded, observed: refused } => {
                    &&& n < entries.len()
                    &&& loaded == entries[n]
                    &&& refused == observed
                    &&& text_view(loaded.name) != text_view(observed.name)
                },
                Mismatch::EntryType { loaded, observed: refused } => {
                    &&& n < entries.len()
                    &&& loaded == entries[n]
                    &&& refused == observed
                    &&& text_view(loaded.name) == text_view(observed.name)
                    &&& loaded.entry_type != observed.entry_type
                },
                Mismatch::Value { loaded, observed: refused } => {
                    &&& n < entries.len()
                    &&& loaded == entries[n]
                    &&& refused == observed
                    &&& text_view(loaded.name) == text_view(observed.name)
                    &&& loaded.entry_type is Output
                    &&& observed.entry_type is Output
                    &&& !same_json(json_content(loaded.value), json_content(observed.value))
                },
            }
        }),
{
}

/// `TestVecEnv::observe` refuses an entry exactly where a `Check` session has no entry
/// at its place that agrees with it, and gives a value exactly for the constants: in
/// `Init` mode the observed one, in `Check` mode the loaded one. The entry is recorded,
/// and nothing else changes.
pub proof fn law_call_of_observe(
    env: &mut TestVecEnv,
    observed: TestVectorEntry,
    result: Result<Option<Value>, Mismatch>,
)
    requires
        call_ensures(TestVecEnv::observe, (env, observed), result),
    ensures
        ({
            let loaded = old(env).loaded_tv_data.entries@;
            let n = old(env).recorded_tv_data.entries@.len() as int;
            &&& result is Ok <==> {
                ||| old(env).test_mode is Init
                ||| {
                    &&& n < loaded.len()
                    &&& text_view(loaded[n].name) == text_view(observed.name)
                    &&& loaded[n].entry_type == observed.entry_type
                    &&& observed.entry_type is Const || same_json(
                        json_content(loaded[n].value),
                        json_content(observed.value),
                    )
                }
            }
            &&& result matches Ok(answer) ==> (answer is Some <==> observed.entry_type is Const)
            &&& result matches Ok(Some(value)) ==> value == match old(env).test_mode {
                TestMode::Init => observed.value,
                TestMode::Check => loaded[n].value,
            }
        }),
        final(env).recorded_tv_data.entries@.len() == old(env).recorded_tv_data.entries@.len() + 1,
        final(env).recorded_tv_data.entries@.last() == observed,
        final(env).recorded_tv_data.entries@.drop_last() == old(env).recorded_tv_data.entries@,
        final(env).loaded_tv_data == old(env).loaded_tv_data,
        final(env).tv_file_path == old(env).tv_file_path,
        final(env).file_format == old(env).file_format,
        final(env).test_mode == old(env).test_mode,
{
    assert(final(env).recorded_tv_data.entries@.drop_last()
        =~= old(env).recorded_tv_data.entries@);
}

/// What comes of an entry depends on its kind, name and value alone: its description,
/// its code locations and whether it is offloaded make no difference.
pub proof fn law_other_fields_make_no_difference<O, E, D: Fn(&Value) -> Result<O, E>>(
    before: TestVecSession,
    first: TestVectorEntry,
    second: TestVectorEntry,
    deserializer: Option<&D>,
    after_first: TestVecSession,
    first_result: Result<Option<O>, ProcessError<E>>,
    after_second: TestVecSession,
    second_result: Result<Option<O>, ProcessError<E>>,
)
    requires
        processes(before, first, deserializer, after_first, first_result),
        processes(before, second, deserializer, after_second, second_result),
        first.entry_type == second.entry_type,
        text_view(first.name) == text_view(second.name),
        json_content(first.value) == json_content(second.value),
        is_deterministic(deserializer),
        first.entry_type is Const ==> deserializer is Some,
    ensures
        first_result is Ok <==> second_result is Ok,
        first_result is Ok ==> first_result == second_result,
{
}

/// In `Init` mode what comes of an entry does not depend on what was recorded before
/// it, nor on anything else of the session.
pub proof fn law_init_answers_do_not_depend_on_the_past<O, E, D: Fn(&Value) -> Result<O, E>>(
    before: TestVecSession,
    other_before: TestVecSession,
    observed: TestVectorEntry,
    deserializer: Option<&D>,
    after: TestVecSession,
    result: Result<Option<O>, ProcessError<E>>,
    other_after: TestVecSession,
    other_result: Result<Option<O>, ProcessError<E>>,
)
    requires
        before.active is Some,
        before.active->0.test_mode is Init,
        other_before.active is Some,
        other_before.active->0.test_mode is Init,
        processes(before, observed, deserializer, after, result),
        processes(other_before, observed, deserializer, other_after, other_result),
        is_deterministic(deserializer),
        observed.entry_type is Const ==> deserializer is Some,
    ensures
        other_result == result,
{
}

/// In `Check` mode what comes of a constant does not depend on its observed value.
pub proof fn law_check_answers_constants_alike<O, E, D: Fn(&Value) -> Result<O, E>>(
    before: TestVecSession,
    first: TestVectorEntry,
    second: TestVectorEntry,
    deserializer: Option<&D>,
    after_first: TestVecSession,
    first_result: Result<Option<O>, ProcessError<E>>,
    after_second: TestVecSession,
    second_result: Result<Option<O>, ProcessError<E>>,
)
    requires
        before.active is Some,
        before.active->0.test_mode is Check,
        first.entry_type is Const,
        second.entry_type is Const,
        text_view(first.name) == text_view(second.name),
        processes(before, first, deserializer, after_first, first_result),
        processes(before, second, deserializer, after_second, second_result),
        is_deterministic(deserializer),
        deserializer is Some,
    ensures
        first_result is Ok <==> second_result is Ok,
        first_result is Ok ==> first_result == second_result,
{
}

/// What an `Init` session answers to an entry that it records, a `Check` session
/// answers to an entry of that kind and name at the same place, for an output with an
/// equal value.
pub proof fn law_recorded_answer_is_given_again<O, E, D: Fn(&Value) -> Result<O, E>>(
    init: TestVecSession,
    first: TestVectorEntry,
    deserializer: Option<&D>,
    after_init: TestVecSession,
    first_result: Result<Option<O>, ProcessError<E>>,
    check: TestVecSession,
    second: TestVectorEntry,
    after_check: TestVecSession,
    second_result: Result<Option<O>, ProcessError<E>>,
)
    requires
        init.active is Some,
        init.active->0.test_mode is Init,
        processes(init, first, deserializer, after_init, first_result),
        check.active is Some,
        check.active->0.test_mode is Check,
        check.active->0.recorded_tv_data.entries@.len()
            == init.active->0.recorded_tv_data.entries@.len(),
        check.active->0.loaded_tv_data.entries@.len()
            >= after_init.active->0.recorded_tv_data.entries@.len(),
        check.active->0.loaded_tv_data.entries@[init.active->0.recorded_tv_data.entries@.len() as int]
            == after_init.active->0.recorded_tv_data.entries@.last(),
        processes(check, second, deserializer, after_check, second_result),
        second.entry_type == first.entry_type,
        text_view(second.name) == text_view(first.name),
        first.entry_type is Output ==> same_json(
            json_content(first.value),
            json_content(second.value),
        ),
        is_deterministic(deserializer),
        first.entry_type is Const ==> deserializer is Some,
    ensures
        first_result is Ok <==> second_result is Ok,
        first_result is Ok ==> second_result == first_result,
{
}

/// The deserializer is needed exactly for the constants that are not refused.
pub proof fn law_call_of_deserializer_required(
    session: &TestVecSession,
    entry_type: TestVectorEntryType,
    name: &Option<String>,
    result: bool,
)
    requires
        call_ensures(deserializer_required, (session, entry_type, name), result),
    ensures
        result <==> {
            &&& entry_type is Const
            &&& session.active matches Some(env)
            &&& env.test_mode is Check ==> {
                let n = env.recorded_tv_data.entries@.len() as int;
                &&& n < env.loaded_tv_data.entries@.len()
                &&& text_view(env.loaded_tv_data.entries@[n].name) == text_view(*name)
                &&& env.loaded_tv_data.entries@[n].entry_type is Const
            }
        },
{
    if let Some(env) = session.active {
        let n = env.recorded_tv_data.entries@.len() as int;
        if n < env.loaded_tv_data.entries@.len() {
            assert(env@.loaded[n] == env.loaded_tv_data.entries@[n]@);
        }
    }
}

// Beginning and ending a session.

/// A `Check` session loads its file, an `Init` session does not.
pub proof fn law_call_of_loads_file(test_mode: TestMode, result: bool)
    requires
        call_ensures(TestMode::loads_file, (test_mode,), result),
    ensures
        test_mode is Init ==> !result,
        test_mode is Check ==> result,
{
}

/// A session is begun exactly where none is under way and, in `Check` mode, the file
/// was loaded; which of the two failed is reported, and loading comes first. Where
/// none is begun, what was under way stays. The session that begins has the path,
/// format and mode that were given; it has recorded nothing, and holds the loaded
/// entries in `Check` mode and none in `Init` mode.
pub proof fn law_call_of_initialize<E>(
    session: &mut TestVecSession,
    tv_file_path: PathBuf,
    file_format: TestVectorFileFormat,
    test_mode: TestMode,
    stored: Result<TestVectorData, E>,
    result: Result<(), SessionError<E>>,
)
    requires
        call_ensures(
            initialize_tv_case_from_file::<E>,
            (session, tv_file_path, file_format, test_mode, stored),
            result,
        ),
    ensures
        result is Ok <==> old(session).active is None && (test_mode is Check ==> stored is Ok),
        result is Err ==> *final(session) == *old(session),
        test_mode is Check && stored is Err ==> result == Err::<(), SessionError<E>>(
            SessionError::Load(stored->Err_0),
        ),
        result matches Err(SessionError::Load(error)) ==> {
            &&& test_mode is Check
            &&& stored == Err::<TestVectorData, E>(error)
        },
        result matches Err(SessionError::AlreadyInitialized) ==> old(session).active is Some,
        result is Ok ==> {
            &&& final(session).active is Some
            &&& final(session).active->0.tv_file_path == tv_file_path
            &&& final(session).active->0.file_format == file_format
            &&& final(session).active->0.test_mode == test_mode
            &&& final(session).active->0.recorded_tv_data.entries@.len() == 0
        },
        result is Ok && test_mode is Init
            ==> final(session).active->0.loaded_tv_data.entries@.len() == 0,
        result is Ok && test_mode is Check ==> final(session).active->0.loaded_tv_data
            == stored->Ok_0,
{
}

/// An environment becomes the session as it is, where none is under way.
pub proof fn law_call_of_initialize_with<E>(
    session: &mut TestVecSession,
    tv_env: TestVecEnv,
    result: Result<(), SessionError<E>>,
)
    requires
        call_ensures(TestVecEnv::initialize_with::<E>, (session, tv_env), result),
    ensures
        old(session).active is None ==> result is Ok && final(session).active == Some(tv_env),
        old(session).active is Some ==> result == Err::<(), SessionError<E>>(
            SessionError::AlreadyInitialized,
        ) && *final(session) == *old(session),
{
}

/// No session is under way at first.
pub proof fn law_call_of_new(session: TestVecSession)
    requires
        call_ensures(TestVecSession::new, (), session),
    ensures
        session.active is None,
{
}

/// No session is under way once it is released, so that another can be begun.
pub proof fn law_call_of_release(session: &mut TestVecSession)
    requires
        call_ensures(TestVecSession::release, (session,), ()),
    ensures
        final(session).active is None,
{
}

/// Ending a session fails exactly where none is under way. The file is kept in `Check`
/// mode, whatever it holds; in `Init` mode exactly where it holds as many entries as
/// were recorded, and at each place one of the same kind, texts and flag, with an equal
/// value.
pub proof fn law_call_of_finalize(
    session: &TestVecSession,
    stored: Option<&TestVectorData>,
    result: Result<FinalizeAction, NotInitialized>,
)
    requires
        call_ensures(finalize_tv_case, (session, stored), result),
    ensures
        result is Err <==> session.active is None,
        session.active is Some && session.active->0.test_mode is Check ==> result == Ok::<
            FinalizeAction,
            NotInitialized,
        >(FinalizeAction::Keep),
        session.active is Some && session.active->0.test_mode is Init ==> {
            let recorded = session.active->0.recorded_tv_data.entries@;
            result == Ok::<FinalizeAction, NotInitialized>(FinalizeAction::Keep) <==> {
                &&& stored is Some
                &&& stored->0.entries@.len() == recorded.len()
                &&& forall|i: int|
                    #![trigger stored->0.entries@[i]]
                    #![trigger recorded[i]]
                    0 <= i < recorded.len() ==> {
                        let entry = stored->0.entries@[i];
                        &&& entry.entry_type == recorded[i].entry_type
                        &&& text_view(entry.description) == text_view(recorded[i].description)
                        &&& text_view(entry.name) == text_view(recorded[i].name)
                        &&& same_json(json_content(entry.value), json_content(recorded[i].value))
                        &&& text_view(entry.code_location) == text_view(recorded[i].code_location)
                        &&& text_view(entry.test_vec_set_code_location) == text_view(
                            recorded[i].test_vec_set_code_location,
                        )
                        &&& entry.offload == recorded[i].offload
                    }
            }
        },
{
    if session.active is Some && stored is Some {
        let recorded = session.active->0.recorded_tv_data;
        law_equal_vectors_have_equal_entries(*stored->0, recorded);
        assert forall|i: int|
            #![trigger stored->0.entries@[i]]
            #![trigger recorded.entries@[i]]
            0 <= i < recorded.entries@.len() && stored->0.entries@.len()
                == recorded.entries@.len() implies {
            let entry = stored->0.entries@[i];
            entry.eq_spec(&recorded.entries@[i]) <==> {
                &&& entry.entry_type == recorded.entries@[i].entry_type
                &&& text_view(entry.description) == text_view(recorded.entries@[i].description)
                &&& text_view(entry.name) == text_view(recorded.entries@[i].name)
                &&& same_json(json_content(entry.value), json_content(recorded.entries@[i].value))
                &&& text_view(entry.code_location) == text_view(recorded.entries@[i].code_location)
                &&& text_view(entry.test_vec_set_code_location) == text_view(
                    recorded.entries@[i].test_vec_set_code_location,
                )
                &&& entry.offload == recorded.entries@[i].offload
            }
        } by {
            law_equal_entries_have_equal_fields(stored->0.entries@[i], recorded.entries@[i]);
        }
    }
}

/// `update_required` says in `Init` mode whether the file is missing or differs from
/// what was recorded, and in `Check` mode nothing ever is.
pub proof fn law_call_of_update_required(
    env: &TestVecEnv,
    stored: Option<&TestVectorData>,
    result: bool,
)
    requires
        call_ensures(TestVecEnv::update_required, (env, stored), result),
    ensures
        result <==> {
            &&& env.test_mode is Init
            &&& stored is None || !stored->0.eq_spec(&env.recorded_tv_data)
        },
{
}

/// What is to be stored are the recorded entries, each as it is and in their order.
pub proof fn law_call_of_entries_to_store(env: &TestVecEnv, data: TestVectorData)
    requires
        call_ensures(TestVecEnv::entries_to_store, (env,), data),
    ensures
        data.entries@ == env.recorded_tv_data.entries@,
{
}

/// Where the end of an `Init` session keeps the file, a `Check` session over that file
/// refuses none of the entries that the `Init` session recorded, each at its place.
pub proof fn law_kept_file_passes_the_check<O, E, D: Fn(&Value) -> Result<O, E>>(
    init: &TestVecSession,
    stored: TestVectorData,
    i: int,
    before: TestVecSession,
    observed: TestVectorEntry,
    deserializer: Option<&D>,
    after: TestVecSession,
    result: Result<Option<O>, ProcessError<E>>,
)
    requires
        init.active is Some,
        init.active->0.test_mode is Init,
        call_ensures(
            finalize_tv_case,
            (init, Some(&stored)),
            Ok::<FinalizeAction, NotInitialized>(FinalizeAction::Keep),
        ),
        0 <= i < init.active->0.recorded_tv_data.entries@.len(),
        before.active is Some,
        before.active->0.test_mode is Check,
        before.active->0.loaded_tv_data == stored,
        before.active->0.recorded_tv_data.entries@.len() == i,
        observed == init.active->0.recorded_tv_data.entries@[i],
        processes(before, observed, deserializer, after, result),
    ensures
        result matches Err(error) ==> error is DeserializeLoaded,
        observed.entry_type is Output ==> result is Ok,
{
    law_call_of_finalize(
        init,
        Some(&stored),
        Ok::<FinalizeAction, NotInitialized>(FinalizeAction::Keep),
    );
    let entry = stored.entries@[i];
    assert(text_view(entry.name) == text_view(observed.name));
    match observed.entry_type {
        TestVectorEntryType::Output => law_check_holds_outputs(
            before,
            observed,
            deserializer,
            after,
            result,
        ),
        TestVectorEntryType::Const => law_check_hands_recorded_constants_back(
            before,
            observed,
            deserializer,
            after,
            result,
        ),
    }
}

} // verus!
