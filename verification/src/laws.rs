//! What holds of sessions: what is recorded, replayed, refused and stored.
use crate::data::{same_entries, TestVectorFileFormat};
use crate::entry::{same_entry, EntryView, TestVectorEntry};
use crate::json::{json_content, same_json, JsonView};
use crate::session::{
    answers, replayed, replays, verdict, EnvView, Mismatch, ProcessError, TestMode, TestVecEnv,
    Verdict,
};
use serde_json::Value;
use std::path::PathBuf;
use vstd::prelude::*;

verus! {

// Equality of values.

/// Every JSON value equals itself.
pub proof fn law_same_json_reflexive(a: JsonView)
    ensures
        same_json(a, a),
    decreases a,
{
    match a {
        JsonView::Array(items) => {
            assert forall|i: int| #![trigger items[i]] 0 <= i < items.len() implies same_json(
                items[i],
                items[i],
            ) by {
                law_same_json_reflexive(items[i]);
            }
        },
        JsonView::Object(members) => {
            assert forall|k: Seq<char>|
                #![trigger members[k]]
                members.dom().contains(k) implies same_json(members[k], members[k]) by {
                law_same_json_reflexive(members[k]);
            }
        },
        _ => {},
    }
}

/// Equality of JSON values goes both ways.
pub proof fn law_same_json_symmetric(a: JsonView, b: JsonView)
    requires
        same_json(a, b),
    ensures
        same_json(b, a),
    decreases a,
{
    match (a, b) {
        (JsonView::Array(x), JsonView::Array(y)) => {
            assert forall|i: int| #![trigger y[i]] 0 <= i < y.len() implies same_json(
                y[i],
                x[i],
            ) by {
                assert(same_json(x[i], y[i]));
                law_same_json_symmetric(x[i], y[i]);
            }
        },
        (JsonView::Object(x), JsonView::Object(y)) => {
            assert forall|k: Seq<char>| #![trigger y[k]] y.dom().contains(k) implies same_json(
                y[k],
                x[k],
            ) by {
                assert(same_json(x[k], y[k]));
                law_same_json_symmetric(x[k], y[k]);
            }
        },
        _ => {},
    }
}

/// Values that equal a third equal one another.
pub proof fn law_same_json_transitive(a: JsonView, b: JsonView, c: JsonView)
    requires
        same_json(a, b),
        same_json(b, c),
    ensures
        same_json(a, c),
    decreases a,
{
    match (a, b, c) {
        (JsonView::Array(x), JsonView::Array(y), JsonView::Array(z)) => {
            assert forall|i: int| #![trigger x[i]] 0 <= i < x.len() implies same_json(
                x[i],
                z[i],
            ) by {
                assert(same_json(x[i], y[i]));
                assert(same_json(y[i], z[i]));
                law_same_json_transitive(x[i], y[i], z[i]);
            }
        },
        (JsonView::Object(x), JsonView::Object(y), JsonView::Object(z)) => {
            assert forall|k: Seq<char>| #![trigger x[k]] x.dom().contains(k) implies same_json(
                x[k],
                z[k],
            ) by {
                assert(same_json(x[k], y[k]));
                assert(same_json(y[k], z[k]));
                law_same_json_transitive(x[k], y[k], z[k]);
            }
        },
        _ => {},
    }
}

// Recording and replaying.

/// A session after a sequence of observed entries.
pub open spec fn run(env: EnvView, observed: Seq<EntryView>) -> EnvView
    decreases observed.len(),
{
    if observed.len() == 0 {
        env
    } else {
        run(env, observed.drop_last()).observe(observed.last())
    }
}

/// What comes of entry `i` of a sequence of observed entries.
pub open spec fn verdict_at(env: EnvView, observed: Seq<EntryView>, i: int) -> Verdict {
    run(env, observed.take(i)).verdict(observed[i])
}

/// A session records every observed entry, in order and whatever comes of it, and
/// changes nothing else.
pub proof fn law_run_records_everything(env: EnvView, observed: Seq<EntryView>)
    ensures
        run(env, observed) == (EnvView { recorded: env.recorded + observed, ..env }),
    decreases observed.len(),
{
    if observed.len() == 0 {
        assert(env.recorded + observed =~= env.recorded);
    } else {
        law_run_records_everything(env, observed.drop_last());
        assert((env.recorded + observed.drop_last()).push(observed.last()) =~= env.recorded
            + observed);
    }
}

/// Two observed entries agree: the same name, the same kind and, for an output, an
/// equal value.
pub open spec fn agree(recorded: EntryView, observed: EntryView) -> bool {
    &&& recorded.name == observed.name
    &&& recorded.entry_type == observed.entry_type
    &&& recorded.entry_type is Output ==> same_json(recorded.value, observed.value)
}

/// In `Init` mode no entry is refused, and a constant is handed back as it was
/// observed.
pub proof fn law_init_accepts(env: EnvView, observed: EntryView)
    requires
        env.test_mode is Init,
    ensures
        env.verdict(observed).accepts(),
        observed.entry_type is Const ==> env.verdict(observed) == Verdict::Replay(observed.value),
        observed.entry_type is Output ==> env.verdict(observed) == Verdict::Keep,
{
}

/// In `Check` mode an entry is accepted exactly where the loaded test vector has an
/// entry at its place and the two agree.
pub proof fn law_check_accepts_what_agrees(env: EnvView, observed: EntryView)
    requires
        env.test_mode is Check,
    ensures
        env.verdict(observed).accepts() <==> {
            &&& env.recorded.len() < env.loaded.len()
            &&& agree(env.loaded[env.recorded.len() as int], observed)
        },
        env.verdict(observed) is Missing <==> env.recorded.len() >= env.loaded.len(),
{
}

/// In `Check` mode what comes of a constant does not depend on its observed value.
pub proof fn law_check_ignores_observed_constants(
    env: EnvView,
    observed: EntryView,
    value: JsonView,
)
    requires
        env.test_mode is Check,
        observed.entry_type is Const,
    ensures
        env.verdict(observed.with_value(value)) == env.verdict(observed),
{
}

/// A `Check` session over a test vector accepts a whole sequence of entries exactly
/// where it is no longer than the test vector and agrees with it entry by entry.
pub proof fn law_check_run_accepts(
    tv_file_path: PathBuf,
    file_format: TestVectorFileFormat,
    stored: Seq<EntryView>,
    observed: Seq<EntryView>,
)
    ensures
        ({
            let env = EnvView::begun(tv_file_path, file_format, TestMode::Check, stored);
            (forall|i: int|
                0 <= i < observed.len() ==> (#[trigger] verdict_at(env, observed, i)).accepts())
                <==> {
                &&& observed.len() <= stored.len()
                &&& forall|i: int|
                    #![trigger observed[i]]
                    0 <= i < observed.len() ==> agree(stored[i], observed[i])
            }
        }),
{
    let env = EnvView::begun(tv_file_path, file_format, TestMode::Check, stored);
    assert forall|i: int| 0 <= i < observed.len() implies #[trigger] verdict_at(env, observed, i)
        == verdict(TestMode::Check, stored, i, observed[i]) by {
        law_run_records_everything(env, observed.take(i));
    }
    if forall|i: int|
        0 <= i < observed.len() ==> (#[trigger] verdict_at(env, observed, i)).accepts() {
        if observed.len() > stored.len() {
            assert(verdict_at(env, observed, stored.len() as int).accepts());
            assert(false);
        }
        assert forall|i: int| #![trigger observed[i]] 0 <= i < observed.len() implies agree(
            stored[i],
            observed[i],
        ) by {
            assert(verdict_at(env, observed, i).accepts());
        }
    }
}

/// A `Check` session over what an `Init` session recorded answers as that session
/// did, as long as the observed entries agree with the recorded ones: each
/// constant is the recorded one, and every output is accepted.
pub proof fn law_check_replays_init(
    init: EnvView,
    check: EnvView,
    first: Seq<EntryView>,
    second: Seq<EntryView>,
    i: int,
)
    requires
        init.test_mode is Init,
        check.test_mode is Check,
        init.recorded.len() == 0,
        check.recorded.len() == 0,
        check.loaded == run(init, first).recorded,
        second.len() <= first.len(),
        forall|j: int| #![trigger second[j]] 0 <= j < second.len() ==> agree(first[j], second[j]),
        0 <= i < second.len(),
    ensures
        verdict_at(check, second, i) == verdict_at(init, first, i),
        verdict_at(check, second, i).accepts(),
        first[i].entry_type is Const ==> verdict_at(check, second, i) == Verdict::Replay(
            first[i].value,
        ),
{
    law_run_records_everything(init, first);
    assert(run(init, first).recorded =~= first);
    law_run_records_everything(init, first.take(i));
    law_run_records_everything(check, second.take(i));
    assert(agree(first[i], second[i]));
}

/// Code that observes the same entries again, but for the values of constants,
/// passes the check.
pub proof fn law_rerun_passes(
    init: EnvView,
    check: EnvView,
    first: Seq<EntryView>,
    second: Seq<EntryView>,
)
    requires
        init.test_mode is Init,
        check.test_mode is Check,
        init.recorded.len() == 0,
        check.recorded.len() == 0,
        check.loaded == run(init, first).recorded,
        second.len() == first.len(),
        forall|j: int|
            #![trigger second[j]]
            0 <= j < second.len() ==> {
                ||| second[j] == first[j]
                ||| first[j].entry_type is Const && second[j] == first[j].with_value(
                    second[j].value,
                )
            },
    ensures
        forall|i: int|
            0 <= i < second.len() ==> (#[trigger] verdict_at(check, second, i)).accepts(),
{
    assert forall|j: int| #![trigger second[j]] 0 <= j < second.len() implies agree(
        first[j],
        second[j],
    ) by {
        law_same_json_reflexive(first[j].value);
    }
    assert forall|i: int| 0 <= i < second.len() implies (#[trigger] verdict_at(
        check,
        second,
        i,
    )).accepts() by {
        law_check_replays_init(init, check, first, second, i);
    }
}

proof fn lemma_same_entries_reflexive(entries: Seq<EntryView>)
    ensures
        same_entries(entries, entries),
{
    assert forall|i: int| #![trigger entries[i]] 0 <= i < entries.len() implies same_entry(
        entries[i],
        entries[i],
    ) by {
        law_same_json_reflexive(entries[i].value);
    }
}

/// An `Init` session has its file written at the end exactly where the file is
/// missing or unreadable or holds other entries than the session observed, whatever
/// it held when the session began.
pub proof fn law_init_update(
    tv_file_path: PathBuf,
    file_format: TestVectorFileFormat,
    before: Seq<EntryView>,
    observed: Seq<EntryView>,
    stored: Option<Seq<EntryView>>,
)
    ensures
        run(
            EnvView::begun(tv_file_path, file_format, TestMode::Init, before),
            observed,
        ).update_required(stored) <==> match stored {
            Some(entries) => !same_entries(entries, observed),
            None => true,
        },
{
    let env = EnvView::begun(tv_file_path, file_format, TestMode::Init, before);
    law_run_records_everything(env, observed);
    assert(run(env, observed).recorded =~= observed);
}

/// Where the file holds what the session recorded, nothing is written.
pub proof fn law_unchanged_file_is_kept(env: EnvView)
    ensures
        !env.update_required(Some(env.recorded)),
{
    lemma_same_entries_reflexive(env.recorded);
}

/// A `Check` session never has its file written.
pub proof fn law_check_writes_nothing(
    env: EnvView,
    observed: Seq<EntryView>,
    stored: Option<Seq<EntryView>>,
)
    requires
        env.test_mode is Check,
    ensures
        !run(env, observed).update_required(stored),
{
    law_run_records_everything(env, observed);
}

/// A deserializer that gives one result for one JSON value.
pub open spec fn is_deterministic<O, E, D: Fn(&Value) -> Result<O, E>>(
    deserializer: Option<&D>,
) -> bool {
    deserializer matches Some(deserializer) ==> forall|
        v: Value,
        w: Value,
        a: Result<O, E>,
        b: Result<O, E>,
    |
        json_content(v) == json_content(w) && #[trigger] call_ensures(*deserializer, (&v,), a)
            && #[trigger] call_ensures(*deserializer, (&w,), b) ==> a == b
}

/// What `process_next_entry` answered in an `Init` session it answers again in a
/// `Check` session over what was recorded, at each place where the observed entries
/// agree so far: the constant of the first session, or nothing for an output. The
/// deserializer is to be deterministic.
pub proof fn law_check_answers_as_init<O, E, D: Fn(&Value) -> Result<O, E>>(
    init: EnvView,
    check: EnvView,
    first: Seq<EntryView>,
    second: Seq<EntryView>,
    i: int,
    init_env: TestVecEnv,
    check_env: TestVecEnv,
    first_entry: TestVectorEntry,
    second_entry: TestVectorEntry,
    deserializer: Option<&D>,
    first_result: Result<Option<O>, ProcessError<E>>,
    second_result: Result<Option<O>, ProcessError<E>>,
)
    requires
        init.test_mode is Init,
        check.test_mode is Check,
        init.recorded.len() == 0,
        check.recorded.len() == 0,
        check.loaded == run(init, first).recorded,
        second.len() <= first.len(),
        forall|j: int| #![trigger second[j]] 0 <= j < second.len() ==> agree(first[j], second[j]),
        0 <= i < second.len(),
        init_env@ == run(init, first.take(i)),
        check_env@ == run(check, second.take(i)),
        first_entry@ == first[i],
        second_entry@ == second[i],
        is_deterministic(deserializer),
        first[i].entry_type is Const ==> deserializer is Some,
        answers(init_env, first_entry, deserializer, first_result),
        answers(check_env, second_entry, deserializer, second_result),
        first_result is Ok,
    ensures
        second_result == first_result,
{
    law_check_replays_init(init, check, first, second, i);
    law_run_records_everything(init, first);
    assert(run(init, first).recorded =~= first);
    law_run_records_everything(init, first.take(i));
    law_run_records_everything(check, second.take(i));
    let index = check_env.recorded_tv_data.entries@.len() as int;
    assert(check_env@.recorded.len() == i);
    assert(check_env@.loaded[i] == check_env.loaded_tv_data.entries@[index]@);
    assert(check_env@.verdict(second_entry@) == init_env@.verdict(first_entry@));
    if init_env@.verdict(first_entry@) is Replay {
        let v = replayed(init_env, first_entry);
        let w = replayed(check_env, second_entry);
        assert(json_content(v) == json_content(w));
        let a = choose|a: Result<O, E>|
            {
                &&& #[trigger] call_ensures(*deserializer->0, (&v,), a)
                &&& replays(init_env.test_mode, a, first_result)
            };
        let b = choose|b: Result<O, E>|
            {
                &&& #[trigger] call_ensures(*deserializer->0, (&w,), b)
                &&& replays(check_env.test_mode, b, second_result)
            };
        assert(a == b);
    }
}

/// Once a `Check` session has observed as many entries as the test vector has,
/// `process_next_entry` refuses every further one.
pub proof fn law_check_refuses_further_entries<O, E, D: Fn(&Value) -> Result<O, E>>(
    check: EnvView,
    second: Seq<EntryView>,
    check_env: TestVecEnv,
    entry: TestVectorEntry,
    deserializer: Option<&D>,
    result: Result<Option<O>, ProcessError<E>>,
)
    requires
        check.test_mode is Check,
        check.recorded.len() == 0,
        second.len() >= check.loaded.len(),
        check_env@ == run(check, second),
        answers(check_env, entry, deserializer, result),
    ensures
        result == Err::<Option<O>, ProcessError<E>>(
            ProcessError::Mismatch(Mismatch::Missing { observed: entry }),
        ),
{
    law_run_records_everything(check, second);
}

} // verus!
