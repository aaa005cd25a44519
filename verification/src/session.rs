//! Test-vector sessions: what is observed is recorded, and in `Check` mode held
//! against what was recorded before.
use crate::data::{data_view, same_entries, TestVectorData, TestVectorFileFormat};
use crate::entry::{same_text, text_view, EntryView, TestVectorEntry, TestVectorEntryType};
use crate::json::{json_equal, same_json, JsonView};
use serde_json::Value;
use std::path::PathBuf;
use vstd::prelude::*;

verus! {

/// What a session does with the entries that it observes.
#[derive(Clone, Copy, PartialEq, Eq, Structural, Debug)]
pub enum TestMode {
    /// Records them.
    Init,
    /// Holds them against the entries that the test vector file has.
    Check,
}

impl TestMode {
    /// Whether a session begins with the entries of its test vector file.
    pub fn loads_file(self) -> (result: bool)
        ensures
            result == (self is Check),
    {
        match self {
            TestMode::Init => false,
            TestMode::Check => true,
        }
    }
}

/// Environment holding the currently loaded and recorded test vectors.
#[derive(Debug)]
pub struct TestVecEnv {
    pub tv_file_path: PathBuf,
    pub file_format: TestVectorFileFormat,
    pub loaded_tv_data: TestVectorData,
    pub recorded_tv_data: TestVectorData,
    pub test_mode: TestMode,
}

/// The place of the session that is under way, if one is.
#[derive(Debug)]
pub struct TestVecSession {
    pub active: Option<TestVecEnv>,
}

/// Why a session cannot be begun or used.
#[derive(Debug)]
pub enum SessionError<E> {
    /// The test vector file could not be loaded.
    Load(E),
    /// A session is under way already.
    AlreadyInitialized,
}

/// No session is under way.
#[derive(Clone, Copy, PartialEq, Eq, Structural, Debug)]
pub struct NotInitialized;

/// Why an observed entry is refused.
#[derive(Debug)]
pub enum Mismatch {
    /// The test vector has no entry at this place.
    Missing { observed: TestVectorEntry },
    Name { loaded: TestVectorEntry, observed: TestVectorEntry },
    EntryType { loaded: TestVectorEntry, observed: TestVectorEntry },
    Value { loaded: TestVectorEntry, observed: TestVectorEntry },
}

/// Why an observed value cannot be processed.
#[derive(Debug)]
pub enum ProcessError<E> {
    /// The value could not be serialized.
    Serialize(E),
    /// No session is under way.
    NotInitialized,
    /// The entry is refused.
    Mismatch(Mismatch),
    /// A constant could not be deserialized right after it was serialized.
    DeserializeObserved(E),
    /// The constant in the test vector could not be deserialized.
    DeserializeLoaded(E),
}

/// What comes of an observed entry.
pub enum Verdict {
    /// The entry stands, and this constant takes the place of the observed value.
    Replay(JsonView),
    /// The entry stands, and the observed value stays.
    Keep,
    Missing,
    NameMismatch,
    TypeMismatch,
    ValueMismatch,
}

impl Verdict {
    pub open spec fn accepts(self) -> bool {
        self is Replay || self is Keep
    }
}

/// A constant is replayed from the entry that is held to be right.
pub open spec fn replay(entry: EntryView) -> Verdict {
    match entry.entry_type {
        TestVectorEntryType::Const => Verdict::Replay(entry.value),
        TestVectorEntryType::Output => Verdict::Keep,
    }
}

/// An observed entry against the loaded one: names come first, then kinds, then
/// the values of outputs. The values of constants are not compared.
pub open spec fn compare(loaded: EntryView, observed: EntryView) -> Verdict {
    if loaded.name != observed.name {
        Verdict::NameMismatch
    } else if loaded.entry_type != observed.entry_type {
        Verdict::TypeMismatch
    } else if loaded.entry_type is Output && !same_json(loaded.value, observed.value) {
        Verdict::ValueMismatch
    } else {
        replay(loaded)
    }
}

/// What comes of the entry that is observed after `index` others.
pub open spec fn verdict(
    mode: TestMode,
    loaded: Seq<EntryView>,
    index: int,
    observed: EntryView,
) -> Verdict {
    match mode {
        TestMode::Init => replay(observed),
        TestMode::Check => if index < loaded.len() {
            compare(loaded[index], observed)
        } else {
            Verdict::Missing
        },
    }
}

/// What a session knows.
pub struct EnvView {
    pub tv_file_path: PathBuf,
    pub file_format: TestVectorFileFormat,
    pub loaded: Seq<EntryView>,
    pub recorded: Seq<EntryView>,
    pub test_mode: TestMode,
}

impl View for TestVecEnv {
    type V = EnvView;

    open spec fn view(&self) -> EnvView {
        EnvView {
            tv_file_path: self.tv_file_path,
            file_format: self.file_format,
            loaded: self.loaded_tv_data@,
            recorded: self.recorded_tv_data@,
            test_mode: self.test_mode,
        }
    }
}

impl EnvView {
    /// A session that begins: nothing is recorded, and in `Init` mode nothing is
    /// loaded either.
    pub open spec fn begun(
        tv_file_path: PathBuf,
        file_format: TestVectorFileFormat,
        test_mode: TestMode,
        stored: Seq<EntryView>,
    ) -> EnvView {
        EnvView {
            tv_file_path,
            file_format,
            loaded: match test_mode {
                TestMode::Init => Seq::empty(),
                TestMode::Check => stored,
            },
            recorded: Seq::empty(),
            test_mode,
        }
    }

    /// What comes of the next observed entry.
    pub open spec fn verdict(self, observed: EntryView) -> Verdict {
        verdict(self.test_mode, self.loaded, self.recorded.len() as int, observed)
    }

    /// The session after the next observed entry, whatever came of it.
    pub open spec fn observe(self, observed: EntryView) -> EnvView {
        EnvView { recorded: self.recorded.push(observed), ..self }
    }

    /// Whether the test vector file is to be written at the end, where loading it
    /// comes to `stored`: in `Init` mode, where it is missing or unreadable or holds
    /// other entries than the recorded ones.
    pub open spec fn update_required(self, stored: Option<Seq<EntryView>>) -> bool {
        self.test_mode is Init && match stored {
            Some(entries) => !same_entries(entries, self.recorded),
            None => true,
        }
    }
}

/// `result` says what `verdict` says, with the entries that it is about.
pub open spec fn reports(
    env: TestVecEnv,
    observed: TestVectorEntry,
    result: Result<Option<Value>, Mismatch>,
) -> bool {
    let index = env.recorded_tv_data.entries@.len() as int;
    let loaded_entry = env.loaded_tv_data.entries@[index];
    match env@.verdict(observed@) {
        Verdict::Replay(_) => result == Ok::<Option<Value>, Mismatch>(
            Some(
                match env.test_mode {
                    TestMode::Init => observed.value,
                    TestMode::Check => loaded_entry.value,
                },
            ),
        ),
        Verdict::Keep => result == Ok::<Option<Value>, Mismatch>(None),
        Verdict::Missing => result == Err::<Option<Value>, Mismatch>(
            Mismatch::Missing { observed },
        ),
        Verdict::NameMismatch => result == Err::<Option<Value>, Mismatch>(
            Mismatch::Name { loaded: loaded_entry, observed },
        ),
        Verdict::TypeMismatch => result == Err::<Option<Value>, Mismatch>(
            Mismatch::EntryType { loaded: loaded_entry, observed },
        ),
        Verdict::ValueMismatch => result == Err::<Option<Value>, Mismatch>(
            Mismatch::Value { loaded: loaded_entry, observed },
        ),
    }
}

/// The value that stands for an entry that is held to be right.
fn replayed_value(entry: &TestVectorEntry) -> (result: Option<Value>)
    ensures
        result == (match entry.entry_type {
            TestVectorEntryType::Const => Some(entry.value),
            TestVectorEntryType::Output => None,
        }),
{
    match entry.entry_type {
        TestVectorEntryType::Const => Some(entry.value.clone()),
        TestVectorEntryType::Output => None,
    }
}

impl TestVecEnv {
    /// Takes in the next observed entry. It is recorded, whatever comes of it.
    pub fn observe(&mut self, observed: TestVectorEntry) -> (result: Result<
        Option<Value>,
        Mismatch,
    >)
        ensures
            reports(*old(self), observed, result),
            final(self).recorded_tv_data.entries@ == old(self).recorded_tv_data.entries@.push(
                observed,
            ),
            final(self).loaded_tv_data == old(self).loaded_tv_data,
            final(self).tv_file_path == old(self).tv_file_path,
            final(self).file_format == old(self).file_format,
            final(self).test_mode == old(self).test_mode,
            final(self)@ == old(self)@.observe(observed@),
    {
        let entry_index: usize = self.recorded_tv_data.entries.len();
        self.recorded_tv_data.entries.push(observed.clone());
        assert(self.recorded_tv_data@ =~= old(self).recorded_tv_data@.push(observed@));
        match self.test_mode {
            TestMode::Init => Ok(replayed_value(&observed)),
            TestMode::Check => {
                if entry_index >= self.loaded_tv_data.entries.len() {
                    return Err(Mismatch::Missing { observed });
                }
                let loaded = self.loaded_tv_data.entries[entry_index].clone();
                assert(self.loaded_tv_data@[entry_index as int] == loaded@);
                if !same_text(&loaded.name, &observed.name) {
                    return Err(Mismatch::Name { loaded, observed });
                }
                if loaded.entry_type != observed.entry_type {
                    return Err(Mismatch::EntryType { loaded, observed });
                }
                if loaded.entry_type == TestVectorEntryType::Output && !json_equal(
                    &loaded.value,
                    &observed.value,
                ) {
                    return Err(Mismatch::Value { loaded, observed });
                }
                Ok(replayed_value(&loaded))
            },
        }
    }

    /// Whether the test vector file is to be written at the end of the session, where
    /// loading it comes to `stored`: in `Init` mode, where it is missing or unreadable
    /// or holds other entries than the recorded ones.
    pub fn update_required(&self, stored: Option<&TestVectorData>) -> (result: bool)
        ensures
            result == self@.update_required(data_view(stored)),
    {
        match self.test_mode {
            TestMode::Check => false,
            TestMode::Init => match stored {
                Some(data) => *data != self.recorded_tv_data,
                None => true,
            },
        }
    }

    /// A copy of the recorded entries, to be stored. Storing blanks the entries that
    /// have a sidecar file; those of the session stay as they are.
    pub fn entries_to_store(&self) -> (data: TestVectorData)
        ensures
            data.entries@ == self.recorded_tv_data.entries@,
            data@ == self@.recorded,
    {
        let mut entries: Vec<TestVectorEntry> = Vec::new();
        let mut i: usize = 0;
        while i < self.recorded_tv_data.entries.len()
            invariant
                i <= self.recorded_tv_data.entries@.len(),
                entries@ == self.recorded_tv_data.entries@.take(i as int),
            decreases self.recorded_tv_data.entries@.len() - i,
        {
            entries.push(self.recorded_tv_data.entries[i].clone());
            i += 1;
        }
        assert(entries@ =~= self.recorded_tv_data.entries@);
        TestVectorData { entries }
    }
}

impl TestVecSession {
    /// No session is under way.
    pub fn new() -> (session: Self)
        ensures
            session.active is None,
    {
        TestVecSession { active: None }
    }

    /// Ends the session that is under way, if one is.
    pub fn release(&mut self)
        ensures
            final(self).active is None,
    {
        self.active = None;
    }
}

impl TestVecEnv {
    /// Begins a session. A session that is under way already stays as it is.
    pub fn initialize_with<E>(session: &mut TestVecSession, tv_env: TestVecEnv) -> (result: Result<
        (),
        SessionError<E>,
    >)
        ensures
            match old(session).active {
                Some(_) => *final(session) == *old(session) && result == Err::<(), SessionError<E>>(
                    SessionError::AlreadyInitialized,
                ),
                None => final(session).active == Some(tv_env) && result is Ok,
            },
    {
        if session.active.is_some() {
            return Err(SessionError::AlreadyInitialized);
        }
        session.active = Some(tv_env);
        Ok(())
    }
}

/// Create a test-vector session from the given file and mode. `stored` is what
/// loading the file came to; in `Init` mode it is not looked at.
///
/// - In `Init`, starts with an empty in-memory vector, which is written on finalize
///   if the file is missing or changed.
/// - In `Check`, uses the stored entries for validation.
pub fn initialize_tv_case_from_file<E>(
    session: &mut TestVecSession,
    tv_file_path: PathBuf,
    file_format: TestVectorFileFormat,
    test_mode: TestMode,
    stored: Result<TestVectorData, E>,
) -> (result: Result<(), SessionError<E>>)
    ensures
        match (test_mode, stored) {
            (TestMode::Check, Err(error)) => *final(session) == *old(session) && result == Err::<
                (),
                SessionError<E>,
            >(SessionError::Load(error)),
            _ => match old(session).active {
                Some(_) => *final(session) == *old(session) && result == Err::<
                    (),
                    SessionError<E>,
                >(SessionError::AlreadyInitialized),
                None => {
                    &&& result is Ok
                    &&& final(session).active is Some
                    &&& final(session).active->0@ == EnvView::begun(
                        tv_file_path,
                        file_format,
                        test_mode,
                        match stored {
                            Ok(data) => data@,
                            Err(_) => Seq::empty(),
                        },
                    )
                    &&& final(session).active->0.tv_file_path == tv_file_path
                    &&& final(session).active->0.file_format == file_format
                    &&& final(session).active->0.test_mode == test_mode
                    &&& final(session).active->0.recorded_tv_data.entries@.len() == 0
                    &&& test_mode is Init
                        ==> final(session).active->0.loaded_tv_data.entries@.len() == 0
                    &&& test_mode is Check ==> final(session).active->0.loaded_tv_data
                        == stored->Ok_0
                },
            },
        },
{
    let loaded_tv_data = match test_mode {
        TestMode::Init => TestVectorData::new(),
        TestMode::Check => match stored {
            Ok(data) => data,
            Err(error) => return Err(SessionError::Load(error)),
        },
    };
    let tv_env = TestVecEnv {
        tv_file_path,
        file_format,
        loaded_tv_data,
        recorded_tv_data: TestVectorData::new(),
        test_mode,
    };
    TestVecEnv::initialize_with(session, tv_env)
}

/// What the end of a session asks for.
#[derive(Clone, Copy, PartialEq, Eq, Structural, Debug)]
pub enum FinalizeAction {
    /// The test vector file stays as it is.
    Keep,
    /// The recorded entries are to be stored.
    Store,
}

/// Finalize the current test-vector session. `stored` is what loading the session's
/// file comes to now, sidecar files included, and `None` where the file is missing
/// or unreadable; in `Check` mode it is not looked at.
///
/// In `Init` mode, asks for the recorded entries to be written to disk
/// (overwriting the file) when content changed or the file does not exist. In
/// `Check` mode, this is a no-op.
pub fn finalize_tv_case(
    session: &TestVecSession,
    stored: Option<&TestVectorData>,
) -> (result: Result<FinalizeAction, NotInitialized>)
    ensures
        result == (match session.active {
            None => Err(NotInitialized),
            Some(env) => Ok(
                if env@.update_required(data_view(stored)) {
                    FinalizeAction::Store
                } else {
                    FinalizeAction::Keep
                },
            ),
        }),
{
    match &session.active {
        None => Err(NotInitialized),
        Some(tv_env) => if tv_env.update_required(stored) {
            Ok(FinalizeAction::Store)
        } else {
            Ok(FinalizeAction::Keep)
        },
    }
}

/// A constant under this name would be replayed, so its deserializer is called.
pub open spec fn deserializes(
    session: TestVecSession,
    entry_type: TestVectorEntryType,
    name: Option<Seq<char>>,
) -> bool {
    &&& entry_type is Const
    &&& session.active matches Some(env)
    &&& env.test_mode is Init || {
        let index = env@.recorded.len() as int;
        &&& index < env@.loaded.len()
        &&& env@.loaded[index].name == name
        &&& env@.loaded[index].entry_type is Const
    }
}

/// Whether the deserializer is called for an entry of this kind and name.
pub fn deserializer_required(
    session: &TestVecSession,
    entry_type: TestVectorEntryType,
    name: &Option<String>,
) -> (result: bool)
    ensures
        result == deserializes(*session, entry_type, text_view(*name)),
{
    match &session.active {
        None => false,
        Some(tv_env) => entry_type == TestVectorEntryType::Const && match tv_env.test_mode {
            TestMode::Init => true,
            TestMode::Check => {
                let index: usize = tv_env.recorded_tv_data.entries.len();
                index < tv_env.loaded_tv_data.entries.len() && same_text(
                    &tv_env.loaded_tv_data.entries[index].name,
                    name,
                ) && tv_env.loaded_tv_data.entries[index].entry_type == TestVectorEntryType::Const
            },
        },
    }
}

/// The constant that a session replays for an observed entry.
pub open spec fn replayed(env: TestVecEnv, observed: TestVectorEntry) -> Value {
    match env.test_mode {
        TestMode::Init => observed.value,
        TestMode::Check => env.loaded_tv_data.entries@[env.recorded_tv_data.entries@.len() as int].value,
    }
}

/// What comes of deserializing a replayed constant.
pub open spec fn replays<O, E>(
    test_mode: TestMode,
    deserialized: Result<O, E>,
    result: Result<Option<O>, ProcessError<E>>,
) -> bool {
    match (deserialized, test_mode) {
        (Ok(value), _) => result == Ok::<Option<O>, ProcessError<E>>(Some(value)),
        (Err(error), TestMode::Init) => result == Err::<Option<O>, ProcessError<E>>(
            ProcessError::DeserializeObserved(error),
        ),
        (Err(error), TestMode::Check) => result == Err::<Option<O>, ProcessError<E>>(
            ProcessError::DeserializeLoaded(error),
        ),
    }
}

/// `result` is what a session answers to an observed entry.
pub open spec fn answers<O, E, D: Fn(&Value) -> Result<O, E>>(
    env: TestVecEnv,
    observed: TestVectorEntry,
    deserializer: Option<&D>,
    result: Result<Option<O>, ProcessError<E>>,
) -> bool {
    match env@.verdict(observed@) {
        Verdict::Replay(_) => exists|deserialized: Result<O, E>|
            {
                &&& #[trigger] call_ensures(
                    *deserializer->0,
                    (&replayed(env, observed),),
                    deserialized,
                )
                &&& replays(env.test_mode, deserialized, result)
            },
        Verdict::Keep => result == Ok::<Option<O>, ProcessError<E>>(None),
        _ => {
            &&& result matches Err(ProcessError::Mismatch(mismatch))
            &&& reports(env, observed, Err(mismatch))
        },
    }
}

/// `result` and `after` are what comes of an observed value, once it is
/// serialized.
pub open spec fn processes<O, E, D: Fn(&Value) -> Result<O, E>>(
    before: TestVecSession,
    observed: TestVectorEntry,
    deserializer: Option<&D>,
    after: TestVecSession,
    result: Result<Option<O>, ProcessError<E>>,
) -> bool {
    match before.active {
        None => after == before && result == Err::<Option<O>, ProcessError<E>>(
            ProcessError::NotInitialized,
        ),
        Some(env) => {
            &&& after.active is Some
            &&& after.active->0@ == env@.observe(observed@)
            &&& after.active->0.recorded_tv_data.entries@ == env.recorded_tv_data.entries@.push(
                observed,
            )
            &&& after.active->0.loaded_tv_data == env.loaded_tv_data
            &&& after.active->0.tv_file_path == env.tv_file_path
            &&& after.active->0.file_format == env.file_format
            &&& after.active->0.test_mode == env.test_mode
            &&& answers(env, observed, deserializer, result)
        },
    }
}

/// Processes the next observed entry: a value that has been serialized.
pub fn process_entry<O, E, D: Fn(&Value) -> Result<O, E>>(
    session: &mut TestVecSession,
    observed: TestVectorEntry,
    deserializer: Option<&D>,
) -> (result: Result<Option<O>, ProcessError<E>>)
    requires
        deserializer matches Some(deserializer) ==> forall|value: &Value| #[trigger]
            call_requires(*deserializer, (value,)),
        deserializes(*old(session), observed.entry_type, observed@.name) ==> deserializer is Some,
    ensures
        processes(*old(session), observed, deserializer, *final(session), result),
{
    match &mut session.active {
        None => Err(ProcessError::NotInitialized),
        Some(tv_env) => {
            let test_mode = tv_env.test_mode;
            match tv_env.observe(observed) {
                Err(mismatch) => Err(ProcessError::Mismatch(mismatch)),
                Ok(None) => Ok(None),
                Ok(Some(constant)) => {
                    let deserialize = deserializer.unwrap();
                    let deserialized = deserialize(&constant);
                    assert(call_ensures(
                        *deserializer->0,
                        (&replayed(old(session).active->0, observed),),
                        deserialized,
                    ));
                    match deserialized {
                        Ok(value) => Ok(Some(value)),
                        Err(error) => match test_mode {
                            TestMode::Init => Err(ProcessError::DeserializeObserved(error)),
                            TestMode::Check => Err(ProcessError::DeserializeLoaded(error)),
                        },
                    }
                },
            }
        },
    }
}

/// Low-level: process the next observed value.
///
/// The serialized value becomes the next entry of the session. What is returned is
/// the constant that takes the value's place, and `None` for an output.
pub fn process_next_entry<
    O,
    E,
    S: Fn(&O) -> Result<Value, E>,
    D: Fn(&Value) -> Result<O, E>,
>(
    session: &mut TestVecSession,
    entry_type: TestVectorEntryType,
    description: Option<String>,
    name: Option<String>,
    observed_value: &O,
    code_location: Option<String>,
    test_vec_set_code_location: Option<String>,
    serializer: &S,
    deserializer: Option<&D>,
    offload: bool,
) -> (result: Result<Option<O>, ProcessError<E>>)
    requires
        call_requires(*serializer, (observed_value,)),
        deserializer matches Some(deserializer) ==> forall|value: &Value| #[trigger]
            call_requires(*deserializer, (value,)),
        deserializer is None && deserializes(*old(session), entry_type, text_view(name))
            ==> forall|serialized: Result<Value, E>| #[trigger]
            call_ensures(*serializer, (observed_value,), serialized) ==> serialized is Err,
    ensures
        exists|serialized: Result<Value, E>|
            {
                &&& #[trigger] call_ensures(*serializer, (observed_value,), serialized)
                &&& match serialized {
                    Err(error) => *final(session) == *old(session) && result == Err::<
                        Option<O>,
                        ProcessError<E>,
                    >(ProcessError::Serialize(error)),
                    Ok(value) => processes(
                        *old(session),
                        TestVectorEntry {
                            entry_type,
                            description,
                            name,
                            value,
                            code_location,
                            test_vec_set_code_location,
                            offload,
                        },
                        deserializer,
                        *final(session),
                        result,
                    ),
                }
            },
{
    let value = match serializer(observed_value) {
        Ok(value) => value,
        Err(error) => return Err(ProcessError::Serialize(error)),
    };
    let observed = TestVectorEntry {
        entry_type,
        description,
        name,
        value,
        code_location,
        test_vec_set_code_location,
        offload,
    };
    process_entry(session, observed, deserializer)
}

} // verus!
