//! The entries of one test vector file, and the sidecar files next to it.
use crate::entry::{same_entry, EntryView, TestVectorEntry};
use crate::json::{default_null, is_null, json_text, JsonView};
use crate::offload::{
    compressor_refuses, decode_offloaded, decompressor_refuses, encode_offloaded, offloaded_text,
    offloaded_value, writes_value, OffloadCodec, OffloadError,
};
use crate::path::{has_parent, is_offloaded_path, offloaded_path, parent_path, path_parts};
use std::path::PathBuf;
use vstd::prelude::*;

verus! {

/// What a test vector file holds.
#[derive(Debug)]
pub struct TestVectorData {
    pub entries: Vec<TestVectorEntry>,
}

pub open spec fn entry_views(entries: Seq<TestVectorEntry>) -> Seq<EntryView> {
    Seq::new(entries.len(), |i: int| entries[i]@)
}

impl View for TestVectorData {
    type V = Seq<EntryView>;

    open spec fn view(&self) -> Seq<EntryView> {
        entry_views(self.entries@)
    }
}

pub open spec fn data_view(data: Option<&TestVectorData>) -> Option<Seq<EntryView>> {
    match data {
        Some(data) => Some(data@),
        None => None,
    }
}

pub open spec fn same_entries(a: Seq<EntryView>, b: Seq<EntryView>) -> bool {
    &&& a.len() == b.len()
    &&& forall|i: int| #![trigger a[i]] 0 <= i < a.len() ==> same_entry(a[i], b[i])
}

impl PartialEq for TestVectorData {
    fn eq(&self, other: &Self) -> (result: bool) {
        if self.entries.len() != other.entries.len() {
            return false;
        }
        let mut i: usize = 0;
        while i < self.entries.len()
            invariant
                i <= self@.len(),
                self@.len() == other@.len(),
                forall|j: int| #![trigger self@[j]] 0 <= j < i ==> same_entry(self@[j], other@[j]),
            decreases self@.len() - i,
        {
            if self.entries[i] != other.entries[i] {
                assert(!same_entry(self@[i as int], other@[i as int]));
                return false;
            }
            i += 1;
        }
        true
    }
}

impl vstd::std_specs::cmp::PartialEqSpecImpl for TestVectorData {
    open spec fn obeys_eq_spec() -> bool {
        true
    }

    open spec fn eq_spec(&self, other: &Self) -> bool {
        same_entries(self@, other@)
    }
}

impl Eq for TestVectorData {

}

/// The format of a test vector file.
#[derive(Clone, Copy, PartialEq, Eq, Structural, Debug)]
pub enum TestVectorFileFormat {
    Json,
    Yaml,
    Toml,
}

/// What has happened since the last step of reading the sidecar files.
pub enum LoadEvent {
    /// Nothing yet.
    Begin,
    /// The sidecar file of entry `index` has been read.
    Fetched { index: usize, bytes: Vec<u8> },
}

/// What reading the sidecar files needs next.
pub enum LoadAction {
    /// The sidecar file of entry `index` is to be read. `holds_value` says that
    /// the entry has a value already, which that of the file replaces.
    Read { index: usize, path: PathBuf, holds_value: bool },
    /// Every sidecar file has been read.
    Done,
    /// The sidecar file that was read last holds no value.
    Failed(OffloadError),
}

/// What has happened since the last step of writing the sidecar files.
pub enum SaveEvent {
    /// Nothing yet.
    Begin,
    /// The sidecar file of entry `index` has been written.
    Written { index: usize },
}

/// What writing the sidecar files needs next.
pub enum SaveAction {
    /// The sidecar file of entry `index` is to be created, or overwritten, with
    /// these bytes.
    Write { index: usize, path: PathBuf, bytes: Vec<u8> },
    /// Every sidecar file has been written.
    Done,
    /// The bytes of the sidecar file of entry `index` could not be made.
    Failed { index: usize, error: OffloadError },
}

/// What storing a test vector needs next.
pub enum StoreAction {
    /// The sidecar file of entry `index` is to be created, or overwritten, with
    /// these bytes.
    WriteSidecar { index: usize, path: PathBuf, bytes: Vec<u8> },
    /// The directory `parent` is to be created, where there is one and it is
    /// missing, and then the test vector file to be created, or overwritten, with
    /// the entries as they are now, in this format. Nothing comes after that.
    WriteEntries { parent: Option<PathBuf>, file_format: TestVectorFileFormat },
    /// The bytes of the sidecar file of entry `index` could not be made.
    Failed { index: usize, error: OffloadError },
}

/// `index` is the first entry from `from` on that has a sidecar file.
pub open spec fn is_next_offloaded(entries: Seq<EntryView>, from: int, index: int) -> bool {
    &&& from <= index < entries.len()
    &&& entries[index].offload
    &&& forall|j: int| #![trigger entries[j]] from <= j < index ==> !entries[j].offload
}

/// No entry from `from` on has a sidecar file.
pub open spec fn none_offloaded(entries: Seq<EntryView>, from: int) -> bool {
    forall|j: int| #![trigger entries[j]] from <= j < entries.len() ==> !entries[j].offload
}

/// `action` asks for the next sidecar file to read, of the entries from `from` on.
pub open spec fn load_continues(
    entries: Seq<EntryView>,
    from: int,
    tv_file_path: PathBuf,
    action: LoadAction,
) -> bool {
    match action {
        LoadAction::Read { index, path, holds_value } => {
            &&& is_next_offloaded(entries, from, index as int)
            &&& is_offloaded_path(tv_file_path, index as nat, path)
            &&& holds_value == (entries[index as int].value != JsonView::Null)
        },
        LoadAction::Done => none_offloaded(entries, from),
        LoadAction::Failed(_) => false,
    }
}

/// The bytes of a sidecar file give this error: the decompressor refuses them, or
/// their text is no JSON.
pub open spec fn load_fails(codec: OffloadCodec, bytes: Seq<u8>, error: OffloadError) -> bool {
    match error {
        OffloadError::Parse(_) => offloaded_text(codec, bytes) is Some && offloaded_value(
            codec,
            bytes,
        ) is None,
        OffloadError::Decompress(refusal) => codec is Zstd && decompressor_refuses(bytes, refusal),
        _ => false,
    }
}

/// `action` asks for the next sidecar file to write, of the entries from `from`
/// on, with that entry's value.
pub open spec fn save_continues(
    entries: Seq<EntryView>,
    from: int,
    tv_file_path: PathBuf,
    codec: OffloadCodec,
    action: SaveAction,
) -> bool {
    match action {
        SaveAction::Write { index, path, bytes } => {
            &&& is_next_offloaded(entries, from, index as int)
            &&& is_offloaded_path(tv_file_path, index as nat, path)
            &&& writes_value(codec, entries[index as int].value, bytes@)
        },
        SaveAction::Done => none_offloaded(entries, from),
        SaveAction::Failed { index, error } => {
            &&& is_next_offloaded(entries, from, index as int)
            &&& codec is Zstd
            &&& error matches OffloadError::Compress(refusal)
            &&& compressor_refuses(json_text(entries[index as int].value), refusal)
        },
    }
}

/// `action` asks for the next sidecar file to write, of the entries from `from`
/// on, and for the test vector file where there is none.
pub open spec fn store_continues(
    entries: Seq<EntryView>,
    from: int,
    tv_file_path: PathBuf,
    format: TestVectorFileFormat,
    codec: OffloadCodec,
    action: StoreAction,
) -> bool {
    match action {
        StoreAction::WriteSidecar { index, path, bytes } => {
            &&& is_next_offloaded(entries, from, index as int)
            &&& is_offloaded_path(tv_file_path, index as nat, path)
            &&& writes_value(codec, entries[index as int].value, bytes@)
        },
        StoreAction::WriteEntries { parent, file_format } => {
            &&& none_offloaded(entries, from)
            &&& file_format == format
            &&& match parent {
                Some(parent) => has_parent(path_parts(tv_file_path)) && path_parts(parent)
                    == path_parts(tv_file_path).drop_last(),
                None => !has_parent(path_parts(tv_file_path)),
            }
        },
        StoreAction::Failed { index, error } => {
            &&& is_next_offloaded(entries, from, index as int)
            &&& codec is Zstd
            &&& error matches OffloadError::Compress(refusal)
            &&& compressor_refuses(json_text(entries[index as int].value), refusal)
        },
    }
}

/// The entries with the value of entry `index` replaced.
pub open spec fn replace_value(entries: Seq<EntryView>, index: int, value: JsonView) -> Seq<
    EntryView,
> {
    entries.update(index, entries[index].with_value(value))
}

impl TestVectorData {
    /// A test vector without entries.
    pub fn new() -> (data: Self)
        ensures
            data@ == Seq::<EntryView>::empty(),
            data.entries@.len() == 0,
    {
        TestVectorData { entries: Vec::new() }
    }

    fn next_offloaded(&self, from: usize) -> (result: Option<usize>)
        requires
            from <= self@.len(),
        ensures
            match result {
                Some(index) => is_next_offloaded(self@, from as int, index as int),
                None => none_offloaded(self@, from as int),
            },
    {
        let mut i: usize = from;
        while i < self.entries.len()
            invariant
                from <= i <= self@.len(),
                forall|j: int| #![trigger self@[j]] from <= j < i ==> !self@[j].offload,
            decreases self@.len() - i,
        {
            assert(self@[i as int].offload == self.entries[i as int].offload);
            if self.entries[i].offload {
                return Some(i);
            }
            i += 1;
        }
        None
    }

    fn next_load(&self, from: usize, tv_file_path: &PathBuf) -> (action: LoadAction)
        requires
            from <= self@.len(),
        ensures
            load_continues(self@, from as int, *tv_file_path, action),
    {
        match self.next_offloaded(from) {
            None => LoadAction::Done,
            Some(index) => {
                assert(self@[index as int] == self.entries[index as int]@);
                LoadAction::Read {
                    index,
                    path: offloaded_path(tv_file_path, index),
                    holds_value: !is_null(&self.entries[index].value),
                }
            },
        }
    }

    fn next_save(&self, from: usize, tv_file_path: &PathBuf, codec: OffloadCodec) -> (action:
        SaveAction)
        requires
            from <= self@.len(),
        ensures
            save_continues(self@, from as int, *tv_file_path, codec, action),
    {
        match self.next_offloaded(from) {
            None => SaveAction::Done,
            Some(index) => {
                assert(self@[index as int] == self.entries[index as int]@);
                let path = offloaded_path(tv_file_path, index);
                match encode_offloaded(codec, &self.entries[index].value) {
                    Ok(bytes) => SaveAction::Write { index, path, bytes },
                    Err(error) => SaveAction::Failed { index, error },
                }
            },
        }
    }

    /// One step of reading the sidecar files: takes in the file that was read, and
    /// says which comes next. The files are read in the order of their entries.
    pub fn load_offloaded_values(
        &mut self,
        tv_file_path: &PathBuf,
        codec: OffloadCodec,
        event: LoadEvent,
    ) -> (action: LoadAction)
        requires
            event matches LoadEvent::Fetched { index, .. } ==> index < old(self)@.len(),
        ensures
            match event {
                LoadEvent::Begin => final(self)@ == old(self)@ && load_continues(
                    old(self)@,
                    0,
                    *tv_file_path,
                    action,
                ),
                LoadEvent::Fetched { index, bytes } => match action {
                    LoadAction::Failed(error) => final(self)@ == old(self)@ && load_fails(
                        codec,
                        bytes@,
                        error,
                    ),
                    _ => {
                        &&& offloaded_value(codec, bytes@) is Some
                        &&& final(self)@ == replace_value(
                            old(self)@,
                            index as int,
                            offloaded_value(codec, bytes@)->0,
                        )
                        &&& load_continues(final(self)@, index + 1, *tv_file_path, action)
                    },
                },
            },
    {
        match event {
            LoadEvent::Begin => self.next_load(0, tv_file_path),
            LoadEvent::Fetched { index, bytes } => match decode_offloaded(codec, bytes) {
                Err(error) => LoadAction::Failed(error),
                Ok(value) => {
                    assert(index < self.entries.len());
                    self.entries[index].value = value;
                    assert(self@ =~= replace_value(
                        old(self)@,
                        index as int,
                        offloaded_value(codec, bytes@)->0,
                    ));
                    self.next_load(index + 1, tv_file_path)
                },
            },
        }
    }

    /// One step of writing the sidecar files: blanks the entry whose file was
    /// written, and says which file comes next. The files are written in the order
    /// of their entries.
    pub fn save_offloaded_values(
        &mut self,
        tv_file_path: &PathBuf,
        codec: OffloadCodec,
        event: SaveEvent,
    ) -> (action: SaveAction)
        requires
            event matches SaveEvent::Written { index } ==> index < old(self)@.len(),
        ensures
            match event {
                SaveEvent::Begin => final(self)@ == old(self)@ && save_continues(
                    old(self)@,
                    0,
                    *tv_file_path,
                    codec,
                    action,
                ),
                SaveEvent::Written { index } => {
                    &&& final(self)@ == replace_value(old(self)@, index as int, JsonView::Null)
                    &&& save_continues(final(self)@, index + 1, *tv_file_path, codec, action)
                },
            },
    {
        match event {
            SaveEvent::Begin => self.next_save(0, tv_file_path, codec),
            SaveEvent::Written { index } => {
                assert(index < self.entries.len());
                self.entries[index].value = default_null();
                assert(self@ =~= replace_value(old(self)@, index as int, JsonView::Null));
                self.next_save(index + 1, tv_file_path, codec)
            },
        }
    }

    /// One step of storing a test vector: first its sidecar files, in the order of
    /// their entries, then the test vector file itself.
    pub fn store_to_file(
        &mut self,
        tv_file_path: &PathBuf,
        file_format: TestVectorFileFormat,
        codec: OffloadCodec,
        event: SaveEvent,
    ) -> (action: StoreAction)
        requires
            event matches SaveEvent::Written { index } ==> index < old(self)@.len(),
        ensures
            match event {
                SaveEvent::Begin => final(self)@ == old(self)@ && store_continues(
                    old(self)@,
                    0,
                    *tv_file_path,
                    file_format,
                    codec,
                    action,
                ),
                SaveEvent::Written { index } => {
                    &&& final(self)@ == replace_value(old(self)@, index as int, JsonView::Null)
                    &&& store_continues(
                        final(self)@,
                        index + 1,
                        *tv_file_path,
                        file_format,
                        codec,
                        action,
                    )
                },
            },
    {
        match self.save_offloaded_values(tv_file_path, codec, event) {
            SaveAction::Write { index, path, bytes } => StoreAction::WriteSidecar {
                index,
                path,
                bytes,
            },
            SaveAction::Done => StoreAction::WriteEntries {
                parent: parent_path(tv_file_path),
                file_format,
            },
            SaveAction::Failed { index, error } => StoreAction::Failed { index, error },
        }
    }
}

} // verus!
