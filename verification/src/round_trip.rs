//! What holds of sidecar files: they do not get in one another's way, and a value
//! that is written to one is read back.
use crate::data::{
    is_next_offloaded, load_continues, load_fails, none_offloaded, replace_value, store_continues,
    LoadAction, StoreAction, TestVectorFileFormat,
};
use crate::entry::{EntryView, TestVectorEntry};
use crate::json::{reads_back, JsonView};
use crate::laws::{
    agree, is_deterministic, law_check_answers_as_init, law_check_replays_init,
    law_run_records_everything, law_unchanged_file_is_kept, run, verdict_at,
};
use crate::offload::{
    decompressor_refuses, offloaded_text, offloaded_value, writes_text, writes_value,
    zstd_content, OffloadCodec, OffloadError,
};
use crate::path::{
    decimal, digit, extends_name, final_name, is_offloaded_path, is_separator, is_suffixed,
    names_drive, offload_suffix, path_parts, PathPart,
};
use crate::session::{answers, EnvView, ProcessError, TestVecEnv, Verdict};
use serde_json::Value;
use std::path::PathBuf;
use vstd::prelude::*;

verus! {

proof fn lemma_digits(n: nat)
    ensures
        decimal(n).len() > 0,
        forall|i: int| 0 <= i < decimal(n).len() ==> '0' <= #[trigger] decimal(n)[i] <= '9',
    decreases n,
{
    if n >= 10 {
        lemma_digits(n / 10);
    }
}

/// Different numbers have different decimal digits.
pub proof fn law_decimal_injective(m: nat, n: nat)
    requires
        decimal(m) == decimal(n),
    ensures
        m == n,
    decreases m,
{
    lemma_digits(m / 10);
    lemma_digits(n / 10);
    assert(decimal(m).last() == digit(m % 10));
    assert(decimal(n).last() == digit(n % 10));
    if m < 10 {
        if n >= 10 {
            assert(decimal(n).len() > 1);
        }
    } else {
        if n < 10 {
            assert(decimal(m).len() > 1);
        } else {
            assert(decimal(m).drop_last() =~= decimal(m / 10));
            assert(decimal(n).drop_last() =~= decimal(n / 10));
            law_decimal_injective(m / 10, n / 10);
        }
    }
}

proof fn lemma_suffix(index: nat)
    ensures
        offload_suffix(index).len() > 0,
        offload_suffix(index)[0] == '_',
        has_no_separator(offload_suffix(index)),
{
    reveal_strlit("_offloaded_value_");
    reveal_strlit(".zstd");
    lemma_digits(index);
    let suffix = offload_suffix(index);
    let head = "_offloaded_value_"@;
    let digits = decimal(index);
    assert forall|i: int| 0 <= i < suffix.len() implies !is_separator(#[trigger] suffix[i]) by {
        if i < head.len() {
            assert(suffix[i] == head[i]);
        } else if i < head.len() + digits.len() {
            assert(suffix[i] == digits[i - head.len()]);
        } else {
            assert(suffix[i] == ".zstd"@[i - head.len() - digits.len()]);
        }
    }
}

/// The suffix of entry `i` is that of no other entry.
proof fn lemma_suffix_injective(i: nat, j: nat)
    requires
        offload_suffix(i) == offload_suffix(j),
    ensures
        i == j,
{
    let head = "_offloaded_value_"@;
    let tail = ".zstd"@;
    let start = head.len() as int;
    assert(offload_suffix(i).len() == start + decimal(i).len() + tail.len());
    assert(offload_suffix(j).len() == start + decimal(j).len() + tail.len());
    let end = start + decimal(i).len();
    assert(offload_suffix(i).subrange(start, end) =~= decimal(i));
    assert(offload_suffix(j).subrange(start, end) =~= decimal(j));
    law_decimal_injective(i, j);
}

/// A path that ends in a file name which has the same meaning on Unix and on Windows:
/// it has no slash in it and does not begin like the name of a drive.
pub open spec fn has_portable_name(path: PathBuf) -> bool {
    &&& final_name(path_parts(path)) is Some
    &&& !final_name(path_parts(path))->0.contains('/')
    &&& !names_drive(final_name(path_parts(path))->0)
}

/// Where the sidecar file of an entry is.
pub open spec fn sidecar(tv_file_path: PathBuf, index: nat) -> Seq<PathPart> {
    path_parts(tv_file_path).drop_last().push(
        PathPart::Normal(final_name(path_parts(tv_file_path))->0 + offload_suffix(index)),
    )
}

/// A text without a character that separates components on some platform.
pub open spec fn has_no_separator(text: Seq<char>) -> bool {
    forall|i: int| #![trigger text[i]] 0 <= i < text.len() ==> !is_separator(text[i])
}

proof fn lemma_extends(name: Seq<char>, suffix: Seq<char>)
    requires
        !name.contains('/'),
        has_no_separator(suffix),
        !names_drive(name + suffix),
    ensures
        extends_name(name, name + suffix),
        !(name + suffix).contains('/'),
{
    let new_name = name + suffix;
    assert forall|i: int|
        #![trigger new_name[i]]
        name.len() <= i < new_name.len() implies !is_separator(new_name[i]) by {
        assert(new_name[i] == suffix[i - name.len()]);
    }
    if new_name.contains('/') {
        let i = choose|i: int| 0 <= i < new_name.len() && new_name[i] == '/';
        if i < name.len() {
            assert(name[i] == '/');
        }
    }
}

/// A sidecar file is in the directory of the test vector file, under that file's
/// name and the entry's suffix.
pub proof fn law_sidecar_is_next_to_vector(tv_file_path: PathBuf, index: nat, path: PathBuf)
    requires
        has_portable_name(tv_file_path),
        is_offloaded_path(tv_file_path, index, path),
    ensures
        path_parts(path) == sidecar(tv_file_path, index),
{
    let name = final_name(path_parts(tv_file_path))->0;
    let new_name = name + offload_suffix(index);
    lemma_suffix(index);
    if name.len() >= 2 {
        assert(new_name[0] == name[0] && new_name[1] == name[1]);
    } else if name.len() == 1 {
        assert(new_name[1] == offload_suffix(index)[0]);
    } else {
        assert(new_name[0] == offload_suffix(index)[0]);
    }
    lemma_extends(name, offload_suffix(index));
}

/// Appending one suffix and then another is appending both, on a path without a file
/// name, and on every other where the name with both does not begin like a drive.
pub proof fn law_suffixes_add_up(
    path: PathBuf,
    suffix: Seq<char>,
    first: PathBuf,
    more: Seq<char>,
    second: PathBuf,
    both: PathBuf,
)
    requires
        final_name(path_parts(path)) matches Some(name) ==> {
            &&& !name.contains('/')
            &&& !names_drive(name + (suffix + more))
        },
        has_no_separator(suffix),
        has_no_separator(more),
        is_suffixed(path, suffix, first),
        is_suffixed(first, more, second),
        is_suffixed(path, suffix + more, both),
    ensures
        path_parts(second) == path_parts(both),
{
    if final_name(path_parts(path)) is Some {
        let name = final_name(path_parts(path))->0;
        assert(name + suffix + more =~= name + (suffix + more));
        if (name + suffix).len() >= 2 {
            assert((name + suffix + more)[0] == (name + suffix)[0]);
            assert((name + suffix + more)[1] == (name + suffix)[1]);
        }
        lemma_extends(name, suffix);
        lemma_extends(name + suffix, more);
        assert forall|i: int|
            #![trigger (suffix + more)[i]]
            0 <= i < (suffix + more).len() implies !is_separator((suffix + more)[i]) by {
            if i < suffix.len() {
                assert((suffix + more)[i] == suffix[i]);
            } else {
                assert((suffix + more)[i] == more[i - suffix.len()]);
            }
        }
        lemma_extends(name, suffix + more);
        assert(path_parts(first).drop_last() =~= path_parts(path).drop_last());
        assert(final_name(path_parts(first)) == Some(name + suffix));
    }
}

/// The sidecar files of different entries are different files, and none is the
/// test vector file.
pub proof fn law_sidecars_are_distinct(
    tv_file_path: PathBuf,
    i: nat,
    first: PathBuf,
    j: nat,
    second: PathBuf,
)
    requires
        has_portable_name(tv_file_path),
        is_offloaded_path(tv_file_path, i, first),
        is_offloaded_path(tv_file_path, j, second),
    ensures
        i != j ==> path_parts(first) != path_parts(second),
        path_parts(first) != path_parts(tv_file_path),
{
    law_sidecar_is_next_to_vector(tv_file_path, i, first);
    law_sidecar_is_next_to_vector(tv_file_path, j, second);
    if i != j {
        lemma_sidecar_injective(tv_file_path, i, j);
    }
    let name = final_name(path_parts(tv_file_path))->0;
    lemma_suffix(i);
    assert(path_parts(first).last() == PathPart::Normal(name + offload_suffix(i)));
    assert((name + offload_suffix(i)).len() != name.len());
}

proof fn lemma_sidecar_injective(tv_file_path: PathBuf, i: nat, j: nat)
    requires
        i != j,
    ensures
        sidecar(tv_file_path, i) != sidecar(tv_file_path, j),
{
    let name = final_name(path_parts(tv_file_path))->0;
    if sidecar(tv_file_path, i) == sidecar(tv_file_path, j) {
        assert(sidecar(tv_file_path, i).last() == PathPart::Normal(name + offload_suffix(i)));
        assert(sidecar(tv_file_path, j).last() == PathPart::Normal(name + offload_suffix(j)));
        let n = name.len() as int;
        assert((name + offload_suffix(i)).skip(n) =~= offload_suffix(i));
        assert((name + offload_suffix(j)).skip(n) =~= offload_suffix(j));
        lemma_suffix_injective(i, j);
    }
}

/// A sidecar file that is written or read: whose entry it is, where it is, and what
/// it holds.
pub struct Sidecar {
    pub index: int,
    pub path: PathBuf,
    pub bytes: Seq<u8>,
}

/// A run of writing sidecar files, from entry `from` on: `written` gives the files
/// in order, and `stored` the entries at the end.
pub open spec fn is_save_run(
    entries: Seq<EntryView>,
    from: int,
    tv_file_path: PathBuf,
    codec: OffloadCodec,
    written: Seq<Sidecar>,
    stored: Seq<EntryView>,
) -> bool
    decreases written.len(),
{
    if written.len() == 0 {
        none_offloaded(entries, from) && stored == entries
    } else {
        let Sidecar { index, path, bytes } = written[0];
        &&& is_next_offloaded(entries, from, index)
        &&& is_offloaded_path(tv_file_path, index as nat, path)
        &&& writes_value(codec, entries[index].value, bytes)
        &&& is_save_run(
            replace_value(entries, index, JsonView::Null),
            index + 1,
            tv_file_path,
            codec,
            written.drop_first(),
            stored,
        )
    }
}

/// A run of reading sidecar files, from entry `from` on: `read` gives the files in
/// order, and `loaded` the entries at the end.
pub open spec fn is_load_run(
    entries: Seq<EntryView>,
    from: int,
    tv_file_path: PathBuf,
    codec: OffloadCodec,
    read: Seq<Sidecar>,
    loaded: Seq<EntryView>,
) -> bool
    decreases read.len(),
{
    if read.len() == 0 {
        none_offloaded(entries, from) && loaded == entries
    } else {
        let Sidecar { index, path, bytes } = read[0];
        &&& is_next_offloaded(entries, from, index)
        &&& is_offloaded_path(tv_file_path, index as nat, path)
        &&& offloaded_value(codec, bytes) is Some
        &&& is_load_run(
            replace_value(entries, index, offloaded_value(codec, bytes)->0),
            index + 1,
            tv_file_path,
            codec,
            read.drop_first(),
            loaded,
        )
    }
}

/// The entries as the test vector file has them: those with a sidecar file are
/// blank.
pub open spec fn blanked(entries: Seq<EntryView>) -> Seq<EntryView> {
    Seq::new(
        entries.len(),
        |i: int|
            if entries[i].offload {
                entries[i].with_value(JsonView::Null)
            } else {
                entries[i]
            },
    )
}

/// What files hold, by where they are, after some sidecar files were written.
pub open spec fn write_files(
    files: Map<Seq<PathPart>, Seq<u8>>,
    written: Seq<Sidecar>,
) -> Map<Seq<PathPart>, Seq<u8>>
    decreases written.len(),
{
    if written.len() == 0 {
        files
    } else {
        write_files(
            files.insert(path_parts(written[0].path), written[0].bytes),
            written.drop_first(),
        )
    }
}

/// A step of storing that asks for a sidecar file begins a run, of which what comes
/// after that file is the rest; a step that asks for the test vector file ends one.
pub proof fn law_store_steps_make_a_run(
    entries: Seq<EntryView>,
    from: int,
    tv_file_path: PathBuf,
    format: TestVectorFileFormat,
    codec: OffloadCodec,
    action: StoreAction,
    rest: Seq<Sidecar>,
    stored: Seq<EntryView>,
)
    requires
        store_continues(entries, from, tv_file_path, format, codec, action),
    ensures
        match action {
            StoreAction::WriteSidecar { index, path, bytes } => is_save_run(
                replace_value(entries, index as int, JsonView::Null),
                index + 1,
                tv_file_path,
                codec,
                rest,
                stored,
            ) ==> is_save_run(
                entries,
                from,
                tv_file_path,
                codec,
                seq![Sidecar { index: index as int, path, bytes: bytes@ }] + rest,
                stored,
            ),
            StoreAction::WriteEntries { .. } => is_save_run(
                entries,
                from,
                tv_file_path,
                codec,
                Seq::empty(),
                entries,
            ),
            StoreAction::Failed { .. } => true,
        },
{
    if let StoreAction::WriteSidecar { index, path, bytes } = action {
        let first = Sidecar { index: index as int, path, bytes: bytes@ };
        assert((seq![first] + rest).drop_first() =~= rest);
    }
}

/// A step of loading that asks for a sidecar file begins a run, of which what comes
/// after that file is the rest; the last step ends one.
pub proof fn law_load_steps_make_a_run(
    entries: Seq<EntryView>,
    from: int,
    tv_file_path: PathBuf,
    codec: OffloadCodec,
    action: LoadAction,
    bytes: Seq<u8>,
    rest: Seq<Sidecar>,
    loaded: Seq<EntryView>,
)
    requires
        load_continues(entries, from, tv_file_path, action),
    ensures
        match action {
            LoadAction::Read { index, path, .. } => offloaded_value(codec, bytes) is Some
                && is_load_run(
                replace_value(entries, index as int, offloaded_value(codec, bytes)->0),
                index + 1,
                tv_file_path,
                codec,
                rest,
                loaded,
            ) ==> is_load_run(
                entries,
                from,
                tv_file_path,
                codec,
                seq![Sidecar { index: index as int, path, bytes }] + rest,
                loaded,
            ),
            LoadAction::Done => is_load_run(
                entries,
                from,
                tv_file_path,
                codec,
                Seq::empty(),
                entries,
            ),
            LoadAction::Failed(_) => true,
        },
{
    if let LoadAction::Read { index, path, .. } = action {
        let first = Sidecar { index: index as int, path, bytes };
        assert((seq![first] + rest).drop_first() =~= rest);
    }
}

proof fn lemma_save_run(
    entries: Seq<EntryView>,
    from: int,
    tv_file_path: PathBuf,
    codec: OffloadCodec,
    written: Seq<Sidecar>,
    stored: Seq<EntryView>,
)
    requires
        0 <= from,
        is_save_run(entries, from, tv_file_path, codec, written, stored),
    ensures
        stored.len() == entries.len(),
        forall|i: int|
            #![trigger stored[i]]
            0 <= i < entries.len() ==> stored[i] == if i >= from && entries[i].offload {
                entries[i].with_value(JsonView::Null)
            } else {
                entries[i]
            },
        forall|i: int|
            #![trigger entries[i]]
            from <= i < entries.len() && entries[i].offload ==> exists|k: int|
                0 <= k < written.len() && (#[trigger] written[k]).index == i,
        forall|k: int|
            #![trigger written[k]]
            0 <= k < written.len() ==> {
                &&& from <= written[k].index < entries.len()
                &&& is_offloaded_path(
                    tv_file_path,
                    written[k].index as nat,
                    written[k].path,
                )
                &&& writes_value(codec, entries[written[k].index].value, written[k].bytes)
            },
    decreases written.len(),
{
    if written.len() > 0 {
        let index = written[0].index;
        let rest = written.drop_first();
        let next = replace_value(entries, index, JsonView::Null);
        lemma_save_run(next, index + 1, tv_file_path, codec, rest, stored);
        assert forall|i: int|
            #![trigger stored[i]]
            0 <= i < entries.len() implies stored[i] == if i >= from && entries[i].offload {
            entries[i].with_value(JsonView::Null)
        } else {
            entries[i]
        } by {
            assert(i != index ==> next[i] == entries[i]);
        }
        assert forall|i: int|
            #![trigger entries[i]]
            from <= i < entries.len() && entries[i].offload implies exists|k: int|
            0 <= k < written.len() && (#[trigger] written[k]).index == i by {
            if i == index {
                assert(written[0].index == i);
            } else {
                assert(next[i] == entries[i]);
                let k = choose|k: int| 0 <= k < rest.len() && (#[trigger] rest[k]).index == i;
                assert(written[k + 1] == rest[k]);
            }
        }
        assert forall|k: int| #![trigger written[k]] 0 <= k < written.len() implies {
            &&& from <= written[k].index < entries.len()
            &&& is_offloaded_path(tv_file_path, written[k].index as nat, written[k].path)
            &&& writes_value(codec, entries[written[k].index].value, written[k].bytes)
        } by {
            if k > 0 {
                assert(rest[k - 1] == written[k]);
                assert(next[written[k].index] == entries[written[k].index]);
            }
        }
    }
}

proof fn lemma_load_run(
    entries: Seq<EntryView>,
    from: int,
    tv_file_path: PathBuf,
    codec: OffloadCodec,
    read: Seq<Sidecar>,
    loaded: Seq<EntryView>,
)
    requires
        0 <= from,
        is_load_run(entries, from, tv_file_path, codec, read, loaded),
    ensures
        loaded.len() == entries.len(),
        forall|i: int|
            #![trigger loaded[i]]
            0 <= i < entries.len() ==> loaded[i] == entries[i].with_value(loaded[i].value) && (i
                < from || !entries[i].offload ==> loaded[i] == entries[i]),
        forall|i: int|
            #![trigger entries[i]]
            from <= i < entries.len() && entries[i].offload ==> exists|k: int|
                {
                    &&& 0 <= k < read.len()
                    &&& (#[trigger] read[k]).index == i
                    &&& is_offloaded_path(tv_file_path, i as nat, read[k].path)
                    &&& offloaded_value(codec, read[k].bytes) == Some(loaded[i].value)
                },
        forall|k: int|
            #![trigger read[k]]
            0 <= k < read.len() ==> is_offloaded_path(
                tv_file_path,
                read[k].index as nat,
                read[k].path,
            ),
    decreases read.len(),
{
    if read.len() > 0 {
        let index = read[0].index;
        let rest = read.drop_first();
        let next = replace_value(entries, index, offloaded_value(codec, read[0].bytes)->0);
        lemma_load_run(next, index + 1, tv_file_path, codec, rest, loaded);
        assert forall|i: int| #![trigger loaded[i]] 0 <= i < entries.len() implies loaded[i]
            == entries[i].with_value(loaded[i].value) && (i < from || !entries[i].offload
            ==> loaded[i] == entries[i]) by {
            assert(i != index ==> next[i] == entries[i]);
        }
        assert forall|i: int|
            #![trigger entries[i]]
            from <= i < entries.len() && entries[i].offload implies exists|k: int|
            {
                &&& 0 <= k < read.len()
                &&& (#[trigger] read[k]).index == i
                &&& is_offloaded_path(tv_file_path, i as nat, read[k].path)
                &&& offloaded_value(codec, read[k].bytes) == Some(loaded[i].value)
            } by {
            if i == index {
                assert(read[0].index == i);
                assert(loaded[i] == next[i]);
            } else {
                assert(next[i] == entries[i]);
                let k = choose|k: int|
                    {
                        &&& 0 <= k < rest.len()
                        &&& (#[trigger] rest[k]).index == i
                        &&& is_offloaded_path(tv_file_path, i as nat, rest[k].path)
                        &&& offloaded_value(codec, rest[k].bytes) == Some(loaded[i].value)
                    };
                assert(read[k + 1] == rest[k]);
            }
        }
        assert forall|k: int| #![trigger read[k]] 0 <= k < read.len() implies is_offloaded_path(
            tv_file_path,
            read[k].index as nat,
            read[k].path,
        ) by {
            if k > 0 {
                assert(rest[k - 1] == read[k]);
            }
        }
    }
}

proof fn lemma_written_files(
    entries: Seq<EntryView>,
    from: int,
    tv_file_path: PathBuf,
    codec: OffloadCodec,
    written: Seq<Sidecar>,
    stored: Seq<EntryView>,
    files: Map<Seq<PathPart>, Seq<u8>>,
)
    requires
        0 <= from,
        has_portable_name(tv_file_path),
        is_save_run(entries, from, tv_file_path, codec, written, stored),
    ensures
        forall|k: int|
            #![trigger written[k]]
            0 <= k < written.len() ==> write_files(files, written)[path_parts(written[k].path)]
                == written[k].bytes,
        forall|parts: Seq<PathPart>|
            (forall|k: int|
                #![trigger written[k]]
                0 <= k < written.len() ==> path_parts(written[k].path) != parts)
                ==> #[trigger] write_files(files, written)[parts] == files[parts],
    decreases written.len(),
{
    if written.len() > 0 {
        let Sidecar { index, path, bytes } = written[0];
        let rest = written.drop_first();
        let next = replace_value(entries, index, JsonView::Null);
        let next_files = files.insert(path_parts(path), bytes);
        lemma_save_run(next, index + 1, tv_file_path, codec, rest, stored);
        lemma_written_files(next, index + 1, tv_file_path, codec, rest, stored, next_files);
        assert forall|k: int| #![trigger rest[k]] 0 <= k < rest.len() implies path_parts(
            rest[k].path,
        ) != path_parts(path) by {
            law_sidecars_are_distinct(
                tv_file_path,
                index as nat,
                path,
                rest[k].index as nat,
                rest[k].path,
            );
        }
        assert(write_files(files, written)[path_parts(path)] == bytes);
        assert forall|k: int| #![trigger written[k]] 0 <= k < written.len() implies write_files(
            files,
            written,
        )[path_parts(written[k].path)] == written[k].bytes by {
            if k > 0 {
                assert(rest[k - 1] == written[k]);
            }
        }
        assert forall|parts: Seq<PathPart>|
            (forall|k: int|
                #![trigger written[k]]
                0 <= k < written.len() ==> path_parts(written[k].path)
                    != parts) implies #[trigger] write_files(files, written)[parts]
            == files[parts] by {
            assert(path_parts(written[0].path) != parts);
            assert forall|k: int| #![trigger rest[k]] 0 <= k < rest.len() implies path_parts(
                rest[k].path,
            ) != parts by {
                assert(rest[k] == written[k + 1]);
            }
            assert(write_files(next_files, rest)[parts] == next_files[parts]);
        }
    }
}

/// Once the sidecar files are written, every entry that has one is blank, and
/// every other entry is as it was.
pub proof fn law_save_blanks_offloaded(
    entries: Seq<EntryView>,
    tv_file_path: PathBuf,
    codec: OffloadCodec,
    written: Seq<Sidecar>,
    stored: Seq<EntryView>,
)
    requires
        is_save_run(entries, 0, tv_file_path, codec, written, stored),
    ensures
        stored == blanked(entries),
{
    lemma_save_run(entries, 0, tv_file_path, codec, written, stored);
    assert(stored =~= blanked(entries));
}

/// Once the sidecar files are read, every entry that has one holds the value that its
/// file holds and is otherwise as it was, and every other entry is as it was.
pub proof fn law_load_fills_offloaded(
    entries: Seq<EntryView>,
    tv_file_path: PathBuf,
    codec: OffloadCodec,
    read: Seq<Sidecar>,
    loaded: Seq<EntryView>,
)
    requires
        is_load_run(entries, 0, tv_file_path, codec, read, loaded),
    ensures
        loaded.len() == entries.len(),
        forall|i: int|
            #![trigger loaded[i]]
            0 <= i < entries.len() ==> loaded[i] == entries[i].with_value(loaded[i].value) && (
            !entries[i].offload ==> loaded[i] == entries[i]),
        forall|i: int|
            #![trigger entries[i]]
            0 <= i < entries.len() && entries[i].offload ==> exists|k: int|
                {
                    &&& 0 <= k < read.len()
                    &&& (#[trigger] read[k]).index == i
                    &&& is_offloaded_path(tv_file_path, i as nat, read[k].path)
                    &&& offloaded_value(codec, read[k].bytes) == Some(loaded[i].value)
                },
{
    lemma_load_run(entries, 0, tv_file_path, codec, read, loaded);
}

proof fn lemma_same_writes(
    entries: Seq<EntryView>,
    from: int,
    tv_file_path: PathBuf,
    codec: OffloadCodec,
    written: Seq<Sidecar>,
    stored: Seq<EntryView>,
    rewritten: Seq<Sidecar>,
    restored: Seq<EntryView>,
)
    requires
        0 <= from,
        is_save_run(entries, from, tv_file_path, codec, written, stored),
        is_save_run(entries, from, tv_file_path, codec, rewritten, restored),
    ensures
        restored == stored,
        rewritten.len() == written.len(),
        forall|k: int|
            #![trigger rewritten[k]]
            #![trigger written[k]]
            0 <= k < written.len() ==> rewritten[k].index == written[k].index,
    decreases written.len(),
{
    if written.len() > 0 {
        let index = written[0].index;
        assert(entries[index].offload);
        assert(rewritten.len() > 0);
        assert(entries[rewritten[0].index].offload);
        assert(rewritten[0].index == index);
        lemma_same_writes(
            replace_value(entries, index, JsonView::Null),
            index + 1,
            tv_file_path,
            codec,
            written.drop_first(),
            stored,
            rewritten.drop_first(),
            restored,
        );
        assert forall|k: int|
            #![trigger rewritten[k]]
            #![trigger written[k]]
            0 <= k < written.len() implies rewritten[k].index == written[k].index by {
            if k > 0 {
                assert(written.drop_first()[k - 1] == written[k]);
                assert(rewritten.drop_first()[k - 1] == rewritten[k]);
            }
        }
    } else if rewritten.len() > 0 {
        assert(entries[rewritten[0].index].offload);
    }
}

/// Storing the same entries again leaves the files' content alone: the test vector
/// file gets the same entries, and the same sidecar files, in the same order, get
/// the same text, and uncompressed the same bytes. This holds of every value,
/// whether or not it can be read back.
pub proof fn law_storing_again_writes_the_same(
    entries: Seq<EntryView>,
    tv_file_path: PathBuf,
    codec: OffloadCodec,
    written: Seq<Sidecar>,
    stored: Seq<EntryView>,
    rewritten: Seq<Sidecar>,
    restored: Seq<EntryView>,
)
    requires
        is_save_run(entries, 0, tv_file_path, codec, written, stored),
        is_save_run(entries, 0, tv_file_path, codec, rewritten, restored),
    ensures
        restored == stored,
        rewritten.len() == written.len(),
        forall|k: int|
            #![trigger rewritten[k]]
            #![trigger written[k]]
            0 <= k < written.len() ==> {
                &&& rewritten[k].index == written[k].index
                &&& offloaded_text(codec, rewritten[k].bytes) == offloaded_text(
                    codec,
                    written[k].bytes,
                )
                &&& codec is Plain ==> rewritten[k].bytes == written[k].bytes
                &&& has_portable_name(tv_file_path) || final_name(path_parts(tv_file_path)) is None
                    ==> path_parts(rewritten[k].path) == path_parts(written[k].path)
            },
{
    lemma_same_writes(
        entries,
        0,
        tv_file_path,
        codec,
        written,
        stored,
        rewritten,
        restored,
    );
    lemma_save_run(entries, 0, tv_file_path, codec, written, stored);
    lemma_save_run(entries, 0, tv_file_path, codec, rewritten, restored);
    assert forall|k: int|
        #![trigger rewritten[k]]
        #![trigger written[k]]
        0 <= k < written.len() implies {
        &&& rewritten[k].index == written[k].index
        &&& offloaded_text(codec, rewritten[k].bytes) == offloaded_text(codec, written[k].bytes)
        &&& codec is Plain ==> rewritten[k].bytes == written[k].bytes
        &&& has_portable_name(tv_file_path) || final_name(path_parts(tv_file_path)) is None
            ==> path_parts(rewritten[k].path) == path_parts(written[k].path)
    } by {
        let index = written[k].index as nat;
        assert(writes_value(codec, entries[index as int].value, written[k].bytes));
        assert(writes_value(codec, entries[index as int].value, rewritten[k].bytes));
        if has_portable_name(tv_file_path) {
            law_sidecar_is_next_to_vector(tv_file_path, index, written[k].path);
            law_sidecar_is_next_to_vector(tv_file_path, index, rewritten[k].path);
        }
    }
}

proof fn lemma_same_files(
    saved: Seq<EntryView>,
    loading: Seq<EntryView>,
    from: int,
    tv_file_path: PathBuf,
    codec: OffloadCodec,
    written: Seq<Sidecar>,
    stored: Seq<EntryView>,
    read: Seq<Sidecar>,
    loaded: Seq<EntryView>,
)
    requires
        0 <= from,
        saved.len() == loading.len(),
        forall|i: int|
            #![trigger saved[i]]
            #![trigger loading[i]]
            0 <= i < saved.len() ==> saved[i].offload == loading[i].offload,
        is_save_run(saved, from, tv_file_path, codec, written, stored),
        is_load_run(loading, from, tv_file_path, codec, read, loaded),
    ensures
        read.len() == written.len(),
        forall|k: int|
            #![trigger read[k]]
            0 <= k < read.len() ==> read[k].index == written[k].index,
    decreases written.len(),
{
    if written.len() > 0 {
        let index = written[0].index;
        assert(loading[index].offload);
        assert(read.len() > 0);
        let other = read[0].index;
        assert(saved[other].offload);
        assert(index == other);
        lemma_same_files(
            replace_value(saved, index, JsonView::Null),
            replace_value(loading, index, offloaded_value(codec, read[0].bytes)->0),
            index + 1,
            tv_file_path,
            codec,
            written.drop_first(),
            stored,
            read.drop_first(),
            loaded,
        );
        assert forall|k: int| #![trigger read[k]] 0 <= k < read.len() implies read[k].index
            == written[k].index by {
            if k > 0 {
                assert(read.drop_first()[k - 1] == read[k]);
                assert(written.drop_first()[k - 1] == written[k]);
            }
        }
    } else if read.len() > 0 {
        assert(saved[read[0].index].offload);
    }
}

/// Loading stored entries reads the sidecar files that storing them wrote, in the
/// same order, and no others.
pub proof fn law_load_reads_what_save_wrote(
    entries: Seq<EntryView>,
    tv_file_path: PathBuf,
    codec: OffloadCodec,
    written: Seq<Sidecar>,
    stored: Seq<EntryView>,
    read: Seq<Sidecar>,
    loaded: Seq<EntryView>,
)
    requires
        has_portable_name(tv_file_path),
        is_save_run(entries, 0, tv_file_path, codec, written, stored),
        is_load_run(stored, 0, tv_file_path, codec, read, loaded),
    ensures
        read.len() == written.len(),
        forall|k: int|
            #![trigger read[k]]
            0 <= k < read.len() ==> {
                &&& read[k].index == written[k].index
                &&& path_parts(read[k].path) == path_parts(written[k].path)
            },
{
    lemma_save_run(entries, 0, tv_file_path, codec, written, stored);
    lemma_load_run(stored, 0, tv_file_path, codec, read, loaded);
    assert forall|i: int|
        #![trigger entries[i]]
        #![trigger stored[i]]
        0 <= i < entries.len() implies entries[i].offload == stored[i].offload by {
        assert(stored[i].offload == entries[i].offload);
    }
    lemma_same_files(
        entries,
        stored,
        0,
        tv_file_path,
        codec,
        written,
        stored,
        read,
        loaded,
    );
    assert forall|k: int| #![trigger read[k]] 0 <= k < read.len() implies path_parts(read[k].path)
        == path_parts(written[k].path) by {
        let index = written[k].index as nat;
        law_sidecar_is_next_to_vector(tv_file_path, index, written[k].path);
        law_sidecar_is_next_to_vector(tv_file_path, index, read[k].path);
    }
}

/// The bytes that were written of a value are read as that value, where the JSON
/// parser can read the value's text back.
pub proof fn law_value_round_trip(codec: OffloadCodec, value: JsonView, bytes: Seq<u8>)
    requires
        writes_value(codec, value, bytes),
    ensures
        reads_back(value) ==> offloaded_value(codec, bytes) == Some(value),
{
}

/// What decompressing gives of what compressing made is the data that was
/// compressed, empty data included.
pub proof fn law_compression_round_trip(data: Seq<u8>, bytes: Seq<u8>, decompressed: Seq<u8>)
    requires
        writes_text(OffloadCodec::Zstd, data, bytes),
        zstd_content(bytes) == Some(decompressed),
    ensures
        decompressed == data,
{
}

/// Reading a sidecar file that holds a value fails for one reason only, that the
/// decompressor refuses its bytes.
pub proof fn law_readable_sidecar_loads(codec: OffloadCodec, bytes: Seq<u8>, error: OffloadError)
    requires
        offloaded_value(codec, bytes) is Some,
        load_fails(codec, bytes, error),
    ensures
        codec is Zstd,
        error is Decompress,
        decompressor_refuses(bytes, error->Decompress_0),
{
}

/// Loading the sidecar files a second time changes nothing, as long as the file of
/// each entry gives the same bytes both times.
pub proof fn law_loading_twice_is_loading_once(
    entries: Seq<EntryView>,
    tv_file_path: PathBuf,
    codec: OffloadCodec,
    read: Seq<Sidecar>,
    loaded: Seq<EntryView>,
    read_again: Seq<Sidecar>,
    loaded_again: Seq<EntryView>,
)
    requires
        is_load_run(entries, 0, tv_file_path, codec, read, loaded),
        is_load_run(loaded, 0, tv_file_path, codec, read_again, loaded_again),
        forall|j: int, k: int|
            #![trigger read[j], read_again[k]]
            0 <= j < read.len() && 0 <= k < read_again.len() && read[j].index
                == read_again[k].index ==> read[j].bytes == read_again[k].bytes,
    ensures
        loaded_again == loaded,
{
    lemma_load_run(entries, 0, tv_file_path, codec, read, loaded);
    lemma_load_run(loaded, 0, tv_file_path, codec, read_again, loaded_again);
    assert forall|i: int| 0 <= i < loaded.len() implies loaded_again[i] == loaded[i] by {
        let before = entries[i];
        let between = loaded[i];
        if between.offload {
            let j = choose|j: int|
                {
                    &&& 0 <= j < read.len()
                    &&& (#[trigger] read[j]).index == i
                    &&& is_offloaded_path(tv_file_path, i as nat, read[j].path)
                    &&& offloaded_value(codec, read[j].bytes) == Some(loaded[i].value)
                };
            let k = choose|k: int|
                {
                    &&& 0 <= k < read_again.len()
                    &&& (#[trigger] read_again[k]).index == i
                    &&& is_offloaded_path(tv_file_path, i as nat, read_again[k].path)
                    &&& offloaded_value(codec, read_again[k].bytes) == Some(loaded_again[i].value)
                };
            assert(read[j].bytes == read_again[k].bytes);
        }
    }
    assert(loaded_again =~= loaded);
}

/// Reading a sidecar file that a value was written to fails for one reason only,
/// that the decompressor refuses its bytes, where the JSON parser can read the value's
/// text back.
pub proof fn law_stored_value_parses(
    codec: OffloadCodec,
    value: JsonView,
    bytes: Seq<u8>,
    error: OffloadError,
)
    requires
        writes_value(codec, value, bytes),
        load_fails(codec, bytes, error),
    ensures
        reads_back(value) ==> codec is Zstd && error is Decompress && decompressor_refuses(
            bytes,
            error->Decompress_0,
        ),
{
}

/// Entries that are stored with their sidecar files and loaded from them again are
/// the same entries, where the JSON parser can read the offloaded values back:
/// each sidecar file gives back what was written for its entry, whatever was in
/// the files before.
pub proof fn law_offload_round_trip(
    entries: Seq<EntryView>,
    tv_file_path: PathBuf,
    codec: OffloadCodec,
    files: Map<Seq<PathPart>, Seq<u8>>,
    written: Seq<Sidecar>,
    stored: Seq<EntryView>,
    read: Seq<Sidecar>,
    loaded: Seq<EntryView>,
)
    requires
        has_portable_name(tv_file_path),
        is_save_run(entries, 0, tv_file_path, codec, written, stored),
        is_load_run(stored, 0, tv_file_path, codec, read, loaded),
        forall|k: int|
            #![trigger read[k]]
            0 <= k < read.len() ==> read[k].bytes == write_files(files, written)[path_parts(
                read[k].path,
            )],
    ensures
        (forall|i: int|
            #![trigger entries[i]]
            0 <= i < entries.len() && entries[i].offload ==> reads_back(entries[i].value))
            ==> loaded == entries,
{
    lemma_save_run(entries, 0, tv_file_path, codec, written, stored);
    lemma_load_run(stored, 0, tv_file_path, codec, read, loaded);
    lemma_written_files(entries, 0, tv_file_path, codec, written, stored, files);
    if forall|i: int|
        #![trigger entries[i]]
        0 <= i < entries.len() && entries[i].offload ==> reads_back(entries[i].value) {
        assert forall|i: int| 0 <= i < entries.len() implies loaded[i] == entries[i] by {
            let before = entries[i];
            let between = stored[i];
            if before.offload {
                let w = choose|k: int| 0 <= k < written.len() && (#[trigger] written[k]).index == i;
                let r = choose|k: int|
                    {
                        &&& 0 <= k < read.len()
                        &&& (#[trigger] read[k]).index == i
                        &&& is_offloaded_path(tv_file_path, i as nat, read[k].path)
                        &&& offloaded_value(codec, read[k].bytes) == Some(loaded[i].value)
                    };
                law_sidecar_is_next_to_vector(tv_file_path, i as nat, written[w].path);
                law_sidecar_is_next_to_vector(tv_file_path, i as nat, read[r].path);
                assert(read[r].bytes == written[w].bytes);
                law_value_round_trip(codec, before.value, written[w].bytes);
                assert(loaded[i].value == before.value);
            }
        }
        assert(loaded =~= entries);
    }
}

/// A `Check` session over what an `Init` session recorded and stored, sidecar files
/// included, replays each constant as it was recorded and accepts every entry that
/// agrees with the recorded one.
pub proof fn law_stored_session_replays(
    init: EnvView,
    first: Seq<EntryView>,
    codec: OffloadCodec,
    files: Map<Seq<PathPart>, Seq<u8>>,
    written: Seq<Sidecar>,
    stored: Seq<EntryView>,
    read: Seq<Sidecar>,
    check: EnvView,
    second: Seq<EntryView>,
    i: int,
)
    requires
        init.test_mode is Init,
        init.recorded.len() == 0,
        has_portable_name(init.tv_file_path),
        is_save_run(
            run(init, first).recorded,
            0,
            init.tv_file_path,
            codec,
            written,
            stored,
        ),
        is_load_run(stored, 0, init.tv_file_path, codec, read, check.loaded),
        forall|k: int|
            #![trigger read[k]]
            0 <= k < read.len() ==> read[k].bytes == write_files(files, written)[path_parts(
                read[k].path,
            )],
        check.test_mode is Check,
        check.recorded.len() == 0,
        second.len() <= first.len(),
        forall|j: int| #![trigger second[j]] 0 <= j < second.len() ==> agree(first[j], second[j]),
        0 <= i < second.len(),
    ensures
        (forall|j: int|
            #![trigger first[j]]
            0 <= j < first.len() && first[j].offload ==> reads_back(first[j].value)) ==> {
            &&& verdict_at(check, second, i).accepts()
            &&& first[i].entry_type is Const ==> verdict_at(check, second, i) == Verdict::Replay(
                first[i].value,
            )
        },
{
    law_run_records_everything(init, first);
    assert(run(init, first).recorded =~= first);
    law_offload_round_trip(
        first,
        init.tv_file_path,
        codec,
        files,
        written,
        stored,
        read,
        check.loaded,
    );
    if forall|j: int|
        #![trigger first[j]]
        0 <= j < first.len() && first[j].offload ==> reads_back(first[j].value) {
        law_check_replays_init(init, check, first, second, i);
    }
}

/// Ending an `Init` session again after what it recorded has been stored writes
/// nothing: what is loaded of the file and its sidecar files is what the session
/// recorded.
pub proof fn law_stored_session_is_kept(
    env: EnvView,
    codec: OffloadCodec,
    files: Map<Seq<PathPart>, Seq<u8>>,
    written: Seq<Sidecar>,
    stored: Seq<EntryView>,
    read: Seq<Sidecar>,
    loaded: Seq<EntryView>,
)
    requires
        has_portable_name(env.tv_file_path),
        is_save_run(env.recorded, 0, env.tv_file_path, codec, written, stored),
        is_load_run(stored, 0, env.tv_file_path, codec, read, loaded),
        forall|k: int|
            #![trigger read[k]]
            0 <= k < read.len() ==> read[k].bytes == write_files(files, written)[path_parts(
                read[k].path,
            )],
    ensures
        (forall|i: int|
            #![trigger env.recorded[i]]
            0 <= i < env.recorded.len() && env.recorded[i].offload ==> reads_back(
                env.recorded[i].value,
            )) ==> !env.update_required(Some(loaded)),
{
    law_offload_round_trip(
        env.recorded,
        env.tv_file_path,
        codec,
        files,
        written,
        stored,
        read,
        loaded,
    );
    law_unchanged_file_is_kept(env);
}

/// What `process_next_entry` answered in an `Init` session it answers again in a
/// `Check` session over what that session recorded and stored, sidecar files
/// included, at each place where the observed entries agree so far. The deserializer
/// is to be deterministic.
pub proof fn law_stored_session_answers<O, E, D: Fn(&Value) -> Result<O, E>>(
    init: EnvView,
    first: Seq<EntryView>,
    codec: OffloadCodec,
    files: Map<Seq<PathPart>, Seq<u8>>,
    written: Seq<Sidecar>,
    stored: Seq<EntryView>,
    read: Seq<Sidecar>,
    check: EnvView,
    second: Seq<EntryView>,
    i: int,
    init_env: TestVecEnv,
    check_env: TestVecEnv,
    first_entry: TestVectorEntry,
    second_entry: TestVectorEntry,
    deserializer: Option<&D>,
    first_result: Result<Option<O>, ProcessError<E>>,
    second_result: Result<Option<O>, ProcessError<E>>,
)
    requires
        init.test_mode is Init,
        init.recorded.len() == 0,
        has_portable_name(init.tv_file_path),
        is_save_run(
            run(init, first).recorded,
            0,
            init.tv_file_path,
            codec,
            written,
            stored,
        ),
        is_load_run(stored, 0, init.tv_file_path, codec, read, check.loaded),
        forall|k: int|
            #![trigger read[k]]
            0 <= k < read.len() ==> read[k].bytes == write_files(files, written)[path_parts(
                read[k].path,
            )],
        check.test_mode is Check,
        check.recorded.len() == 0,
        second.len() <= first.len(),
        forall|j: int| #![trigger second[j]] 0 <= j < second.len() ==> agree(first[j], second[j]),
        0 <= i < second.len(),
        init_env@ == run(init, first.take(i)),
        check_env@ == run(check, second.take(i)),
        first_entry@ == first[i],
        second_entry@ == second[i],
        is_deterministic(deserializer),
        first[i].entry_type is Const ==> deserializer is Some,
        answers(init_env, first_entry, deserializer, first_result),
        answers(check_env, second_entry, deserializer, second_result),
        first_result is Ok,
    ensures
        (forall|j: int|
            #![trigger first[j]]
            0 <= j < first.len() && first[j].offload ==> reads_back(first[j].value))
            ==> second_result == first_result,
{
    law_run_records_everything(init, first);
    assert(run(init, first).recorded =~= first);
    law_offload_round_trip(
        first,
        init.tv_file_path,
        codec,
        files,
        written,
        stored,
        read,
        check.loaded,
    );
    if forall|j: int|
        #![trigger first[j]]
        0 <= j < first.len() && first[j].offload ==> reads_back(first[j].value) {
        law_check_answers_as_init(
            init,
            check,
            first,
            second,
            i,
            init_env,
            check_env,
            first_entry,
            second_entry,
            deserializer,
            first_result,
            second_result,
        );
    }
}

} // verus!
