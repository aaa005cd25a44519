//! Where the sidecar files of a test vector file are: next to it, under its name
//! and a suffix that counts the entry.
use std::path::PathBuf;
use vstd::prelude::*;
use vstd::string::*;

verus! {

/// A component of a path. Names are text; in a name that is not Unicode, what is
/// not is replaced by U+FFFD.
pub enum PathPart {
    Prefix(Seq<char>),
    RootDir,
    CurDir,
    ParentDir,
    Normal(Seq<char>),
}

/// `std::path::PathBuf`. Its components are `path_parts`.
#[verifier::external_type_specification]
#[verifier::external_body]
pub struct ExPathBuf(std::path::PathBuf);

/// The components of a path, in order, as `std::path::Path::components` gives
/// them.
pub uninterp spec fn path_parts(path: PathBuf) -> Seq<PathPart>;

/// The name that a path ends in.
pub open spec fn final_name(parts: Seq<PathPart>) -> Option<Seq<char>> {
    if parts.len() > 0 {
        match parts.last() {
            PathPart::Normal(name) => Some(name),
            _ => None,
        }
    } else {
        None
    }
}

/// A character that separates components of a path, on Unix or on Windows.
pub open spec fn is_separator(c: char) -> bool {
    c == '/' || c == '\\'
}

/// A letter and a colon in front, which name a drive on Windows.
pub open spec fn names_drive(name: Seq<char>) -> bool {
    &&& name.len() >= 2
    &&& 'a' <= name[0] <= 'z' || 'A' <= name[0] <= 'Z'
    &&& name[1] == ':'
}

/// `new_name`, put in the place of the component `name`, is one component on Unix and
/// on Windows: it is `name` with more characters behind it, none of which separates
/// components on either, and it does not begin like a drive.
pub open spec fn extends_name(name: Seq<char>, new_name: Seq<char>) -> bool {
    &&& name.is_prefix_of(new_name)
    &&& forall|i: int|
        #![trigger new_name[i]]
        name.len() <= i < new_name.len() ==> !is_separator(new_name[i])
    &&& !name.contains('/')
    &&& !names_drive(new_name)
}

/// The clone of a `PathBuf` is the same path.
pub assume_specification[ <std::path::PathBuf as Clone>::clone ](
    path: &std::path::PathBuf,
) -> (result: std::path::PathBuf)
    ensures
        result == *path,
;

/// `std::path::Path::file_name` gives the final component where that is a name,
/// and `None` where the path has none or ends in a root or `..`. The name comes as
/// text, by `to_string_lossy`.
#[verifier::external_body]
fn file_name_text(path: &PathBuf) -> (result: Option<String>)
    ensures
        match result {
            Some(name) => final_name(path_parts(*path)) == Some(name@),
            None => final_name(path_parts(*path)) is None,
        },
{
    path.file_name().map(|name| name.to_string_lossy().into_owned())
}

/// `std::path::PathBuf::set_file_name` replaces the name that a path ends in. A
/// name that extends the old one takes its place. What comes of any other name,
/// which may be several components or a drive, depends on the platform and is left
/// unsaid.
#[verifier::external_body]
fn replace_file_name(path: &mut PathBuf, name: &str)
    requires
        final_name(path_parts(*old(path))) is Some,
    ensures
        extends_name(final_name(path_parts(*old(path)))->0, name@) ==> path_parts(*final(path))
            == path_parts(*old(path)).drop_last().push(PathPart::Normal(name@)),
{
    path.set_file_name(name);
}

/// The directory of a path: the path without its last component. A path that ends
/// in a root or a prefix, or has no component, is in none.
pub open spec fn has_parent(parts: Seq<PathPart>) -> bool {
    parts.len() > 0 && !(parts.last() is RootDir) && !(parts.last() is Prefix)
}

/// `std::path::Path::parent` gives the path without its last component, and `None`
/// where the path ends in a root or a prefix, or is empty.
#[verifier::external_body]
pub(crate) fn parent_path(path: &PathBuf) -> (result: Option<PathBuf>)
    ensures
        match result {
            Some(parent) => has_parent(path_parts(*path)) && path_parts(parent) == path_parts(
                *path,
            ).drop_last(),
            None => !has_parent(path_parts(*path)),
        },
{
    path.parent().map(|parent| parent.to_path_buf())
}

/// `result` is `path` with `suffix` behind the name that it ends in, and `path`
/// itself where it ends in none. Where the suffix does not extend the name, the
/// platform decides what path it makes.
pub open spec fn is_suffixed(path: PathBuf, suffix: Seq<char>, result: PathBuf) -> bool {
    match final_name(path_parts(path)) {
        Some(name) => extends_name(name, name + suffix) ==> path_parts(result) == path_parts(
            path,
        ).drop_last().push(PathPart::Normal(name + suffix)),
        None => result == path,
    }
}

/// Puts a suffix behind the file name that a path ends in.
pub fn append_suffix_to_filename(path: &PathBuf, suffix: &str) -> (result: PathBuf)
    ensures
        is_suffixed(*path, suffix@, result),
{
    let mut suffixed = path.clone();
    match file_name_text(path) {
        Some(name) => {
            let new_name = name.concat(suffix);
            replace_file_name(&mut suffixed, new_name.as_str());
        },
        None => {},
    }
    suffixed
}

pub open spec fn digit(n: nat) -> char {
    (('0' as int) + n) as char
}

/// The decimal digits of a number.
pub open spec fn decimal(n: nat) -> Seq<char>
    decreases n,
{
    if n < 10 {
        seq![digit(n)]
    } else {
        decimal(n / 10).push(digit(n % 10))
    }
}

fn digit_text(n: usize) -> (text: &'static str)
    requires
        n < 10,
    ensures
        text@ == seq![digit(n as nat)],
{
    proof {
        reveal_strlit("0");
        reveal_strlit("1");
        reveal_strlit("2");
        reveal_strlit("3");
        reveal_strlit("4");
        reveal_strlit("5");
        reveal_strlit("6");
        reveal_strlit("7");
        reveal_strlit("8");
        reveal_strlit("9");
    }
    match n {
        0 => "0",
        1 => "1",
        2 => "2",
        3 => "3",
        4 => "4",
        5 => "5",
        6 => "6",
        7 => "7",
        8 => "8",
        _ => "9",
    }
}

/// The decimal digits of a number.
pub fn decimal_text(n: usize) -> (text: String)
    ensures
        text@ == decimal(n as nat),
    decreases n,
{
    if n < 10 {
        digit_text(n).to_owned()
    } else {
        decimal_text(n / 10).concat(digit_text(n % 10))
    }
}

/// The suffix that the sidecar file of entry `index` has.
pub open spec fn offload_suffix(index: nat) -> Seq<char> {
    "_offloaded_value_"@ + decimal(index) + ".zstd"@
}

pub open spec fn is_offloaded_path(tv_file_path: PathBuf, index: nat, path: PathBuf) -> bool {
    is_suffixed(tv_file_path, offload_suffix(index), path)
}

/// The sidecar file of entry `index` of a test vector file.
pub fn offloaded_path(tv_file_path: &PathBuf, index: usize) -> (path: PathBuf)
    ensures
        is_offloaded_path(*tv_file_path, index as nat, path),
{
    let suffix = "_offloaded_value_".to_owned().concat(decimal_text(index).as_str()).concat(".zstd");
    append_suffix_to_filename(tv_file_path, suffix.as_str())
}

} // verus!
