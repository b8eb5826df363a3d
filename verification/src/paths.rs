//! File names and directories of `/`-separated paths.
//!
//! A path is read as an optional head (the root `/`, or a leading `.` that
//! stands for the current directory) followed by components separated by `/`.
//! Empty components and `.` components carry no meaning and are skipped, so
//! `a//b/./` names the same file as `a/b`.

use vstd::prelude::*;
use vstd::string::StrSliceExecFns;
use vstd::string::StringExecFns;

verus! {

/// Number of characters at the front of `path` that belong to the head.
pub open spec fn lead_len(path: Seq<char>) -> int {
    if path.len() > 0 && path[0] == '/' {
        1
    } else if path.len() > 0 && path[0] == '.' && (path.len() == 1 || path[1] == '/') {
        1
    } else {
        0
    }
}

/// `end` moved left over separators and `.` components, down to the end of a
/// component that means something, or to the head if there is none.
pub open spec fn trimmed_end(path: Seq<char>, end: int) -> int
    decreases end,
{
    let lead = lead_len(path);
    if end <= lead {
        lead
    } else if path[end - 1] == '/' {
        trimmed_end(path, end - 1)
    } else if path[end - 1] == '.' && (end - 1 == lead || path[end - 2] == '/') {
        trimmed_end(path, end - 1)
    } else {
        end
    }
}

/// Where the component that ends at `end` starts.
pub open spec fn component_start(path: Seq<char>, end: int) -> int
    decreases end,
{
    if end <= lead_len(path) {
        lead_len(path)
    } else if path[end - 1] == '/' {
        end
    } else {
        component_start(path, end - 1)
    }
}

/// Where the last meaningful component of `path` ends.
pub open spec fn name_end(path: Seq<char>) -> int {
    trimmed_end(path, path.len() as int)
}

/// Where the last meaningful component of `path` starts.
pub open spec fn name_start(path: Seq<char>) -> int {
    component_start(path, name_end(path))
}

/// The two characters of the component that names the parent directory.
pub open spec fn parent_marker() -> Seq<char> {
    seq!['.', '.']
}

/// The file name of `path`: its last meaningful component, unless there is
/// none or it is `..`.
pub open spec fn base_name(path: Seq<char>) -> Option<Seq<char>> {
    let name = path.subrange(name_start(path), name_end(path));
    if name_end(path) <= lead_len(path) || name == parent_marker() {
        None
    } else {
        Some(name)
    }
}

/// Where the directory part of `path` ends: what is left once the last
/// meaningful component and the separators before it are taken away.
pub open spec fn directory_end(path: Seq<char>) -> int {
    if name_end(path) <= lead_len(path) {
        0
    } else if name_start(path) > lead_len(path) {
        trimmed_end(path, name_start(path) - 1)
    } else {
        lead_len(path)
    }
}

/// The directory that holds the last component of `path`, and `.` where the
/// path names none.
pub open spec fn directory_of(path: Seq<char>) -> Seq<char> {
    if directory_end(path) == 0 {
        seq!['.']
    } else {
        path.subrange(0, directory_end(path))
    }
}

/// `name` placed in `directory`. An absolute `name` stands for itself.
pub open spec fn joined(directory: Seq<char>, name: Seq<char>) -> Seq<char> {
    if name.len() > 0 && name[0] == '/' {
        name
    } else if directory.len() == 0 || directory.last() == '/' {
        directory + name
    } else {
        directory + seq!['/'] + name
    }
}

/// The text of an optional string.
pub open spec fn text_of(value: Option<String>) -> Option<Seq<char>> {
    match value {
        Some(text) => Some(text@),
        None => None,
    }
}

/// Whether `name` can be the name of a file: it is not empty, holds no
/// separator, and is neither `.` nor `..`.
pub open spec fn is_plain_name(name: Seq<char>) -> bool {
    &&& name.len() > 0
    &&& forall|i: int| 0 <= i < name.len() ==> name[i] != '/'
    &&& name != seq!['.']
    &&& name != parent_marker()
}

/// Whether `directory` is written without anything to skip at its end: it
/// is not empty and does not end in a separator or a `.` component, unless
/// it is only a head.
pub open spec fn is_settled(directory: Seq<char>) -> bool {
    directory.len() > 0 && trimmed_end(directory, directory.len() as int) == directory.len()
}

/// The end of a trimmed path lies between the head and the place trimming
/// started from, and trimming again changes nothing.
pub proof fn lemma_trimmed_end_bounds(path: Seq<char>, end: int)
    requires
        lead_len(path) <= end <= path.len(),
    ensures
        lead_len(path) <= trimmed_end(path, end) <= end,
        trimmed_end(path, trimmed_end(path, end)) == trimmed_end(path, end),
    decreases end,
{
    if trimmed_end(path, end) != end && end > lead_len(path) {
        lemma_trimmed_end_bounds(path, end - 1);
    }
}

/// A component starts after the head, at or before its end, right behind a
/// separator or the head, and holds no separator.
pub proof fn lemma_component_start_bounds(path: Seq<char>, end: int)
    requires
        lead_len(path) <= end <= path.len(),
    ensures
        lead_len(path) <= component_start(path, end) <= end,
        component_start(path, end) == lead_len(path) || path[component_start(path, end) - 1]
            == '/',
        forall|i: int| component_start(path, end) <= i < end ==> path[i] != '/',
    decreases end,
{
    if end > lead_len(path) && path[end - 1] != '/' {
        lemma_component_start_bounds(path, end - 1);
    }
}

/// A file name is never empty, holds no separator, and is neither `.` nor
/// `..`.
pub proof fn lemma_base_name_is_plain(path: Seq<char>)
    requires
        base_name(path) is Some,
    ensures
        is_plain_name(base_name(path)->0),
{
    let end = name_end(path);
    let start = name_start(path);
    let name = base_name(path)->0;
    lemma_trimmed_end_bounds(path, path.len() as int);
    lemma_component_start_bounds(path, end);
    // The end of a trimmed path is a fixed point of trimming: the character
    // before it is no separator, and the component there is not `.`.
    lemma_trimmed_end_bounds(path, end - 1);
    assert(path[end - 1] != '/');
    assert forall|i: int| 0 <= i < name.len() implies name[i] != '/' by {
        assert(name[i] == path[start + i]);
    }
    if name == seq!['.'] {
        assert(name[0] == path[start]);
    }
}

/// The directory of a path is never empty.
pub proof fn lemma_directory_is_named(path: Seq<char>)
    ensures
        directory_of(path).len() > 0,
        0 <= directory_end(path) <= path.len(),
{
    let lead = lead_len(path);
    lemma_trimmed_end_bounds(path, path.len() as int);
    if name_end(path) > lead {
        lemma_component_start_bounds(path, name_end(path));
        if name_start(path) > lead {
            lemma_trimmed_end_bounds(path, name_start(path) - 1);
        }
    }
}

/// Two paths that agree up to `end`, and in their heads, are trimmed and
/// split alike up to `end`.
proof fn lemma_prefix_decides(first: Seq<char>, second: Seq<char>, end: int)
    requires
        0 <= end <= first.len(),
        end <= second.len(),
        lead_len(first) == lead_len(second),
        forall|i: int| 0 <= i < end ==> first[i] == second[i],
    ensures
        trimmed_end(first, end) == trimmed_end(second, end),
        component_start(first, end) == component_start(second, end),
    decreases end,
{
    if end > lead_len(first) {
        lemma_prefix_decides(first, second, end - 1);
    }
}

/// The directory of a path is settled.
pub proof fn lemma_directory_is_settled(path: Seq<char>)
    ensures
        is_settled(directory_of(path)),
{
    let lead = lead_len(path);
    let stop = directory_end(path);
    let directory = directory_of(path);
    lemma_directory_is_named(path);
    if stop == 0 {
        assert(directory.len() == 1 && directory[0] == '.');
        assert(lead_len(directory) == 1);
    } else {
        lemma_trimmed_end_bounds(path, path.len() as int);
        lemma_component_start_bounds(path, name_end(path));
        if name_start(path) > lead {
            lemma_trimmed_end_bounds(path, name_start(path) - 1);
        }
        assert(trimmed_end(path, stop) == stop);
        assert(lead <= stop);
        if stop > lead {
            lemma_trimmed_end_bounds(path, stop - 1);
            assert(lead_len(directory) == lead) by {
                if stop == 1 {
                    assert(lead == 0);
                    assert(path[0] != '.');
                }
            }
            lemma_prefix_decides(directory, path, stop);
        } else {
            assert(lead == 1 && stop == 1);
            assert(lead_len(directory) == 1);
        }
    }
}

/// A plain name placed in a directory is the file name of the path that
/// results.
pub proof fn lemma_joined_keeps_the_name(directory: Seq<char>, name: Seq<char>)
    requires
        is_plain_name(name),
    ensures
        base_name(joined(directory, name)) == Some(name),
        name_end(joined(directory, name)) == joined(directory, name).len(),
        name_start(joined(directory, name)) == joined(directory, name).len() - name.len(),
{
    let path = joined(directory, name);
    let len = path.len() as int;
    let start = len - name.len();
    assert(forall|i: int| 0 <= i < name.len() ==> path[start + i] == name[i]);
    assert(start == 0 || path[start - 1] == '/');
    assert(lead_len(path) <= start) by {
        if start == 0 && path[0] == '.' && path.len() > 1 {
            assert(path[1] == name[1]);
        }
        if start == 0 && path[0] == '.' && path.len() == 1 {
            assert(name =~= seq!['.']);
        }
    }
    assert(path[len - 1] == name[name.len() - 1]);
    assert(trimmed_end(path, len) == len) by {
        if path[len - 1] == '.' && (len - 1 == lead_len(path) || path[len - 2] == '/') {
            if name.len() == 1 {
                assert(name =~= seq!['.']);
            } else {
                assert(path[len - 2] == name[name.len() - 2]);
                assert(len - 1 == lead_len(path));
            }
        }
    }
    lemma_component_start_in_name(path, start, len);
    assert(path.subrange(start, len) =~= name);
}

/// The component that ends within a stretch without separators, which
/// begins behind a separator or the head, starts where the stretch starts.
proof fn lemma_component_start_in_name(path: Seq<char>, start: int, end: int)
    requires
        lead_len(path) <= start <= end <= path.len(),
        start == lead_len(path) || path[start - 1] == '/',
        forall|i: int| start <= i < end ==> path[i] != '/',
    ensures
        component_start(path, end) == start,
    decreases end - start,
{
    if end > start {
        lemma_component_start_in_name(path, start, end - 1);
    }
}

/// A plain name placed in a settled directory lies in that directory.
pub proof fn lemma_joined_keeps_the_directory(directory: Seq<char>, name: Seq<char>)
    requires
        is_plain_name(name),
        is_settled(directory),
    ensures
        directory_of(joined(directory, name)) == directory,
{
    let path = joined(directory, name);
    let size = directory.len() as int;
    let lead = lead_len(directory);
    lemma_joined_keeps_the_name(directory, name);
    assert(forall|i: int| 0 <= i < size ==> path[i] == directory[i]);
    assert(lead_len(path) == lead) by {
        if size == 1 {
            assert(path[1] == '/' || directory[0] == '/');
        }
    }
    lemma_trimmed_end_bounds(directory, size);
    if directory.last() == '/' {
        // Only a head ends in a separator and is settled: the root.
        if size > lead {
            lemma_trimmed_end_bounds(directory, size - 1);
        }
        assert(size == lead);
        assert(name_start(path) == size);
    } else {
        assert(path[size] == '/');
        assert(name_start(path) == size + 1);
        lemma_prefix_decides(path, directory, size);
    }
    assert(path.subrange(0, size) =~= directory);
}

/// The file name of `path`, placed in the directory of `path`, names the
/// same file in the same directory.
pub proof fn lemma_directory_and_name_lead_back(path: Seq<char>)
    requires
        base_name(path) is Some,
    ensures
        base_name(joined(directory_of(path), base_name(path)->0)) == base_name(path),
        directory_of(joined(directory_of(path), base_name(path)->0)) == directory_of(path),
{
    lemma_base_name_is_plain(path);
    lemma_directory_is_settled(path);
    lemma_joined_keeps_the_name(directory_of(path), base_name(path)->0);
    lemma_joined_keeps_the_directory(directory_of(path), base_name(path)->0);
}

/// The characters of `text`, one by one.
fn characters(text: &str) -> (all: Vec<char>)
    ensures
        all@ == text@,
{
    let mut all: Vec<char> = Vec::new();
    for c in it: text.chars()
        invariant
            it.seq() == text@,
            all@ == it.seq().take(it.index() as int),
    {
        all.push(c);
        assert(it.seq().take(it.index() + 1) =~= it.seq().take(it.index() as int).push(c));
    }
    assert(all@ =~= text@);
    all
}

/// The length of the head of `path`.
fn lead_of(path: &Vec<char>) -> (lead: usize)
    ensures
        lead == lead_len(path@),
        lead <= path@.len(),
{
    let len: usize = path.len();
    if len == 0 {
        0
    } else if path[0] == '/' {
        1
    } else if path[0] == '.' && (len == 1 || path[1] == '/') {
        1
    } else {
        0
    }
}

/// Moves `end` left over separators and `.` components.
fn trim_end(path: &Vec<char>, lead: usize, end: usize) -> (stop: usize)
    requires
        lead == lead_len(path@),
        lead <= end <= path@.len(),
    ensures
        stop == trimmed_end(path@, end as int),
        lead <= stop <= end,
{
    let mut stop: usize = end;
    let mut settled: bool = false;
    while stop > lead && !settled
        invariant
            lead == lead_len(path@),
            lead <= stop <= end,
            end <= path@.len(),
            trimmed_end(path@, stop as int) == trimmed_end(path@, end as int),
            settled ==> trimmed_end(path@, stop as int) == stop,
        decreases stop - lead + (if settled { 0int } else { 1int }),
    {
        let last: char = path[stop - 1];
        if last == '/' {
            stop = stop - 1;
        } else if last == '.' && (stop - 1 == lead || path[stop - 2] == '/') {
            stop = stop - 1;
        } else {
            settled = true;
        }
    }
    stop
}

/// Finds where the component that ends at `end` starts.
fn start_of_component(path: &Vec<char>, lead: usize, end: usize) -> (start: usize)
    requires
        lead == lead_len(path@),
        lead <= end <= path@.len(),
    ensures
        start == component_start(path@, end as int),
        lead <= start <= end,
{
    let mut start: usize = end;
    let mut settled: bool = false;
    while start > lead && !settled
        invariant
            lead == lead_len(path@),
            lead <= start <= end,
            end <= path@.len(),
            component_start(path@, start as int) == component_start(path@, end as int),
            settled ==> component_start(path@, start as int) == start,
        decreases start - lead + (if settled { 0int } else { 1int }),
    {
        if path[start - 1] == '/' {
            settled = true;
        } else {
            start = start - 1;
        }
    }
    start
}

/// Tells whether the characters of `path` from `start` to `end` are `..`.
fn is_parent_marker(path: &Vec<char>, start: usize, end: usize) -> (yes: bool)
    requires
        start <= end <= path@.len(),
    ensures
        yes == (path@.subrange(start as int, end as int) == parent_marker()),
{
    let ghost part = path@.subrange(start as int, end as int);
    if end - start != 2 {
        assert(part.len() != parent_marker().len());
        return false;
    }
    assert(part[0] == path@[start as int] && part[1] == path@[start + 1]);
    if path[start] == '.' && path[start + 1] == '.' {
        assert(part =~= parent_marker());
        true
    } else {
        assert(parent_marker()[0] == '.' && parent_marker()[1] == '.');
        false
    }
}

/// The file name of `path`: its last component, where trailing separators
/// and `.` components do not count. There is none where the path is empty,
/// is only a head, or ends in `..`.
pub fn file_name(path: &str) -> (name: Option<String>)
    ensures
        text_of(name) == base_name(path@),
{
    let text = characters(path);
    let lead: usize = lead_of(&text);
    let end: usize = trim_end(&text, lead, text.len());
    if end <= lead {
        return None;
    }
    let start: usize = start_of_component(&text, lead, end);
    if is_parent_marker(&text, start, end) {
        None
    } else {
        Some(String::from_str(path.substring_char(start, end)))
    }
}

/// The directory that holds the file `path` names, and `.` where the path
/// names no directory: for a bare file name, an empty path, and a path that
/// is only a head.
pub fn dirname(path: &str) -> (directory: String)
    ensures
        directory@ == directory_of(path@),
{
    let text = characters(path);
    let lead: usize = lead_of(&text);
    let end: usize = trim_end(&text, lead, text.len());
    let mut stop: usize = 0;
    if end > lead {
        let start: usize = start_of_component(&text, lead, end);
        if start > lead {
            stop = trim_end(&text, lead, start - 1);
        } else {
            stop = lead;
        }
    }
    if stop == 0 {
        let dot = String::from_str(".");
        proof {
            reveal_strlit(".");
            assert(dot@ =~= seq!['.']);
        }
        dot
    } else {
        String::from_str(path.substring_char(0, stop))
    }
}

/// Places `name` in `directory`: the two are joined by one separator, unless
/// the directory is empty or already ends in one. A `name` that starts at the
/// root replaces the directory.
pub fn join(directory: &str, name: &str) -> (path: String)
    ensures
        path@ == joined(directory@, name@),
{
    let tail = characters(name);
    if tail.len() > 0 && tail[0] == '/' {
        return String::from_str(name);
    }
    let head = characters(directory);
    let mut path = String::from_str(directory);
    if head.len() > 0 && head[head.len() - 1] != '/' {
        proof {
            reveal_strlit("/");
        }
        path.append("/");
        assert(path@ =~= directory@ + seq!['/']);
    }
    path.append(name);
    path
}

} // verus!
