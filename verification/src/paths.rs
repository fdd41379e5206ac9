//! Paths as text: joining a name to a directory, and replacing the file
//! name of a path.
//!
//! A path is a sequence of components set apart by `/`. It may begin with a
//! root `/`, or with a `.` that names the current directory. Empty
//! components and `.` components after the beginning count for nothing, so
//! that `a//b/` and `a/./b` name what `a/b` names. The last component that
//! counts is the path's file name, unless it is `..`.

use crate::text::starts_with;
use vstd::prelude::*;

verus! {

/// Whether `path` begins at the root.
pub open spec fn is_absolute(path: Seq<char>) -> bool {
    path.len() > 0 && path[0] == '/'
}

/// How many characters of `path` stand before its components: one for the
/// root, one for a `.` at the beginning that is a component of its own, else
/// none.
pub open spec fn lead_len(path: Seq<char>) -> int {
    if path.len() == 0 {
        0
    } else if path[0] == '/' {
        1
    } else if path[0] == '.' && (path.len() == 1 || path[1] == '/') {
        1
    } else {
        0
    }
}

/// The length that is left of the first `len` characters of `path` when the
/// separators and `.` components at their end are dropped.
pub open spec fn trimmed_len(path: Seq<char>, len: int) -> int
    decreases len,
{
    let lead = lead_len(path);
    if len <= lead {
        len
    } else if path[len - 1] == '/' {
        trimmed_len(path, len - 1)
    } else if path[len - 1] == '.' && len - 1 == lead {
        lead
    } else if path[len - 1] == '.' && path[len - 2] == '/' {
        trimmed_len(path, len - 2)
    } else {
        len
    }
}

/// Where the last component among the first `len` characters of `path`
/// begins: behind their last separator, or where the components begin.
pub open spec fn component_start(path: Seq<char>, len: int) -> int
    decreases len,
{
    if len <= lead_len(path) {
        lead_len(path)
    } else if path[len - 1] == '/' {
        len
    } else {
        component_start(path, len - 1)
    }
}

/// The last component of `path` that counts; empty where there is none.
pub open spec fn last_component(path: Seq<char>) -> Seq<char> {
    let end = trimmed_len(path, path.len() as int);
    path.subrange(component_start(path, end), end)
}

/// The file name of `path`: its last component, unless there is none or it
/// is `..`.
pub open spec fn file_name(path: Seq<char>) -> Option<Seq<char>> {
    let last = last_component(path);
    if last.len() == 0 || last == seq!['.', '.'] {
        None
    } else {
        Some(last)
    }
}

/// The length of the part of `path` that stands before its last component,
/// without the separators and `.` components at the end of that part.
pub open spec fn parent_len(path: Seq<char>) -> int {
    let end = trimmed_len(path, path.len() as int);
    let begin = component_start(path, end);
    if begin > lead_len(path) {
        trimmed_len(path, begin - 1)
    } else {
        lead_len(path)
    }
}

/// The path of `name` inside the directory `dir`. A name that begins at the
/// root stands for itself. Any other name is set behind `dir`, with one `/`
/// between the two unless `dir` is empty or ends in one already.
pub open spec fn child_path(dir: Seq<char>, name: Seq<char>) -> Seq<char> {
    if is_absolute(name) {
        name
    } else if dir.len() == 0 || dir.last() == '/' {
        dir + name
    } else {
        dir + "/"@ + name
    }
}

/// `path` with its file name replaced by `name`: `name` inside the part of
/// `path` before its file name. A path without a file name, such as one
/// that ends in `..`, is taken for a directory, and the result is `name`
/// inside it.
pub open spec fn sibling_path(path: Seq<char>, name: Seq<char>) -> Seq<char> {
    if file_name(path) is Some {
        child_path(path.take(parent_len(path)), name)
    } else {
        child_path(path, name)
    }
}

/// Whether `name` is the name of one entry: a single component that is
/// neither `.` nor `..`.
pub open spec fn plain_name(name: Seq<char>) -> bool {
    &&& name.len() > 0
    &&& !name.contains('/')
    &&& name != seq!['.']
    &&& name != seq!['.', '.']
}

/// Whether nothing is dropped at the end of `path`: it ends neither in a
/// separator nor in a `.` component.
pub open spec fn settled(path: Seq<char>) -> bool {
    trimmed_len(path, path.len() as int) == path.len()
}

/// Builds the path of `name` inside `dir`.
pub fn join(dir: &str, name: &str) -> (path: String)
    ensures
        path@ == child_path(dir@, name@),
{
    broadcast use vstd::string::group_string_axioms;

    proof {
        reveal_strlit("/");
        if name@.len() > 0 {
            assert(name@.subrange(0, 1)[0] == name@[0]);
        }
        if is_absolute(name@) {
            assert(name@.subrange(0, 1) =~= "/"@);
        }
    }
    if starts_with(name, "/") {
        return name.to_owned();
    }
    let mut last: Option<char> = None;
    for ch in it: dir.chars()
        invariant
            it.seq() == dir@,
            match last {
                Some(c) => it.index() > 0 && c == dir@[it.index() - 1],
                None => it.index() == 0,
            },
    {
        last = Some(ch);
    }
    let mut path = dir.to_owned();
    match last {
        Some(c) => {
            if c != '/' {
                path.append("/");
            }
        },
        None => {},
    }
    path.append(name);
    path
}

fn chars_of(text: &str) -> (chars: Vec<char>)
    ensures
        chars@ == text@,
{
    broadcast use vstd::string::group_string_axioms;

    let mut chars: Vec<char> = Vec::new();
    for ch in it: text.chars()
        invariant
            it.seq() == text@,
            chars@ == text@.take(it.index() as int),
    {
        chars.push(ch);
        assert(chars@ =~= text@.take(it.index() + 1));
    }
    chars
}

fn lead_of(chars: &Vec<char>) -> (lead: usize)
    ensures
        lead == lead_len(chars@),
        lead <= chars.len(),
        lead <= 1,
{
    if chars.len() == 0 {
        0
    } else if chars[0] == '/' {
        1
    } else if chars[0] == '.' && (chars.len() == 1 || chars[1] == '/') {
        1
    } else {
        0
    }
}

fn trimmed_len_of(chars: &Vec<char>, len: usize) -> (end: usize)
    requires
        lead_len(chars@) <= len <= chars.len(),
    ensures
        end == trimmed_len(chars@, len as int),
        lead_len(chars@) <= end <= len,
{
    let lead = lead_of(chars);
    let mut end = len;
    while end > lead
        invariant
            lead == lead_len(chars@),
            lead <= end <= len <= chars.len(),
            trimmed_len(chars@, end as int) == trimmed_len(chars@, len as int),
        decreases end,
    {
        if chars[end - 1] == '/' {
            end = end - 1;
        } else if chars[end - 1] == '.' && end - 1 == lead {
            end = lead;
        } else if chars[end - 1] == '.' && chars[end - 2] == '/' {
            end = end - 2;
        } else {
            return end;
        }
    }
    end
}

fn component_start_of(chars: &Vec<char>, len: usize) -> (begin: usize)
    requires
        lead_len(chars@) <= len <= chars.len(),
    ensures
        begin == component_start(chars@, len as int),
        lead_len(chars@) <= begin <= len,
{
    let lead = lead_of(chars);
    let mut begin = len;
    while begin > lead
        invariant
            lead == lead_len(chars@),
            lead <= begin <= len <= chars.len(),
            component_start(chars@, begin as int) == component_start(chars@, len as int),
        decreases begin,
    {
        if chars[begin - 1] == '/' {
            return begin;
        }
        begin = begin - 1;
    }
    begin
}

/// Builds `path` with its file name replaced by `name`.
pub fn with_file_name(path: &str, name: &str) -> (sibling: String)
    ensures
        sibling@ == sibling_path(path@, name@),
{
    let chars = chars_of(path);
    let lead = lead_of(&chars);
    let end = trimmed_len_of(&chars, chars.len());
    let begin = component_start_of(&chars, end);
    let is_parent_dir = end - begin == 2 && chars[begin] == '.' && chars[begin + 1] == '.';
    let has_file_name = end > begin && !is_parent_dir;
    proof {
        let last = last_component(path@);
        if is_parent_dir {
            assert(last =~= seq!['.', '.']);
        }
        if last == seq!['.', '.'] {
            assert(last[0] == '.' && last[1] == '.');
        }
    }
    let keep = if !has_file_name {
        chars.len()
    } else if begin > lead {
        trimmed_len_of(&chars, begin - 1)
    } else {
        lead
    };
    let stem = path.substring_char(0, keep);
    join(stem, name)
}

proof fn lemma_trimmed_len_bounds(path: Seq<char>, len: int)
    requires
        lead_len(path) <= len,
    ensures
        lead_len(path) <= trimmed_len(path, len) <= len,
    decreases len,
{
    if len > lead_len(path) {
        lemma_trimmed_len_bounds(path, len - 1);
        if len - 2 >= lead_len(path) {
            lemma_trimmed_len_bounds(path, len - 2);
        }
    }
}

proof fn lemma_component_start_bounds(path: Seq<char>, len: int)
    requires
        lead_len(path) <= len,
    ensures
        lead_len(path) <= component_start(path, len) <= len,
    decreases len,
{
    if len > lead_len(path) {
        lemma_component_start_bounds(path, len - 1);
    }
}

proof fn lemma_trimming_is_done_once(path: Seq<char>, len: int)
    requires
        lead_len(path) <= len,
    ensures
        trimmed_len(path, trimmed_len(path, len)) == trimmed_len(path, len),
    decreases len,
{
    if len > lead_len(path) {
        lemma_trimming_is_done_once(path, len - 1);
        if len - 2 >= lead_len(path) {
            lemma_trimming_is_done_once(path, len - 2);
        }
    }
}

proof fn lemma_same_beginning(a: Seq<char>, b: Seq<char>, len: int)
    requires
        lead_len(a) == lead_len(b),
        0 <= len <= a.len(),
        len <= b.len(),
        forall|i: int| 0 <= i < len ==> a[i] == b[i],
    ensures
        trimmed_len(a, len) == trimmed_len(b, len),
        component_start(a, len) == component_start(b, len),
    decreases len,
{
    if len > lead_len(a) {
        lemma_same_beginning(a, b, len - 1);
        if len >= 2 {
            lemma_same_beginning(a, b, len - 2);
        }
    }
}

proof fn lemma_component_start_skips(path: Seq<char>, begin: int, len: int)
    requires
        lead_len(path) <= begin <= len <= path.len(),
        begin == lead_len(path) || path[begin - 1] == '/',
        forall|i: int| begin <= i < len ==> path[i] != '/',
    ensures
        component_start(path, len) == begin,
    decreases len,
{
    if len > begin {
        lemma_component_start_skips(path, begin, len - 1);
    }
}

/// The part of a child's path that stands before the name: the directory,
/// with a separator behind it where it needs one.
spec fn stem_of(dir: Seq<char>) -> Seq<char> {
    if dir.len() == 0 || dir.last() == '/' {
        dir
    } else {
        dir + "/"@
    }
}

/// The path of a plain name inside any directory has that name for its file
/// name, and nothing is dropped at its end.
pub proof fn lemma_child_is_named(dir: Seq<char>, name: Seq<char>)
    requires
        plain_name(name),
    ensures
        file_name(child_path(dir, name)) == Some(name),
        settled(child_path(dir, name)),
        component_start(child_path(dir, name), child_path(dir, name).len() as int)
            == child_path(dir, name).len() - name.len(),
{
    reveal_strlit("/");
    let child = child_path(dir, name);
    let stem = stem_of(dir);
    let begin = stem.len() as int;
    let len = child.len() as int;
    assert forall|i: int| 0 <= i < name.len() implies name[i] != '/' by {
        if name[i] == '/' {
            assert(name.contains('/'));
        }
    }
    assert(child =~= stem + name);
    assert(forall|i: int| 0 <= i < name.len() ==> child[begin + i] == name[i]);
    assert(forall|i: int| 0 <= i < begin ==> child[i] == stem[i]);
    if name.len() == 1 {
        if name[0] == '.' {
            assert(name =~= seq!['.']);
        }
    }
    if name.len() == 2 {
        if name[0] == '.' && name[1] == '.' {
            assert(name =~= seq!['.', '.']);
        }
    }
    assert(child[len - 1] == name[name.len() - 1]);
    if name.len() >= 2 {
        assert(child[len - 2] == name[name.len() - 2]);
    }
    if begin > 0 {
        assert(child[begin - 1] == '/');
    }
    assert(lead_len(child) <= begin);
    assert(trimmed_len(child, len) == len);
    assert forall|i: int| begin <= i < len implies child[i] != '/' by {
        assert(child[i] == name[i - begin]);
    }
    lemma_component_start_skips(child, begin, len);
    assert(child.subrange(begin, len) =~= name);
}

/// Replacing the file name gives a path with the new name for its file
/// name, whatever the path was.
pub proof fn lemma_sibling_is_named(path: Seq<char>, name: Seq<char>)
    requires
        plain_name(name),
    ensures
        file_name(sibling_path(path, name)) == Some(name),
{
    if file_name(path) is Some {
        lemma_child_is_named(path.take(parent_len(path)), name);
    } else {
        lemma_child_is_named(path, name);
    }
}

/// The part before the file name of an entry's path is the directory that
/// the entry was put in, where nothing is dropped at the directory's end.
pub proof fn lemma_parent_of_child(dir: Seq<char>, name: Seq<char>)
    requires
        plain_name(name),
        settled(dir),
    ensures
        child_path(dir, name).take(parent_len(child_path(dir, name))) == dir,
{
    reveal_strlit("/");
    lemma_child_is_named(dir, name);
    let child = child_path(dir, name);
    let stem = stem_of(dir);
    assert(child =~= stem + name);
    assert(forall|i: int| 0 <= i < stem.len() ==> child[i] == stem[i]);
    assert forall|i: int| 0 <= i < name.len() implies name[i] != '/' by {
        if name[i] == '/' {
            assert(name.contains('/'));
        }
    }
    if name.len() == 1 && name[0] == '.' {
        assert(name =~= seq!['.']);
    }
    if dir.len() == 0 {
        // The child is the name alone, and nothing stands before it.
        assert(child[0] == name[0]);
        assert(lead_len(child) == 0);
        assert(child.take(0) =~= dir);
    } else {
        assert(child[0] == dir[0]);
        if dir.len() >= 2 {
            assert(child[1] == dir[1]);
        } else {
            assert(child[1] == if dir[0] == '/' { name[0] } else { '/' });
        }
        assert(lead_len(child) == lead_len(dir));
        if dir.last() == '/' {
            // A directory that ends in a separator which is not dropped is
            // the root.
            if dir.len() > lead_len(dir) {
                lemma_trimmed_len_bounds(dir, dir.len() - 1);
            }
            assert(dir.len() == lead_len(dir));
            assert(parent_len(child) == dir.len());
        } else {
            // The name stands behind a separator of its own, and what is
            // before that separator is the directory.
            assert(forall|i: int| 0 <= i < dir.len() ==> child[i] == dir[i]);
            lemma_same_beginning(child, dir, dir.len() as int);
            assert(parent_len(child) == dir.len());
        }
        assert(child.take(dir.len() as int) =~= dir);
    }
}

/// The part of a path before its file name is a path at whose end nothing
/// is dropped.
proof fn lemma_parent_is_settled(path: Seq<char>)
    ensures
        lead_len(path) <= parent_len(path) <= path.len(),
        settled(path.take(parent_len(path))),
{
    let lead = lead_len(path);
    let end = trimmed_len(path, path.len() as int);
    lemma_trimmed_len_bounds(path, path.len() as int);
    let begin = component_start(path, end);
    lemma_component_start_bounds(path, end);
    let keep = parent_len(path);
    if begin > lead {
        lemma_trimmed_len_bounds(path, begin - 1);
        lemma_trimming_is_done_once(path, begin - 1);
    }
    assert(trimmed_len(path, keep) == keep);
    let stem = path.take(keep);
    assert(lead_len(stem) == lead_len(path));
    lemma_same_beginning(stem, path, keep);
}

/// Replacing the file name of a path that has one keeps the part before
/// the file name as it is.
pub proof fn lemma_sibling_keeps_parent(path: Seq<char>, name: Seq<char>)
    requires
        plain_name(name),
        file_name(path) is Some,
    ensures
        sibling_path(path, name).take(parent_len(sibling_path(path, name))) == path.take(
            parent_len(path),
        ),
{
    lemma_parent_is_settled(path);
    lemma_parent_of_child(path.take(parent_len(path)), name);
}

/// Replacing the file name of an entry of a directory gives another entry
/// of the same directory.
pub proof fn lemma_sibling_of_child(dir: Seq<char>, name: Seq<char>, other: Seq<char>)
    requires
        plain_name(name),
        settled(dir),
    ensures
        sibling_path(child_path(dir, name), other) == child_path(dir, other),
{
    lemma_child_is_named(dir, name);
    lemma_parent_of_child(dir, name);
}

} // verus!
