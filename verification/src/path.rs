//! File paths as text: the file name that a path ends in, its extension, and
//! the path of the same file under another extension.
//!
//! Components are separated by `/`. Empty components and components that are a
//! single `.` stand for nothing, so a path may end in any number of them after
//! its file name. A path that ends in `..`, or in nothing else, names no file.
//!
//! A file name is a stem, and an extension behind the last `.` of the name. A
//! name without a `.`, or with its only `.` in front, is all stem.

use vstd::prelude::*;

use crate::text::{ascii_lowercase, characters, lower, lowered};

verus! {

/// Whether `path` ends in something that stands for nothing: a separator, or a
/// component that is a single `.`.
pub open spec fn trails(path: Seq<char>) -> bool {
    &&& path.len() > 0
    &&& path.last() == '/' || (path.last() == '.' && (path.len() == 1 || path[path.len() - 2]
        == '/'))
}

/// How much of `path` is left when all that stands for nothing at its end is
/// taken away: where its file name ends.
pub open spec fn name_end(path: Seq<char>) -> int
    decreases path.len(),
{
    if trails(path) {
        name_end(path.drop_last())
    } else {
        path.len() as int
    }
}

/// Where the component that ends before `end` begins.
pub open spec fn name_start(path: Seq<char>, end: int) -> int
    decreases end,
{
    if end <= 0 {
        0
    } else if path[end - 1] == '/' {
        end
    } else {
        name_start(path, end - 1)
    }
}

/// The last component of `path` that is neither empty nor `.`; empty if there
/// is none.
pub open spec fn last_component(path: Seq<char>) -> Seq<char> {
    path.subrange(name_start(path, name_end(path)), name_end(path))
}

/// Whether `path` ends in the name of a file: it has a last component, and
/// that is not `..`.
pub open spec fn names_file(path: Seq<char>) -> bool {
    let name = last_component(path);
    name.len() > 0 && !(name.len() == 2 && name[0] == '.' && name[1] == '.')
}

/// The position of the last `.` in `name`, or -1.
pub open spec fn last_dot(name: Seq<char>) -> int
    decreases name.len(),
{
    if name.len() == 0 {
        -1
    } else if name.last() == '.' {
        name.len() - 1
    } else {
        last_dot(name.drop_last())
    }
}

/// The length of the stem of a file name.
pub open spec fn stem_len(name: Seq<char>) -> int {
    if last_dot(name) > 0 {
        last_dot(name)
    } else {
        name.len() as int
    }
}

/// The extension of a file name as it is written; empty where the name is all
/// stem.
pub open spec fn name_extension(name: Seq<char>) -> Seq<char> {
    if last_dot(name) > 0 {
        name.skip(last_dot(name) + 1)
    } else {
        Seq::empty()
    }
}

/// The extension of the file that `path` names, in lower case; empty where the
/// path names no file or the file name has no extension.
pub open spec fn extension_of(path: Seq<char>) -> Seq<char> {
    if names_file(path) {
        lowered(name_extension(last_component(path)))
    } else {
        Seq::empty()
    }
}

/// `path` up to the end of the stem of its file name.
pub open spec fn up_to_stem(path: Seq<char>) -> Seq<char> {
    path.take(name_start(path, name_end(path)) + stem_len(last_component(path)))
}

/// `path` with the extension of its file name replaced by `extension`: all up
/// to the end of the stem, a `.`, and `extension`. What followed the file name
/// is dropped. An empty `extension` leaves the stem alone, without a `.`. A
/// path that names no file is left as it is.
pub open spec fn renamed(path: Seq<char>, extension: Seq<char>) -> Seq<char> {
    if !names_file(path) {
        path
    } else if extension.len() == 0 {
        up_to_stem(path)
    } else {
        up_to_stem(path) + seq!['.'] + extension
    }
}

/// An extension as a file name can end in: not empty, and free of separators
/// and of `.`.
pub open spec fn plain(extension: Seq<char>) -> bool {
    &&& extension.len() > 0
    &&& forall|i: int| 0 <= i < extension.len() ==> extension[i] != '/' && extension[i] != '.'
}

/// Where the file name of a path lies: from `start` to `end`, with its stem
/// ending at `stem_end`.
struct Span {
    start: usize,
    stem_end: usize,
    end: usize,
}

impl Span {
    /// Whether this is where the file name of `path` lies.
    spec fn of(&self, path: Seq<char>) -> bool {
        &&& self.end == name_end(path)
        &&& self.start == name_start(path, name_end(path))
        &&& self.stem_end == self.start + stem_len(last_component(path))
        &&& self.start < self.stem_end <= self.end <= path.len()
        &&& (self.stem_end < self.end) == (last_dot(last_component(path)) > 0)
    }
}

/// Tells whether `chars[..end]` ends in something that stands for nothing.
fn trailing(chars: &Vec<char>, end: usize) -> (idle: bool)
    requires
        end <= chars.len(),
    ensures
        idle == trails(chars@.take(end as int)),
{
    if end == 0 {
        false
    } else if chars[end - 1] == '/' {
        true
    } else {
        chars[end - 1] == '.' && (end == 1 || chars[end - 2] == '/')
    }
}

/// Measures the stem of the name `chars[start..end]`.
fn stem_length(chars: &Vec<char>, start: usize, end: usize) -> (stem: usize)
    requires
        start <= end <= chars.len(),
    ensures
        stem == stem_len(chars@.subrange(start as int, end as int)),
        stem <= end - start,
        (stem < end - start) == (last_dot(chars@.subrange(start as int, end as int)) > 0),
{
    let ghost name = chars@.subrange(start as int, end as int);
    let mut len: usize = end - start;
    assert(name.take(len as int) =~= name);
    while len > 1
        invariant
            len <= end - start,
            start <= end <= chars.len(),
            name == chars@.subrange(start as int, end as int),
            last_dot(name) == last_dot(name.take(len as int)),
        decreases len,
    {
        if chars[start + len - 1] == '.' {
            return len - 1;
        }
        assert(name.take(len as int).drop_last() =~= name.take(len - 1));
        len -= 1;
    }
    proof {
        lemma_last_dot_bounds(name.take(len as int));
    }
    end - start
}

/// Finds the file name in the characters of a path.
fn find_name(chars: &Vec<char>) -> (found: Option<Span>)
    ensures
        (found is Some) == names_file(chars@),
        found matches Some(span) ==> span.of(chars@),
{
    let mut end: usize = chars.len();
    assert(chars@.take(end as int) =~= chars@);
    while trailing(chars, end)
        invariant
            end <= chars.len(),
            name_end(chars@) == name_end(chars@.take(end as int)),
        decreases end,
    {
        assert(chars@.take(end as int).drop_last() =~= chars@.take(end - 1));
        end -= 1;
    }
    let mut start: usize = end;
    while start > 0 && chars[start - 1] != '/'
        invariant
            start <= end <= chars.len(),
            name_start(chars@, end as int) == name_start(chars@, start as int),
        decreases start,
    {
        start -= 1;
    }
    if start == end || (end - start == 2 && chars[start] == '.' && chars[start + 1] == '.') {
        return None;
    }
    let stem_end: usize = start + stem_length(chars, start, end);
    Some(Span { start, stem_end, end })
}

/// The lower-cased extension of the file that `path` names.
pub fn source_extension(path: &str) -> (extension: String)
    ensures
        extension@ == extension_of(path@),
{
    let chars = characters(path);
    match find_name(&chars) {
        Some(span) => {
            if span.stem_end < span.end {
                assert(name_extension(last_component(path@)) =~= path@.subrange(
                    span.stem_end + 1,
                    span.end as int,
                ));
                ascii_lowercase(path.substring_char(span.stem_end + 1, span.end))
            } else {
                assert(lowered(Seq::<char>::empty()) =~= Seq::<char>::empty());
                String::new()
            }
        },
        None => String::new(),
    }
}

/// The path of the file that `path` names, under another extension.
pub fn with_extension(path: &str, extension: &str) -> (out: String)
    ensures
        out@ == renamed(path@, extension@),
{
    let chars = characters(path);
    match find_name(&chars) {
        Some(span) => {
            let mut out = String::from_str(path.substring_char(0, span.stem_end));
            assert(path@.subrange(0, span.stem_end as int) =~= up_to_stem(path@));
            if extension.unicode_len() > 0 {
                out.append(".");
                out.append(extension);
                proof {
                    reveal_strlit(".");
                    assert("."@ =~= seq!['.']);
                }
            }
            out
        },
        None => String::from_str(path),
    }
}

/// Where the file name ends lies within the path.
proof fn lemma_name_end_bounds(path: Seq<char>)
    ensures
        0 <= name_end(path) <= path.len(),
    decreases path.len(),
{
    if path.len() > 0 {
        lemma_name_end_bounds(path.drop_last());
    }
}

/// Behind the place where the file name ends, a path holds separators and
/// dots only, and a separator comes first.
proof fn lemma_name_end_marks(path: Seq<char>)
    ensures
        forall|i: int| name_end(path) <= i < path.len() ==> path[i] == '/' || path[i] == '.',
        0 < name_end(path) < path.len() ==> path[name_end(path)] == '/',
    decreases path.len(),
{
    if trails(path) {
        let rest = path.drop_last();
        lemma_name_end_bounds(rest);
        lemma_name_end_marks(rest);
        assert forall|i: int| name_end(path) <= i < path.len() implies path[i] == '/' || path[i]
            == '.' by {
            if i < rest.len() {
                assert(path[i] == rest[i]);
            }
        }
        if 0 < name_end(rest) < rest.len() {
            assert(path[name_end(path)] == rest[name_end(rest)]);
        } else if 0 < name_end(rest) && path.last() != '/' {
            lemma_name_end_bounds(rest.drop_last());
        }
    }
}

/// A component holds no separator, and begins at the start of the path or
/// behind a separator.
proof fn lemma_name_start_marks(path: Seq<char>, end: int)
    requires
        0 <= end <= path.len(),
    ensures
        0 <= name_start(path, end) <= end,
        name_start(path, end) == 0 || path[name_start(path, end) - 1] == '/',
        forall|i: int| name_start(path, end) <= i < end ==> path[i] != '/',
    decreases end,
{
    if end > 0 && path[end - 1] != '/' {
        lemma_name_start_marks(path, end - 1);
    }
}

/// A place with the marks of `lemma_name_start_marks` is where the component
/// begins.
proof fn lemma_name_start_found(path: Seq<char>, start: int, end: int)
    requires
        0 <= start <= end <= path.len(),
        start == 0 || path[start - 1] == '/',
        forall|i: int| start <= i < end ==> path[i] != '/',
    ensures
        name_start(path, end) == start,
    decreases end - start,
{
    if start < end {
        lemma_name_start_found(path, start, end - 1);
    }
}

/// The last `.` lies within the name, if there is one.
proof fn lemma_last_dot_bounds(name: Seq<char>)
    ensures
        -1 <= last_dot(name) < name.len(),
    decreases name.len(),
{
    if name.len() > 0 {
        lemma_last_dot_bounds(name.drop_last());
    }
}

/// A `.` with none behind it is the last one.
proof fn lemma_last_dot_found(name: Seq<char>, dot: int)
    requires
        0 <= dot < name.len(),
        name[dot] == '.',
        forall|i: int| dot < i < name.len() ==> name[i] != '.',
    ensures
        last_dot(name) == dot,
    decreases name.len(),
{
    if dot < name.len() - 1 {
        lemma_last_dot_found(name.drop_last(), dot);
    }
}

/// The file name is a component of the path. It holds no separator; it begins
/// at the start of the path or behind a separator; it ends at the end of the
/// path or before a separator; and behind it the path holds separators and
/// dots only.
pub proof fn lemma_file_name_is_a_component(path: Seq<char>)
    requires
        names_file(path),
    ensures
        0 <= name_start(path, name_end(path)) < name_end(path) <= path.len(),
        forall|i: int| name_start(path, name_end(path)) <= i < name_end(path) ==> path[i] != '/',
        name_start(path, name_end(path)) == 0 || path[name_start(path, name_end(path)) - 1] == '/',
        name_end(path) == path.len() || path[name_end(path)] == '/',
        forall|i: int| name_end(path) <= i < path.len() ==> path[i] == '/' || path[i] == '.',
{
    lemma_name_end_bounds(path);
    lemma_name_start_marks(path, name_end(path));
    lemma_name_end_marks(path);
}

/// Renaming keeps the directory and the stem, and gives the extension asked
/// for: the renamed path names a file, all up to the end of its stem is as in
/// `path`, and its extension is `extension`, in lower case as every extension
/// is read.
pub proof fn lemma_renamed_keeps_stem(path: Seq<char>, extension: Seq<char>)
    requires
        names_file(path),
        plain(extension),
    ensures
        names_file(renamed(path, extension)),
        up_to_stem(renamed(path, extension)) == up_to_stem(path),
        extension_of(renamed(path, extension)) == lowered(extension),
{
    let end = name_end(path);
    lemma_name_end_bounds(path);
    let start = name_start(path, end);
    lemma_name_start_marks(path, end);
    let name = last_component(path);
    lemma_last_dot_bounds(name);
    let stem = stem_len(name);
    let out = renamed(path, extension);
    assert(out.len() == start + stem + 1 + extension.len());
    assert(out.last() == extension.last());
    assert(name_end(out) == out.len());
    assert forall|i: int| start <= i < out.len() implies out[i] != '/' by {
        if i < start + stem {
            assert(out[i] == path[i]);
        } else if i > start + stem {
            assert(out[i] == extension[i - start - stem - 1]);
        }
    }
    if start > 0 {
        assert(out[start - 1] == path[start - 1]);
    }
    lemma_name_start_found(out, start, out.len() as int);
    let renamed_name = last_component(out);
    assert(renamed_name.len() == stem + 1 + extension.len());
    assert(renamed_name[stem] == '.');
    assert forall|i: int| stem < i < renamed_name.len() implies renamed_name[i] != '.' by {
        assert(renamed_name[i] == extension[i - stem - 1]);
    }
    lemma_last_dot_found(renamed_name, stem);
    assert(name_extension(renamed_name) =~= extension);
    assert(up_to_stem(out) =~= up_to_stem(path));
}

/// Lowering a character neither makes nor unmakes a separator or a `.`.
proof fn lemma_lower_keeps_marks(c: char)
    ensures
        (lower(c) == '/') == (c == '/'),
        (lower(c) == '.') == (c == '.'),
{
}

/// The file name ends at the same place in a path and in its lower case.
proof fn lemma_name_end_ignores_case(path: Seq<char>)
    ensures
        name_end(lowered(path)) == name_end(path),
    decreases path.len(),
{
    if path.len() > 0 {
        lemma_lower_keeps_marks(path.last());
        if path.len() > 1 {
            lemma_lower_keeps_marks(path[path.len() - 2]);
        }
        assert(lowered(path).drop_last() =~= lowered(path.drop_last()));
        lemma_name_end_ignores_case(path.drop_last());
    }
}

/// A component begins at the same place in a path and in its lower case.
proof fn lemma_name_start_ignores_case(path: Seq<char>, end: int)
    requires
        0 <= end <= path.len(),
    ensures
        name_start(lowered(path), end) == name_start(path, end),
    decreases end,
{
    if end > 0 {
        lemma_lower_keeps_marks(path[end - 1]);
        lemma_name_start_ignores_case(path, end - 1);
    }
}

/// The last `.` is at the same place in a name and in its lower case.
proof fn lemma_last_dot_ignores_case(name: Seq<char>)
    ensures
        last_dot(lowered(name)) == last_dot(name),
    decreases name.len(),
{
    if name.len() > 0 {
        lemma_lower_keeps_marks(name.last());
        assert(lowered(name).drop_last() =~= lowered(name.drop_last()));
        lemma_last_dot_ignores_case(name.drop_last());
    }
}

/// The case of the letters of a path plays no part in the extension found:
/// the path in lower case has the same one.
pub proof fn lemma_extension_ignores_case(path: Seq<char>)
    ensures
        extension_of(lowered(path)) == extension_of(path),
{
    let end = name_end(path);
    lemma_name_end_bounds(path);
    lemma_name_end_ignores_case(path);
    lemma_name_start_marks(path, end);
    lemma_name_start_ignores_case(path, end);
    let name = last_component(path);
    assert(last_component(lowered(path)) =~= lowered(name));
    if name.len() == 2 {
        lemma_lower_keeps_marks(name[0]);
        lemma_lower_keeps_marks(name[1]);
    }
    lemma_last_dot_bounds(name);
    lemma_last_dot_ignores_case(name);
    assert(name_extension(lowered(name)) =~= lowered(name_extension(name)));
    assert(lowered(lowered(name_extension(name))) =~= lowered(name_extension(name)));
}

} // verus!
