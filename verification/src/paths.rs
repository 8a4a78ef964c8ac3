//! Paths of files as texts, with `/` between their components.
//!
//! As usual, a `/` more than one counts as one, and a component `.` counts for
//! nothing except at the very start.

use crate::text;
use vstd::prelude::*;

verus! {

/// The length of a path without the separators and the `.` components that it
/// ends with. Of the root its one separator is kept.
pub open spec fn trimmed_len(path: Seq<char>, n: int) -> int
    decreases n,
{
    if n <= 1 || n > path.len() {
        n
    } else if path[n - 1] == '/' {
        trimmed_len(path, n - 1)
    } else if path[n - 1] == '.' && path[n - 2] == '/' {
        trimmed_len(path, n - 1)
    } else {
        n
    }
}

/// Where the last component begins, of the first `n` characters.
pub open spec fn component_start(path: Seq<char>, n: int) -> int
    decreases n,
{
    if n <= 0 || n > path.len() || path[n - 1] == '/' {
        n
    } else {
        component_start(path, n - 1)
    }
}

/// Whether nothing is left of a path but the root.
pub open spec fn is_root(path: Seq<char>, n: int) -> bool {
    n == 1 && path.len() > 0 && path[0] == '/'
}

proof fn lemma_trimmed_len(path: Seq<char>, n: int)
    requires
        0 <= n <= path.len(),
    ensures
        0 <= trimmed_len(path, n) <= n,
        n > 0 ==> trimmed_len(path, n) > 0,
        trimmed_len(path, n) > 1 ==> path[trimmed_len(path, n) - 1] != '/',
    decreases n,
{
    if n > 1 && (path[n - 1] == '/' || path[n - 1] == '.' && path[n - 2] == '/') {
        lemma_trimmed_len(path, n - 1);
    }
}

/// The name of the file that a path leads to.
pub open spec fn name_of(path: Seq<char>) -> Option<Seq<char>> {
    let n = trimmed_len(path, path.len() as int);
    let start = component_start(path, n);
    let name = path.subrange(start, n);
    if n == 0 || is_root(path, n) || name == "."@ || name == ".."@ {
        None
    } else {
        Some(name)
    }
}

/// The directory that a path leads into.
pub open spec fn parent_of(path: Seq<char>) -> Option<Seq<char>> {
    let n = trimmed_len(path, path.len() as int);
    let start = component_start(path, n);
    if n == 0 || is_root(path, n) {
        None
    } else {
        Some(path.take(trimmed_len(path, start)))
    }
}

/// The path of something in a directory.
pub open spec fn joined(directory: Seq<char>, name: Seq<char>) -> Seq<char> {
    if name.len() > 0 && name[0] == '/' {
        name
    } else if directory.len() == 0 || directory.last() == '/' {
        directory + name
    } else {
        directory + "/"@ + name
    }
}

/// The path with another name in the place of the last one.
pub open spec fn renamed(path: Seq<char>, name: Seq<char>) -> Seq<char> {
    match name_of(path) {
        Some(_) => joined(parent_of(path)->Some_0, name),
        None => joined(path, name),
    }
}

/// Where the extension of a name begins: behind its last dot, unless that is the
/// first character.
pub open spec fn extension_start(name: Seq<char>, n: int) -> Option<int>
    decreases n,
{
    if n <= 1 || n > name.len() {
        None
    } else if name[n - 1] == '.' {
        Some(n)
    } else {
        extension_start(name, n - 1)
    }
}

/// The extension of the file that a path leads to.
pub open spec fn extension_of(path: Seq<char>) -> Option<Seq<char>> {
    match name_of(path) {
        Some(name) => match extension_start(name, name.len() as int) {
            Some(at) => Some(name.skip(at)),
            None => None,
        },
        None => None,
    }
}

/// The path with another extension.
pub open spec fn with_extension_spec(path: Seq<char>, extension: Seq<char>) -> Seq<char> {
    match name_of(path) {
        None => path,
        Some(name) => {
            let n = trimmed_len(path, path.len() as int);
            let stem = match extension_start(name, name.len() as int) {
                Some(at) => at - 1,
                None => name.len() as int,
            };
            let base = path.take(component_start(path, n) + stem);
            if extension.len() == 0 {
                base
            } else {
                base + "."@ + extension
            }
        },
    }
}

/// What was joined to a directory is found in it under its name.
pub proof fn law_join_and_take_apart(directory: Seq<char>, name: Seq<char>)
    requires
        directory.len() > 0,
        trimmed_len(directory, directory.len() as int) == directory.len(),
        name.len() > 0,
        !name.contains('/'),
        name != "."@,
        name != ".."@,
    ensures
        name_of(joined(directory, name)) == Some(name),
        parent_of(joined(directory, name)) == Some(directory),
{
    let path = joined(directory, name);
    reveal_strlit("/");
    reveal_strlit(".");
    let d = directory.len() as int;
    let n = path.len() as int;
    let start = n - name.len();
    assert forall|i: int| 0 <= i < name.len() implies path[start + i] == name[i] by {}
    assert(path.subrange(start, n) =~= name);
    assert(name[0] != '/') by {
        assert(name.contains(name[0]));
    }
    lemma_trimmed_len(directory, d);
    assert(path[start - 1] == '/');
    assert(trimmed_len(path, n) == n) by {
        assert(name.contains(name.last()));
        assert(path[n - 1] == name.last());
        if path[n - 1] == '.' && path[n - 2] == '/' {
            if name.len() > 1 {
                assert(path[n - 2] == name[name.len() - 2]);
                assert(name.contains(name[name.len() - 2]));
            } else {
                assert(name =~= "."@);
            }
        }
    }
    lemma_start_of_name(path, start, n);
    lemma_same_prefix(path, directory, d);
    assert(path.take(d) =~= directory);
    if directory.last() != '/' {
        assert(start == d + 1);
        assert(trimmed_len(path, start) == trimmed_len(path, d));
    } else {
        assert(d == 1);
    }
}

proof fn lemma_start_of_name(path: Seq<char>, start: int, n: int)
    requires
        0 < start <= n <= path.len(),
        path[start - 1] == '/',
        forall|i: int| start <= i < n ==> path[i] != '/',
    ensures
        component_start(path, n) == start,
    decreases n - start,
{
    if n > start {
        lemma_start_of_name(path, start, n - 1);
    }
}

proof fn lemma_same_prefix(path: Seq<char>, other: Seq<char>, n: int)
    requires
        0 <= n <= path.len(),
        n <= other.len(),
        forall|i: int| 0 <= i < n ==> path[i] == other[i],
    ensures
        trimmed_len(path, n) == trimmed_len(other, n),
    decreases n,
{
    if n > 1 {
        lemma_same_prefix(path, other, n - 1);
    }
}

fn trim_len(chars: &Vec<char>, n: usize) -> (r: usize)
    requires
        n <= chars@.len(),
    ensures
        r == trimmed_len(chars@, n as int),
        r <= n,
{
    let mut i: usize = n;
    while i > 1 && (chars[i - 1] == '/' || (chars[i - 1] == '.' && chars[i - 2] == '/'))
        invariant
            i <= n <= chars@.len(),
            trimmed_len(chars@, n as int) == trimmed_len(chars@, i as int),
        decreases i,
    {
        i -= 1;
    }
    i
}

fn start_of_component(chars: &Vec<char>, n: usize) -> (r: usize)
    requires
        n <= chars@.len(),
    ensures
        r == component_start(chars@, n as int),
        r <= n,
{
    let mut i: usize = n;
    while i > 0 && chars[i - 1] != '/'
        invariant
            i <= n <= chars@.len(),
            component_start(chars@, n as int) == component_start(chars@, i as int),
        decreases i,
    {
        i -= 1;
    }
    i
}

/// The name of the file that a path leads to.
pub fn file_name(path: &str) -> (r: Option<String>)
    ensures
        text::optional(r) == name_of(path@),
{
    let chars = text::chars_of(path);
    let n = trim_len(&chars, chars.len());
    let start = start_of_component(&chars, n);
    if n == 0 || (n == 1 && chars[0] == '/') {
        return None;
    }
    let name = text::text_of(&chars, start, n);
    if text::same_text(name.as_str(), ".") || text::same_text(name.as_str(), "..") {
        return None;
    }
    Some(name)
}

/// The directory that a path leads into.
pub fn parent(path: &str) -> (r: Option<String>)
    ensures
        text::optional(r) == parent_of(path@),
{
    let chars = text::chars_of(path);
    let n = trim_len(&chars, chars.len());
    if n == 0 || (n == 1 && chars[0] == '/') {
        return None;
    }
    let start = start_of_component(&chars, n);
    let end = trim_len(&chars, start);
    let r = text::text_of(&chars, 0, end);
    assert(path@.subrange(0, end as int) =~= path@.take(end as int));
    Some(r)
}

/// The path of something in a directory.
pub fn join(directory: &str, name: &str) -> (r: String)
    ensures
        r@ == joined(directory@, name@),
{
    let name_chars = text::chars_of(name);
    if name_chars.len() > 0 && name_chars[0] == '/' {
        return name.to_owned();
    }
    let chars = text::chars_of(directory);
    if chars.len() == 0 || chars[chars.len() - 1] == '/' {
        text::concat2(directory, name)
    } else {
        text::concat3(directory, "/", name)
    }
}

/// The path with another name in the place of the last one.
pub fn with_file_name(path: &str, name: &str) -> (r: String)
    ensures
        r@ == renamed(path@, name@),
{
    match file_name(path) {
        Some(_) => match parent(path) {
            Some(directory) => join(directory.as_str(), name),
            None => join(path, name),
        },
        None => join(path, name),
    }
}

fn start_of_extension(chars: &Vec<char>) -> (r: Option<usize>)
    ensures
        match r {
            Some(at) => extension_start(chars@, chars@.len() as int) == Some(at as int) && 1 < at
                <= chars@.len(),
            None => extension_start(chars@, chars@.len() as int) is None,
        },
{
    let mut i: usize = chars.len();
    while i > 1
        invariant
            i <= chars@.len(),
            extension_start(chars@, chars@.len() as int) == extension_start(chars@, i as int),
        decreases i,
    {
        if chars[i - 1] == '.' {
            return Some(i);
        }
        i -= 1;
    }
    None
}

/// The extension of the file that a path leads to.
pub fn extension(path: &str) -> (r: Option<String>)
    ensures
        text::optional(r) == extension_of(path@),
{
    let name = match file_name(path) {
        Some(name) => name,
        None => {
            return None;
        },
    };
    let chars = text::chars_of(name.as_str());
    match start_of_extension(&chars) {
        Some(at) => {
            let r = text::text_of(&chars, at, chars.len());
            assert(name@.subrange(at as int, name@.len() as int) =~= name@.skip(at as int));
            Some(r)
        },
        None => None,
    }
}

/// The path with another extension.
pub fn with_extension(path: &str, extension: &str) -> (r: String)
    ensures
        r@ == with_extension_spec(path@, extension@),
{
    let name = match file_name(path) {
        Some(name) => name,
        None => {
            return path.to_owned();
        },
    };
    let chars = text::chars_of(path);
    let n = trim_len(&chars, chars.len());
    let start = start_of_component(&chars, n);
    let name_chars = text::chars_of(name.as_str());
    let stem: usize = match start_of_extension(&name_chars) {
        Some(at) => at - 1,
        None => name_chars.len(),
    };
    assert(name@ =~= path@.subrange(start as int, n as int));
    let mut r = text::text_of(&chars, 0, start + stem);
    assert(path@.subrange(0, start + stem) =~= path@.take(start + stem));
    if !extension.is_empty() {
        r.append(".");
        r.append(extension);
    }
    r
}

/// A name is put below a directory with one `/` between them, and an absolute path stays as
/// it is.
pub proof fn law_paths_are_joined(directory: Seq<char>, name: Seq<char>)
    ensures
        name.len() > 0 && name[0] == '/' ==> joined(directory, name) == name,
        directory.len() > 0 && directory.last() != '/' && name.len() > 0 && name[0] != '/'
            ==> joined(directory, name) == directory + "/"@ + name,
        directory.len() > 0 && directory.last() == '/' && name.len() > 0 && name[0] != '/'
            ==> joined(directory, name) == directory + name,
{
}

/// Another name for a file lies in the same directory.
pub proof fn law_renamed_files_stay_in_their_directory(
    directory: Seq<char>,
    name: Seq<char>,
    other: Seq<char>,
)
    requires
        directory.len() > 0,
        trimmed_len(directory, directory.len() as int) == directory.len(),
        name.len() > 0,
        !name.contains('/'),
        name != "."@,
        name != ".."@,
    ensures
        renamed(joined(directory, name), other) == joined(directory, other),
{
    law_join_and_take_apart(directory, name);
}

/// The extension of a file is what follows the last `.` of its name, where something stands
/// before it.
pub proof fn law_extensions_follow_the_last_dot(
    directory: Seq<char>,
    stem: Seq<char>,
    extension: Seq<char>,
)
    requires
        directory.len() > 0,
        trimmed_len(directory, directory.len() as int) == directory.len(),
        stem.len() > 0,
        !stem.contains('/') && !extension.contains('/') && !extension.contains('.'),
        extension.len() > 0,
    ensures
        extension_of(joined(directory, stem + "."@ + extension)) == Some(extension),
{
    let name = stem + "."@ + extension;
    reveal_strlit(".");
    reveal_strlit("..");
    assert(name.last() == extension.last());
    assert(extension.contains(extension.last()));
    assert(name != "."@ && name != ".."@) by {
        assert("."@.last() == '.' && ".."@.last() == '.');
    }
    assert(!name.contains('/')) by {
        if name.contains('/') {
            let k = name.index_of('/');
            assert(name[k] == '/');
            if k < stem.len() {
                assert(stem[k] == '/');
            } else if k > stem.len() {
                assert(extension[k - stem.len() - 1] == '/');
            }
        }
    }
    law_join_and_take_apart(directory, name);
    lemma_extension_start(name, stem.len() as int + 1, name.len() as int);
    assert(name.skip(stem.len() as int + 1) =~= extension);
}

proof fn lemma_extension_start(name: Seq<char>, at: int, n: int)
    requires
        1 < at <= n <= name.len(),
        name[at - 1] == '.',
        forall|k: int| at <= k < n ==> #[trigger] name[k] != '.',
    ensures
        extension_start(name, n) == Some(at),
    decreases n,
{
    if n > at {
        assert(name[n - 1] != '.');
        lemma_extension_start(name, at, n - 1);
    }
}

/// Another extension takes the place of the one that a file has.
pub proof fn law_extensions_are_replaced(directory: Seq<char>, stem: Seq<char>, extension: Seq<char>, other: Seq<char>)
    requires
        directory.len() > 0,
        directory.last() != '/',
        trimmed_len(directory, directory.len() as int) == directory.len(),
        stem.len() > 0,
        !stem.contains('/') && !extension.contains('/') && !extension.contains('.'),
        extension.len() > 0,
        other.len() > 0,
    ensures
        with_extension_spec(directory + "/"@ + stem + "."@ + extension, other) == directory + "/"@
            + stem + "."@ + other,
{
    reveal_strlit("/");
    reveal_strlit(".");
    let name = stem + "."@ + extension;
    let path = joined(directory, name);
    law_extensions_follow_the_last_dot(directory, stem, extension);
    assert(name[0] == stem[0]);
    assert(stem.contains(stem[0]));
    assert(path =~= directory + "/"@ + stem + "."@ + extension);
    assert(name.last() == extension.last());
    assert(extension.contains(extension.last()));
    let n = path.len() as int;
    assert(path.last() == extension.last());
    assert(trimmed_len(path, n) == n);
    let start = directory.len() as int + 1;
    assert forall|k: int| start <= k < n implies #[trigger] path[k] != '/' by {
        assert(path[k] == name[k - start]);
        if k - start < stem.len() {
            assert(stem.contains(name[k - start]));
        } else if k - start > stem.len() {
            assert(extension.contains(extension[k - start - stem.len() - 1]));
        }
    }
    lemma_last_component(path, start, n);
    assert(path.subrange(start, n) =~= name);
    assert(name_of(path) == Some(name)) by {
        reveal_strlit("..");
        assert("."@.last() == '.' && ".."@.last() == '.');
    }
    lemma_extension_start(name, stem.len() as int + 1, name.len() as int);
    assert(path.take(start + stem.len()) =~= directory + "/"@ + stem);
}

proof fn lemma_last_component(path: Seq<char>, start: int, n: int)
    requires
        0 < start <= n <= path.len(),
        path[start - 1] == '/',
        forall|k: int| start <= k < n ==> #[trigger] path[k] != '/',
    ensures
        component_start(path, n) == start,
    decreases n,
{
    if n > start {
        assert(path[n - 1] != '/');
        lemma_last_component(path, start, n - 1);
    }
}

/// The root has neither a name nor a directory that it lies in.
pub proof fn law_root_has_no_name()
    ensures
        name_of(seq!['/']) is None && parent_of(seq!['/']) is None,
        name_of(Seq::empty()) is None && parent_of(Seq::empty()) is None,
        name_of(seq!['a']) == Some(seq!['a']),
        parent_of(seq!['a']) == Some(Seq::<char>::empty()),
{
    reveal_strlit(".");
    reveal_strlit("..");
    let s = seq!['a'];
    reveal_with_fuel(component_start, 3);
    reveal_with_fuel(trimmed_len, 3);
    assert(s.subrange(0, 1) =~= s);
    assert(s.take(0) =~= Seq::empty());
    assert("."@[0] == '.');
    assert(".."@.len() == 2);
}

}
