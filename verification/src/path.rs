//! Paths as text: the name of the file that a path ends in, and how a
//! directory and a name make a path.
//!
//! A path is read as a Unix path. Its components stand between `/`
//! characters; an empty component and a component `.` at the end say nothing.

use vstd::prelude::*;

verus! {

/// The character that parts the components of a path.
pub const SEPARATOR: char = '/';

/// Whether `path` ends in a component `.` that follows a separator.
pub open spec fn ends_in_cur_dir(path: Seq<char>) -> bool {
    path.len() >= 2 && path[path.len() - 1] == '.' && path[path.len() - 2] == SEPARATOR
}

/// `path` without the separators and `.` components that it ends in.
pub open spec fn trimmed(path: Seq<char>) -> Seq<char>
    decreases path.len(),
{
    if path.len() > 0 && (path.last() == SEPARATOR || ends_in_cur_dir(path)) {
        trimmed(path.drop_last())
    } else {
        path
    }
}

/// What follows the last separator of `path`: all of it where it has none.
pub open spec fn last_segment(path: Seq<char>) -> Seq<char>
    decreases path.len(),
{
    if path.len() == 0 || path.last() == SEPARATOR {
        Seq::empty()
    } else {
        last_segment(path.drop_last()).push(path.last())
    }
}

/// Whether `name` can be the name of a file in a directory: it is not empty,
/// holds no separator and is neither `.` nor `..`.
pub open spec fn is_plain_name(name: Seq<char>) -> bool {
    &&& name.len() > 0
    &&& !name.contains(SEPARATOR)
    &&& name != seq!['.']
    &&& name != seq!['.', '.']
}

/// The name of the file or directory that `path` ends in. There is none where
/// the path is empty, is the root, or ends in `..` or in a lone `.`.
pub open spec fn file_name_of(path: Seq<char>) -> Option<Seq<char>> {
    let name = last_segment(trimmed(path));
    if name.len() == 0 || name == seq!['.'] || name == seq!['.', '.'] {
        None
    } else {
        Some(name)
    }
}

/// Whether `path` starts at the root.
pub open spec fn is_absolute(path: Seq<char>) -> bool {
    path.len() > 0 && path[0] == SEPARATOR
}

/// `tail` seen from `base`: an absolute `tail` stands for itself, and any
/// other follows `base`, after a separator where `base` does not end in one.
pub open spec fn joined(base: Seq<char>, tail: Seq<char>) -> Seq<char> {
    if is_absolute(tail) {
        tail
    } else if base.len() == 0 || base.last() == SEPARATOR {
        base + tail
    } else {
        base + seq![SEPARATOR] + tail
    }
}

/// `path` without the `./` that it starts with, however often it is repeated
/// and however many separators follow it. `after_cur_dir` says that a `.`
/// component has just been dropped.
pub open spec fn strip_cur_dir(path: Seq<char>, after_cur_dir: bool) -> Seq<char>
    decreases path.len(),
{
    if after_cur_dir && path.len() > 0 && path[0] == SEPARATOR {
        strip_cur_dir(path.skip(1), true)
    } else if path.len() >= 2 && path[0] == '.' && path[1] == SEPARATOR {
        strip_cur_dir(path.skip(2), true)
    } else {
        path
    }
}

/// The absolute path that `path` names for a process that works in `dir`.
pub open spec fn absolute_of(dir: Seq<char>, path: Seq<char>) -> Seq<char> {
    joined(dir, strip_cur_dir(path, false))
}

/// What follows the last separator of a path that ends in text without a
/// separator is what follows it before that text, and the text.
pub proof fn lemma_last_segment_grows(front: Seq<char>, back: Seq<char>)
    requires
        !back.contains(SEPARATOR),
    ensures
        last_segment(front + back) == last_segment(front) + back,
    decreases back.len(),
{
    if back.len() == 0 {
        assert(front + back =~= front);
        assert(last_segment(front) + back =~= last_segment(front));
    } else {
        let whole = front + back;
        assert(back.contains(back.last()));
        assert(whole.last() == back.last());
        assert(whole.drop_last() =~= front + back.drop_last());
        assert(!back.drop_last().contains(SEPARATOR)) by {
            if back.drop_last().contains(SEPARATOR) {
                let i = choose|i: int| 0 <= i < back.drop_last().len() && back.drop_last()[i] == SEPARATOR;
                assert(back[i] == SEPARATOR);
            }
        }
        lemma_last_segment_grows(front, back.drop_last());
        assert(last_segment(front) + back =~= (last_segment(front) + back.drop_last()).push(
            back.last(),
        ));
    }
}

/// What follows the last separator holds no separator.
pub proof fn lemma_last_segment_is_one_component(path: Seq<char>)
    ensures
        !last_segment(path).contains(SEPARATOR),
    decreases path.len(),
{
    if path.len() == 0 || path.last() == SEPARATOR {
    } else {
        lemma_last_segment_is_one_component(path.drop_last());
        let shorter = last_segment(path.drop_last());
        if shorter.push(path.last()).contains(SEPARATOR) {
            let i = choose|i: int|
                0 <= i < shorter.push(path.last()).len() && shorter.push(path.last())[i]
                    == SEPARATOR;
            if i < shorter.len() {
                assert(shorter[i] == SEPARATOR);
                assert(shorter.contains(SEPARATOR));
            }
        }
    }
}

/// The name that a path ends in is a plain name.
pub proof fn lemma_file_name_is_plain(path: Seq<char>)
    ensures
        file_name_of(path) matches Some(name) ==> is_plain_name(name),
{
    lemma_last_segment_is_one_component(trimmed(path));
}

/// A plain name behind a directory is the name that the path ends in, with
/// or without a separator behind it.
pub proof fn lemma_file_name_after_directory(front: Seq<char>, name: Seq<char>)
    requires
        is_plain_name(name),
        front.len() == 0 || front.last() == SEPARATOR,
    ensures
        file_name_of(front + name) == Some(name),
        file_name_of(front + name + seq![SEPARATOR]) == Some(name),
{
    let path = front + name;
    assert(name.contains(name.last()));
    assert(path.last() == name.last());
    assert(path.last() != SEPARATOR);
    assert(!ends_in_cur_dir(path)) by {
        if path[path.len() - 1] == '.' {
            if name.len() == 1 {
                assert(name =~= seq!['.']);
            } else {
                assert(path[path.len() - 2] == name[name.len() - 2]);
                assert(name.contains(name[name.len() - 2]));
            }
        }
    }
    assert(trimmed(path) == path);
    lemma_last_segment_grows(front, name);
    assert(last_segment(front) =~= Seq::<char>::empty());
    assert(last_segment(front) + name =~= name);
    let longer = path + seq![SEPARATOR];
    assert(longer.last() == SEPARATOR);
    assert(longer.drop_last() =~= path);
    assert(trimmed(longer) == trimmed(path));
}

/// A file that is put into a directory under a plain name has that name.
pub proof fn lemma_file_name_of_joined(dir: Seq<char>, name: Seq<char>)
    requires
        is_plain_name(name),
    ensures
        file_name_of(joined(dir, name)) == Some(name),
{
    assert(name.contains(name[0]));
    assert(!is_absolute(name));
    if dir.len() == 0 || dir.last() == SEPARATOR {
        lemma_file_name_after_directory(dir, name);
    } else {
        lemma_file_name_after_directory(dir + seq![SEPARATOR], name);
    }
}

/// The characters of `text`, one by one.
fn chars_of(text: &str) -> (chars: Vec<char>)
    ensures
        chars@ == text@,
{
    let mut chars: Vec<char> = Vec::new();
    for c in it: text.chars()
        invariant
            chars@ == text@.take(it.index() as int),
            it.seq() == text@,
    {
        chars.push(c);
    }
    chars
}

/// The name of the file or directory that `path` ends in, if it ends in one.
pub fn file_name(path: &str) -> (name: Option<String>)
    ensures
        name.is_some() == file_name_of(path@).is_some(),
        name matches Some(n) ==> file_name_of(path@) == Some(n@),
{
    let chars = chars_of(path);
    let mut end: usize = chars.len();
    assert(chars@.take(end as int) =~= chars@);
    while end > 0 && (chars[end - 1] == SEPARATOR || (end >= 2 && chars[end - 1] == '.' && chars[end
        - 2] == SEPARATOR))
        invariant
            end <= chars.len(),
            trimmed(chars@) == trimmed(chars@.take(end as int)),
        decreases end,
    {
        assert(chars@.take(end as int).drop_last() =~= chars@.take(end - 1));
        end -= 1;
    }
    let mut start: usize = end;
    while start > 0 && chars[start - 1] != SEPARATOR
        invariant
            start <= end <= chars.len(),
            !chars@.subrange(start as int, end as int).contains(SEPARATOR),
        decreases start,
    {
        proof {
            let wider = chars@.subrange(start - 1, end as int);
            if wider.contains(SEPARATOR) {
                let i = choose|i: int| 0 <= i < wider.len() && wider[i] == SEPARATOR;
                assert(chars@.subrange(start as int, end as int)[i - 1] == SEPARATOR);
            }
        }
        start -= 1;
    }
    proof {
        let kept = chars@.take(end as int);
        let front = chars@.take(start as int);
        let back = chars@.subrange(start as int, end as int);
        assert(trimmed(kept) == kept);
        assert(kept =~= front + back);
        lemma_last_segment_grows(front, back);
        assert(last_segment(front) =~= Seq::<char>::empty());
        assert(last_segment(front) + back =~= back);
    }
    let len: usize = end - start;
    if len == 0 || (len == 1 && chars[start] == '.') || (len == 2 && chars[start] == '.'
        && chars[start + 1] == '.') {
        proof {
            let back = chars@.subrange(start as int, end as int);
            if len == 1 {
                assert(back =~= seq!['.']);
            }
            if len == 2 {
                assert(back =~= seq!['.', '.']);
            }
        }
        None
    } else {
        proof {
            let back = chars@.subrange(start as int, end as int);
            if back == seq!['.'] {
                assert(back[0] == '.');
            }
            if back == seq!['.', '.'] {
                assert(back[0] == '.' && back[1] == '.');
            }
        }
        Some(path.substring_char(start, end).to_owned())
    }
}

/// `tail` seen from `base`, as a path: see [`joined`].
pub fn join(base: &str, tail: &str) -> (path: String)
    ensures
        path@ == joined(base@, tail@),
{
    let tail_len: usize = tail.unicode_len();
    if tail_len > 0 && tail.get_char(0) == SEPARATOR {
        return tail.to_owned();
    }
    let base_len: usize = base.unicode_len();
    let mut path = base.to_owned();
    if base_len > 0 && base.get_char(base_len - 1) != SEPARATOR {
        proof {
            reveal_strlit("/");
            assert("/"@ =~= seq![SEPARATOR]);
        }
        path.append("/");
    }
    path.append(tail);
    path
}

/// The absolute path that `path` names for a process that works in `dir`:
/// `path` itself where it is absolute, and otherwise `path` behind `dir`,
/// without the `./` that it may start with.
pub fn absolute(dir: &str, path: &str) -> (full: String)
    ensures
        full@ == absolute_of(dir@, path@),
{
    let chars = chars_of(path);
    let mut from: usize = 0;
    let mut after_cur_dir = false;
    assert(chars@.skip(0) =~= chars@);
    loop
        invariant
            from <= chars.len(),
            strip_cur_dir(chars@, false) == strip_cur_dir(chars@.skip(from as int), after_cur_dir),
        ensures
            from <= chars.len(),
            strip_cur_dir(chars@, false) == chars@.skip(from as int),
        decreases chars.len() - from,
    {
        let rest: usize = chars.len() - from;
        if after_cur_dir && rest > 0 && chars[from] == SEPARATOR {
            assert(chars@.skip(from as int).skip(1) =~= chars@.skip(from + 1));
            from += 1;
        } else if rest >= 2 && chars[from] == '.' && chars[from + 1] == SEPARATOR {
            assert(chars@.skip(from as int).skip(2) =~= chars@.skip(from + 2));
            from += 2;
            after_cur_dir = true;
        } else {
            break;
        }
    }
    assert(chars@.skip(from as int) =~= path@.subrange(from as int, chars.len() as int));
    join(dir, path.substring_char(from, chars.len()))
}

} // verus!
