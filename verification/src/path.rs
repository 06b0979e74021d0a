//! Unix paths as text: components, prefixes, extensions.

use crate::text::{chars_of, skip_prefixes, string_of};
use vstd::prelude::*;

verus! {

/// The pieces of a path between its slashes; empty pieces count.
pub open spec fn segments(s: Seq<char>) -> Seq<Seq<char>>
    decreases s.len(),
{
    if s.len() == 0 {
        seq![Seq::empty()]
    } else {
        let init = segments(s.drop_last());
        if s.last() == '/' {
            init.push(Seq::empty())
        } else {
            init.drop_last().push(init.last().push(s.last()))
        }
    }
}

/// Whether the segment at position `index` names a component: it is not empty,
/// and a single dot counts only at the very front.
pub open spec fn is_component(segment: Seq<char>, index: int) -> bool {
    segment.len() > 0 && (segment != seq!['.'] || index == 0)
}

/// The segments among `parts` that name a component, in order.
pub open spec fn components_among(parts: Seq<Seq<char>>) -> Seq<Seq<char>>
    decreases parts.len(),
{
    if parts.len() == 0 {
        Seq::empty()
    } else {
        let init = components_among(parts.drop_last());
        if is_component(parts.last(), parts.len() - 1) {
            init.push(parts.last())
        } else {
            init
        }
    }
}

/// Whether a path starts at the root.
pub open spec fn rooted(s: Seq<char>) -> bool {
    s.len() > 0 && s[0] == '/'
}

/// The components of a path. The root, where there is one, comes first and is written `/`.
pub open spec fn components(s: Seq<char>) -> Seq<Seq<char>> {
    let names = components_among(segments(s));
    if rooted(s) {
        seq![seq!['/']] + names
    } else {
        names
    }
}

/// Whether the components of `base` are the first components of `s`.
pub open spec fn lies_under(s: Seq<char>, base: Seq<char>) -> bool {
    components(base).is_prefix_of(components(s))
}

/// The last component of a path, unless that is the root, `.` or `..`.
pub open spec fn base_name(s: Seq<char>) -> Option<Seq<char>> {
    let all = components(s);
    if all.len() == 0 || all.last() == seq!['/'] || all.last() == seq!['.'] || all.last() == seq![
        '.',
        '.',
    ] {
        None
    } else {
        Some(all.last())
    }
}

/// Where the last dot of `name` is; `-1` where there is none.
pub open spec fn last_dot(name: Seq<char>) -> int
    decreases name.len(),
{
    if name.len() == 0 {
        -1
    } else if name.last() == '.' {
        name.len() - 1
    } else {
        last_dot(name.drop_last())
    }
}

/// What follows the last dot of a path's base name. A name without a dot, or
/// whose only dot is its first character, has no extension.
pub open spec fn extension_of(s: Seq<char>) -> Option<Seq<char>> {
    match base_name(s) {
        None => None,
        Some(name) => if last_dot(name) > 0 {
            Some(name.skip(last_dot(name) + 1))
        } else {
            None
        },
    }
}

/// The views of a list of character vectors.
pub open spec fn char_views(list: Seq<Vec<char>>) -> Seq<Seq<char>> {
    list.map_values(|v: Vec<char>| v@)
}

/// Whether a path starts at the root.
pub fn is_absolute(path: &str) -> (r: bool)
    ensures
        r == rooted(path@),
{
    path.unicode_len() > 0 && path.get_char(0) == '/'
}

fn split_segments(chars: &Vec<char>) -> (r: Vec<Vec<char>>)
    ensures
        char_views(r@) == segments(chars@),
{
    let mut done: Vec<Vec<char>> = Vec::new();
    let mut current: Vec<char> = Vec::new();
    let mut i: usize = 0;
    assert(char_views(done@).push(current@) == segments(chars@.take(0)));
    while i < chars.len()
        invariant
            i <= chars.len(),
            char_views(done@).push(current@) == segments(chars@.take(i as int)),
        decreases chars.len() - i,
    {
        let ghost before = char_views(done@).push(current@);
        assert(chars@.take(i + 1).drop_last() == chars@.take(i as int));
        if chars[i] == '/' {
            done.push(current);
            current = Vec::new();
            assert(char_views(done@) == before);
        } else {
            current.push(chars[i]);
            assert(char_views(done@) == before.drop_last());
        }
        i = i + 1;
        assert(char_views(done@).push(current@) == segments(chars@.take(i as int)));
    }
    assert(chars@.take(i as int) == chars@);
    done.push(current);
    assert(char_views(done@) == segments(chars@));
    done
}

fn is_one(v: &Vec<char>, c: char) -> (r: bool)
    ensures
        r == (v@ == seq![c]),
{
    if v.len() == 1 && v[0] == c {
        assert(v@ == seq![c]);
        true
    } else {
        assert(seq![c].len() == 1 && seq![c][0] == c);
        false
    }
}

fn split_components(chars: &Vec<char>) -> (r: Vec<Vec<char>>)
    ensures
        char_views(r@) == components(chars@),
{
    let parts = split_segments(chars);
    let ghost all = segments(chars@);
    let mut r: Vec<Vec<char>> = Vec::new();
    let ghost root: Seq<Seq<char>> = if rooted(chars@) {
        seq![seq!['/']]
    } else {
        Seq::empty()
    };
    if chars.len() > 0 && chars[0] == '/' {
        let mut slash: Vec<char> = Vec::new();
        slash.push('/');
        assert(slash@ == seq!['/']);
        r.push(slash);
    }
    assert(char_views(r@) == root);
    let mut i: usize = 0;
    assert(char_views(r@) == root + components_among(all.take(0)));
    while i < parts.len()
        invariant
            i <= parts.len(),
            char_views(parts@) == all,
            char_views(r@) == root + components_among(all.take(i as int)),
        decreases parts.len() - i,
    {
        let ghost before = r@;
        assert(all.take(i + 1).drop_last() == all.take(i as int));
        assert(all.take(i + 1).last() == parts@[i as int]@);
        if parts[i].len() > 0 && (i == 0 || !is_one(&parts[i], '.')) {
            let piece = copy_chars(&parts[i], 0);
            assert(piece@ == parts@[i as int]@);
            assert(components_among(all.take(i + 1)) == components_among(all.take(i as int)).push(
                piece@,
            ));
            r.push(piece);
            assert(char_views(r@) == char_views(before).push(piece@));
            assert(char_views(r@) == root + components_among(all.take(i + 1)));
        }
        i = i + 1;
    }
    assert(all.take(i as int) == all);
    assert(char_views(r@) == components(chars@));
    r
}

fn copy_chars(v: &Vec<char>, from: usize) -> (r: Vec<char>)
    requires
        from <= v@.len(),
    ensures
        r@ == v@.skip(from as int),
{
    let mut r: Vec<char> = Vec::new();
    let mut i: usize = from;
    while i < v.len()
        invariant
            from <= i <= v.len(),
            r@ == v@.subrange(from as int, i as int),
        decreases v.len() - i,
    {
        r.push(v[i]);
        i = i + 1;
    }
    r
}

fn same_chars(a: &Vec<char>, b: &Vec<char>) -> (r: bool)
    ensures
        r == (a@ == b@),
{
    if a.len() != b.len() {
        return false;
    }
    let mut i: usize = 0;
    while i < a.len()
        invariant
            i <= a.len() == b.len(),
            forall|j: int| 0 <= j < i ==> a@[j] == b@[j],
        decreases a.len() - i,
    {
        if a[i] != b[i] {
            return false;
        }
        i = i + 1;
    }
    assert(a@ == b@);
    true
}

/// Whether `path` lies under `base`, component by component.
pub fn starts_with_path(path: &str, base: &str) -> (r: bool)
    ensures
        r == lies_under(path@, base@),
{
    let a = split_components(&chars_of(path));
    let b = split_components(&chars_of(base));
    let ghost pa = components(path@);
    let ghost pb = components(base@);
    if b.len() > a.len() {
        assert(pb.len() > pa.len());
        return false;
    }
    let mut i: usize = 0;
    while i < b.len()
        invariant
            i <= b.len() <= a.len(),
            char_views(a@) == pa,
            char_views(b@) == pb,
            pa == components(path@),
            pb == components(base@),
            forall|j: int| 0 <= j < i ==> pa[j] == pb[j],
        decreases b.len() - i,
    {
        assert(pa[i as int] == a@[i as int]@ && pb[i as int] == b@[i as int]@);
        if !same_chars(&a[i], &b[i]) {
            assert(pb != pa.take(pb.len() as int)) by {
                assert(pa.take(pb.len() as int)[i as int] == pa[i as int]);
            }
            return false;
        }
        i = i + 1;
    }
    assert(pb == pa.take(pb.len() as int));
    true
}

fn is_dots(v: &Vec<char>) -> (r: bool)
    ensures
        r == (v@ == seq!['.'] || v@ == seq!['.', '.']),
{
    if is_one(v, '.') {
        return true;
    }
    if v.len() == 2 && v[0] == '.' && v[1] == '.' {
        assert(v@ == seq!['.', '.']);
        true
    } else {
        assert(seq!['.', '.'].len() == 2 && seq!['.', '.'][0] == '.' && seq!['.', '.'][1] == '.');
        false
    }
}

/// The extension of a path's base name.
pub fn extension(path: &str) -> (r: Option<String>)
    ensures
        match r {
            Some(e) => extension_of(path@) == Some(e@),
            None => extension_of(path@) is None,
        },
{
    let all = split_components(&chars_of(path));
    let ghost views = components(path@);
    if all.len() == 0 {
        return None;
    }
    let name = &all[all.len() - 1];
    assert(views.last() == name@);
    if is_one(name, '/') || is_dots(name) {
        return None;
    }
    let mut end: usize = name.len();
    assert(name@.take(end as int) == name@);
    while end > 0 && name[end - 1] != '.'
        invariant
            end <= name.len(),
            last_dot(name@) == last_dot(name@.take(end as int)),
        decreases end,
    {
        assert(name@.take(end as int).drop_last() == name@.take(end - 1));
        end = end - 1;
    }
    if end <= 1 {
        assert(last_dot(name@) <= 0);
        None
    } else {
        assert(last_dot(name@) == end - 1);
        assert(name@.skip(end as int) == name@.subrange(end as int, name@.len() as int));
        Some(string_of(name, end, name.len()))
    }
}

/// A directory path with a file name put behind it: a slash comes between
/// them unless the directory is empty or already ends with one.
pub open spec fn with_name(dir: Seq<char>, name: Seq<char>) -> Seq<char> {
    if dir.len() > 0 && dir.last() != '/' {
        dir.push('/') + name
    } else {
        dir + name
    }
}

/// Puts the relative file name `name` behind `dir`.
pub fn push_name(dir: String, name: &str) -> (r: String)
    requires
        !rooted(name@),
    ensures
        r@ == with_name(dir@, name@),
{
    let n = dir.as_str().unicode_len();
    let slash = n > 0 && dir.as_str().get_char(n - 1) != '/';
    let mut r = dir;
    if slash {
        r.push('/');
    }
    r.append(name);
    r
}

/// The part of `file` below the music directory `dir`: `dir` is taken off the
/// front as often as it stands there, then every slash at either end.
pub open spec fn below_dir(file: Seq<char>, dir: Seq<char>) -> Seq<char> {
    let rest = crate::text::drop_leading(
        crate::text::drop_prefixes(file, dir),
        |c: char| c == '/',
    );
    crate::text::drop_trailing(rest, |c: char| c == '/')
}

/// Takes the music directory and the surrounding slashes off `file`.
pub fn strip_dir(file: &str, dir: &str) -> (r: String)
    ensures
        r@ == below_dir(file@, dir@),
{
    let chars = chars_of(file);
    let prefix = chars_of(dir);
    let at = skip_prefixes(&chars, &prefix);
    let n = chars.len();
    let ghost p = |c: char| c == '/';
    let ghost rest = crate::text::drop_prefixes(file@, dir@);
    let mut from: usize = at;
    while from < n && chars[from] == '/'
        invariant
            at <= from <= n == chars@.len(),
            chars@ == file@,
            p == (|c: char| c == '/'),
            crate::text::drop_leading(rest, p) == crate::text::drop_leading(
                file@.skip(from as int),
                p,
            ),
        decreases n - from,
    {
        assert(file@.skip(from as int).skip(1) == file@.skip(from + 1));
        from = from + 1;
    }
    let ghost lead = file@.skip(from as int);
    assert(crate::text::drop_leading(rest, p) == lead);
    assert(file@.subrange(from as int, n as int) == lead);
    let mut to: usize = n;
    while from < to && chars[to - 1] == '/'
        invariant
            from <= to <= n == chars@.len(),
            chars@ == file@,
            p == (|c: char| c == '/'),
            crate::text::drop_trailing(lead, p) == crate::text::drop_trailing(
                file@.subrange(from as int, to as int),
                p,
            ),
        decreases to,
    {
        assert(file@.subrange(from as int, to as int).drop_last() == file@.subrange(
            from as int,
            to - 1,
        ));
        to = to - 1;
    }
    string_of(&chars, from, to)
}

} // verus!
