//! What paths are made of, and what a file is called below a directory.

use crate::path;
use crate::run;
use crate::text;
use crate::text_laws::{law_prefixes_are_taken_off, lemma_leading, lemma_trailing};
use vstd::prelude::*;

verus! {

/// `s` has no slash in it.
pub open spec fn is_word(s: Seq<char>) -> bool {
    forall|i: int| 0 <= i < s.len() ==> #[trigger] s[i] != '/'
}

/// `s` names something in a directory: it is not empty, has no slash in it, and is
/// not the single dot.
pub open spec fn is_name(s: Seq<char>) -> bool {
    s.len() > 0 && is_word(s) && s != seq!['.']
}

/// The segments of a path have no slashes, and with slashes between them they are
/// the path again.
pub proof fn law_segments_make_up_the_path(s: Seq<char>)
    ensures
        path::segments(s).len() > 0,
        forall|i: int| 0 <= i < path::segments(s).len() ==> is_word(#[trigger] path::segments(s)[i]),
        text::joined(path::segments(s), seq!['/']) == s,
    decreases s.len(),
{
    let all = path::segments(s);
    let slash = seq!['/'];
    if s.len() == 0 {
        assert(text::joined(all, slash) =~= s);
    } else {
        let init = path::segments(s.drop_last());
        law_segments_make_up_the_path(s.drop_last());
        assert(s =~= s.drop_last().push(s.last()));
        if s.last() == '/' {
            assert(all.drop_last() =~= init);
            assert(text::joined(all, slash) =~= s);
            assert forall|i: int| 0 <= i < all.len() implies is_word(#[trigger] all[i]) by {
                if i < init.len() {
                    assert(is_word(init[i]));
                }
            }
        } else {
            let grown = init.last().push(s.last());
            assert(is_word(init[init.len() - 1]));
            assert forall|i: int| 0 <= i < all.len() implies is_word(#[trigger] all[i]) by {
                if i < init.len() - 1 {
                    assert(is_word(init[i]));
                }
            }
            assert(all.drop_last() =~= init.drop_last());
            assert(text::joined(all, slash) =~= s);
        }
    }
}

/// The segments of two paths with a slash between them are those of the first and
/// those of the second.
pub proof fn law_a_slash_parts_the_segments(a: Seq<char>, b: Seq<char>)
    ensures
        path::segments(a + seq!['/'] + b) == path::segments(a) + path::segments(b),
    decreases b.len(),
{
    let all = a + seq!['/'] + b;
    law_segments_make_up_the_path(b);
    if b.len() == 0 {
        assert(all.drop_last() =~= a);
        assert(path::segments(all) =~= path::segments(a) + path::segments(b));
    } else {
        law_a_slash_parts_the_segments(a, b.drop_last());
        law_segments_make_up_the_path(b.drop_last());
        assert(all.drop_last() =~= a + seq!['/'] + b.drop_last());
        assert(all.last() == b.last());
        assert(path::segments(all) =~= path::segments(a) + path::segments(b));
    }
}

/// Two paths right behind one another share the segment in the middle.
#[verifier::rlimit(60)]
proof fn lemma_segments_meet(a: Seq<char>, b: Seq<char>)
    ensures
        path::segments(a + b) == path::segments(a).drop_last().push(
            path::segments(a).last() + path::segments(b)[0],
        ) + path::segments(b).skip(1),
    decreases b.len(),
{
    let all = a + b;
    law_segments_make_up_the_path(a);
    law_segments_make_up_the_path(b);
    if b.len() == 0 {
        assert(all =~= a);
        assert(path::segments(a).last() + path::segments(b)[0] =~= path::segments(a).last());
        assert(path::segments(all) =~= path::segments(a).drop_last().push(
            path::segments(a).last() + path::segments(b)[0],
        ) + path::segments(b).skip(1));
    } else {
        let before = b.drop_last();
        lemma_segments_meet(a, before);
        law_segments_make_up_the_path(before);
        assert(all.drop_last() =~= a + before);
        assert(all.last() == b.last());
        let right = path::segments(a).drop_last().push(
            path::segments(a).last() + path::segments(b)[0],
        ) + path::segments(b).skip(1);
        if b.last() == '/' {
            assert(path::segments(all) =~= right);
        } else if path::segments(before).len() == 1 {
            assert(path::segments(a).last() + path::segments(b)[0] =~= (path::segments(a).last()
                + path::segments(before)[0]).push(b.last()));
            assert(path::segments(all) =~= right);
        } else {
            assert(path::segments(all) =~= right);
        }
    }
}

/// A word is its own only segment.
proof fn lemma_word(s: Seq<char>)
    requires
        is_word(s),
    ensures
        path::segments(s) == seq![s],
    decreases s.len(),
{
    if s.len() > 0 {
        assert(s[s.len() - 1] != '/');
        assert forall|i: int| 0 <= i < s.len() - 1 implies #[trigger] s.drop_last()[i] != '/' by {
            assert(s[i] != '/');
        }
        lemma_word(s.drop_last());
        assert(s.drop_last().push(s.last()) =~= s);
        assert(path::segments(s) =~= seq![s]);
    } else {
        assert(s =~= Seq::empty());
    }
}

/// The segments that name something, wherever they stand but at the front.
spec fn named(parts: Seq<Seq<char>>) -> Seq<Seq<char>>
    decreases parts.len(),
{
    if parts.len() == 0 {
        Seq::empty()
    } else if parts.last().len() > 0 && parts.last() != seq!['.'] {
        named(parts.drop_last()).push(parts.last())
    } else {
        named(parts.drop_last())
    }
}

proof fn lemma_components_behind(front: Seq<Seq<char>>, back: Seq<Seq<char>>)
    requires
        front.len() > 0,
    ensures
        path::components_among(front + back) == path::components_among(front) + named(back),
    decreases back.len(),
{
    if back.len() == 0 {
        assert(front + back =~= front);
        assert(path::components_among(front) + named(back) =~= path::components_among(front));
    } else {
        lemma_components_behind(front, back.drop_last());
        assert((front + back).drop_last() =~= front + back.drop_last());
        assert((front + back).last() == back.last());
        assert(path::components_among(front + back) =~= path::components_among(front) + named(
            back,
        ));
    }
}

proof fn lemma_components_of_two(a: Seq<char>, b: Seq<char>)
    requires
        a.len() > 0,
    ensures
        path::components(a + seq!['/'] + b) == path::components(a) + named(path::segments(b)),
{
    law_a_slash_parts_the_segments(a, b);
    law_segments_make_up_the_path(a);
    lemma_components_behind(path::segments(a), path::segments(b));
    let all = a + seq!['/'] + b;
    assert(all[0] == a[0]);
    assert(path::components(all) =~= path::components(a) + named(path::segments(b)));
}

proof fn lemma_names_nothing(segment: Seq<char>)
    requires
        segment.len() == 0 || segment == seq!['.'],
    ensures
        named(seq![segment]) == Seq::<Seq<char>>::empty(),
{
    let none = seq![segment].drop_last();
    assert(none.len() == 0);
    assert(named(none) == Seq::<Seq<char>>::empty());
    assert(seq![segment].last() == segment);
}

proof fn lemma_named_names(names: Seq<Seq<char>>)
    requires
        forall|i: int| 0 <= i < names.len() ==> is_name(#[trigger] names[i]),
    ensures
        named(names) == names,
    decreases names.len(),
{
    if names.len() > 0 {
        assert(is_name(names[names.len() - 1]));
        assert forall|i: int| 0 <= i < names.len() - 1 implies is_name(
            #[trigger] names.drop_last()[i],
        ) by {
            assert(is_name(names[i]));
        }
        lemma_named_names(names.drop_last());
        assert(named(names) =~= names);
    } else {
        assert(named(names) =~= names);
    }
}

proof fn lemma_joined_names(names: Seq<Seq<char>>)
    requires
        names.len() > 0,
        forall|i: int| 0 <= i < names.len() ==> is_name(#[trigger] names[i]),
    ensures
        path::segments(text::joined(names, seq!['/'])) == names,
        text::joined(names, seq!['/']).len() > 0,
        text::joined(names, seq!['/'])[0] != '/',
    decreases names.len(),
{
    let last = names.last();
    assert(is_name(names[names.len() - 1]));
    lemma_word(last);
    if names.len() == 1 {
        assert(names =~= seq![last]);
    } else {
        let init = names.drop_last();
        assert forall|i: int| 0 <= i < init.len() implies is_name(#[trigger] init[i]) by {
            assert(is_name(names[i]));
        }
        lemma_joined_names(init);
        law_a_slash_parts_the_segments(text::joined(init, seq!['/']), last);
        assert(path::segments(text::joined(names, seq!['/'])) =~= names);
    }
}

/// A path that is made up of names with slashes between them has just those names
/// as its components; a slash in front of all adds the root.
#[verifier::rlimit(60)]
pub proof fn law_names_are_components(names: Seq<Seq<char>>)
    requires
        names.len() > 0,
        forall|i: int| 0 <= i < names.len() ==> is_name(#[trigger] names[i]),
    ensures
        path::components(text::joined(names, seq!['/'])) == names,
        path::components(seq!['/'] + text::joined(names, seq!['/'])) == seq![seq!['/']] + names,
{
    let s = text::joined(names, seq!['/']);
    lemma_joined_names(names);
    lemma_named_names(names);
    let first = seq![names[0]];
    assert(names =~= first + names.skip(1));
    assert forall|i: int| 0 <= i < names.len() - 1 implies is_name(#[trigger] names.skip(1)[i]) by {
        assert(is_name(names[i + 1]));
    }
    assert(is_name(names[0]));
    lemma_named_names(names.skip(1));
    lemma_components_behind(first, names.skip(1));
    assert(first.drop_last() =~= Seq::empty());
    assert(path::components_among(Seq::<Seq<char>>::empty()) =~= Seq::empty());
    assert(path::components_among(first) =~= first);
    assert(path::components(s) =~= names);
    let empty = Seq::<char>::empty();
    law_a_slash_parts_the_segments(empty, s);
    assert(empty + seq!['/'] + s =~= seq!['/'] + s);
    let front = path::segments(empty);
    lemma_components_behind(front, names);
    assert(front.drop_last() =~= Seq::empty());
    assert(path::components_among(front) =~= Seq::empty());
    assert(path::components(seq!['/'] + s) =~= seq![seq!['/']] + names);
}

/// More than one slash, or a dot between slashes, is the same as one slash.
#[verifier::rlimit(60)]
pub proof fn law_slashes_and_dots_do_not_count(a: Seq<char>, b: Seq<char>)
    requires
        a.len() > 0,
    ensures
        path::components(a + seq!['/'] + (seq!['/'] + b)) == path::components(a + seq!['/'] + b),
        path::components(a + seq!['/'] + (seq!['.', '/'] + b)) == path::components(
            a + seq!['/'] + b,
        ),
{
    let empty = Seq::<char>::empty();
    let dot = seq!['.'];
    lemma_components_of_two(a, b);
    lemma_components_of_two(a, seq!['/'] + b);
    lemma_components_of_two(a, seq!['.', '/'] + b);
    law_a_slash_parts_the_segments(empty, b);
    law_a_slash_parts_the_segments(dot, b);
    assert(empty + seq!['/'] + b =~= seq!['/'] + b);
    assert(dot + seq!['/'] + b =~= seq!['.', '/'] + b);
    lemma_word(empty);
    lemma_word(dot);
    lemma_named_behind(seq![empty], path::segments(b));
    lemma_named_behind(seq![dot], path::segments(b));
    lemma_names_nothing(empty);
    lemma_names_nothing(dot);
    assert(named(seq![empty]) + named(path::segments(b)) =~= named(path::segments(b)));
    assert(named(seq![dot]) + named(path::segments(b)) =~= named(path::segments(b)));
}

proof fn lemma_named_behind(front: Seq<Seq<char>>, back: Seq<Seq<char>>)
    ensures
        named(front + back) == named(front) + named(back),
    decreases back.len(),
{
    if back.len() == 0 {
        assert(front + back =~= front);
        assert(named(front) + named(back) =~= named(front));
    } else {
        lemma_named_behind(front, back.drop_last());
        assert((front + back).drop_last() =~= front + back.drop_last());
        assert((front + back).last() == back.last());
        assert(named(front + back) =~= named(front) + named(back));
    }
}

/// Whatever is behind a directory and a slash lies under that directory.
pub proof fn law_what_is_behind_a_directory_lies_under_it(dir: Seq<char>, rest: Seq<char>)
    requires
        dir.len() > 0,
    ensures
        path::lies_under(dir + seq!['/'] + rest, dir),
        path::lies_under(dir + seq!['/'] + rest, dir + seq!['/']),
        path::lies_under(dir, dir),
{
    lemma_components_of_two(dir, rest);
    let all = path::components(dir + seq!['/'] + rest);
    let base = path::components(dir);
    assert(all.take(base.len() as int) =~= base);
    let empty = Seq::<char>::empty();
    lemma_components_of_two(dir, empty);
    assert(dir + seq!['/'] + empty =~= dir + seq!['/']);
    lemma_word(empty);
    lemma_names_nothing(empty);
    assert(base + named(seq![empty]) =~= base);
    assert(base.take(base.len() as int) =~= base);
}

/// A path whose name only begins like that of a directory does not lie under it.
#[verifier::rlimit(60)]
pub proof fn law_a_longer_name_is_another_one(dir: Seq<char>, more: Seq<char>)
    requires
        dir.len() > 0,
        dir.last() != '/',
        dir.last() != '.',
        more.len() > 0,
        more[0] != '/',
    ensures
        !path::lies_under(dir + more, dir),
{
    let file = dir + more;
    lemma_segments_meet(dir, more);
    law_segments_make_up_the_path(dir);
    law_segments_make_up_the_path(more);
    let parts = path::segments(dir);
    let init = parts.drop_last();
    let l = parts.last();
    let m = path::segments(more)[0];
    lemma_last_segment(dir);
    lemma_first_segment(more);
    assert(l != seq!['.']) by {
        if l == seq!['.'] {
            assert(l.last() == '.');
        }
    }
    let behind = path::segments(more).skip(1);
    let front = init.push(l + m);
    assert(path::segments(file) == front + behind);
    lemma_components_behind(front, behind);
    assert(front.drop_last() =~= init);
    assert((l + m).len() > 1);
    assert(l + m != seq!['.']);
    let k = path::components_among(init).len() as int;
    assert(path::components_among(front) =~= path::components_among(init).push(l + m));
    assert(path::components_among(parts) =~= path::components_among(init).push(l));
    assert(file[0] == dir[0]);
    let shift: int = if path::rooted(dir) {
        1
    } else {
        0
    };
    let a = path::components(file);
    let b = path::components(dir);
    assert(a[k + shift] == l + m);
    assert(b[k + shift] == l);
    assert((l + m).len() != l.len());
    if b.is_prefix_of(a) {
        assert(a.take(b.len() as int)[k + shift] == b[k + shift]);
    }
}

proof fn lemma_last_segment(s: Seq<char>)
    requires
        s.len() > 0,
        s.last() != '/',
    ensures
        path::segments(s).last().len() > 0,
        path::segments(s).last().last() == s.last(),
{
}

proof fn lemma_first_segment(s: Seq<char>)
    requires
        s.len() > 0,
        s[0] != '/',
    ensures
        path::segments(s)[0].len() > 0,
    decreases s.len(),
{
    law_segments_make_up_the_path(s.drop_last());
    if s.len() == 1 {
        assert(s.drop_last() =~= Seq::empty());
    } else {
        lemma_first_segment(s.drop_last());
    }
}

/// A relative path does not lie under an absolute one.
pub proof fn law_relative_paths_lie_elsewhere(file: Seq<char>, dir: Seq<char>)
    requires
        path::rooted(dir),
        !path::rooted(file),
    ensures
        !path::lies_under(file, dir),
{
    law_segments_make_up_the_path(file);
    let a = path::components(file);
    let b = path::components(dir);
    assert(b[0] == seq!['/']);
    if b.is_prefix_of(a) {
        assert(a.take(b.len() as int)[0] == b[0]);
        lemma_components_are_segments(path::segments(file), 0);
        assert(seq!['/'][0] == '/');
    }
}

proof fn lemma_components_are_segments(parts: Seq<Seq<char>>, i: int)
    requires
        forall|i: int| 0 <= i < parts.len() ==> is_word(#[trigger] parts[i]),
        0 <= i < path::components_among(parts).len(),
    ensures
        is_word(path::components_among(parts)[i]),
    decreases parts.len(),
{
    if parts.len() > 0 {
        assert(is_word(parts[parts.len() - 1]));
        assert forall|i: int| 0 <= i < parts.len() - 1 implies is_word(
            #[trigger] parts.drop_last()[i],
        ) by {
            assert(is_word(parts[i]));
        }
        if i < path::components_among(parts.drop_last()).len() {
            lemma_components_are_segments(parts.drop_last(), i);
        }
    }
}

/// A file in the music directory, or below it, goes by the rest of its path: what
/// stands behind the directory and the slash.
pub proof fn law_files_are_named_below_the_music_directory(dir: Seq<char>, rest: Seq<char>)
    requires
        dir.len() > 0,
        rest.len() > 0,
        rest[0] != '/',
        rest.last() != '/',
        !dir.is_prefix_of(seq!['/'] + rest),
    ensures
        run::song_uri(dir + seq!['/'] + rest, dir) == rest,
{
    let file = dir + seq!['/'] + rest;
    let tail = seq!['/'] + rest;
    law_what_is_behind_a_directory_lies_under_it(dir, rest);
    assert(file =~= dir + tail);
    law_prefixes_are_taken_off(tail, dir);
    lemma_strips_to(tail, rest);
}

/// So it does where the directory is given with the slash at its end.
pub proof fn law_files_are_named_below_a_directory_with_a_slash(dir: Seq<char>, rest: Seq<char>)
    requires
        dir.len() > 0,
        rest.len() > 0,
        rest[0] != '/',
        rest.last() != '/',
        !(dir + seq!['/']).is_prefix_of(rest),
    ensures
        run::song_uri(dir + seq!['/'] + rest, dir + seq!['/']) == rest,
{
    law_what_is_behind_a_directory_lies_under_it(dir, rest);
    law_prefixes_are_taken_off(rest, dir + seq!['/']);
    lemma_strips_to(rest, rest);
}

/// Slashes in front of `rest` go, and nothing else.
proof fn lemma_strips_to(tail: Seq<char>, rest: Seq<char>)
    requires
        rest.len() > 0,
        rest[0] != '/',
        rest.last() != '/',
        tail == rest || tail == seq!['/'] + rest,
    ensures
        text::drop_trailing(
            text::drop_leading(tail, |c: char| c == '/'),
            |c: char| c == '/',
        ) == rest,
{
    let p = |c: char| c == '/';
    let at = lemma_leading(tail, p);
    let expected: int = if tail == rest {
        0
    } else {
        1
    };
    assert(tail[expected] == rest[0]);
    assert(at == expected) by {
        if at > expected {
            assert(p(tail[expected]));
        }
        if at < expected {
            assert(p(tail[0]));
        }
    }
    assert(tail.skip(at) =~= rest);
    let n = lemma_trailing(rest, p);
    if n < rest.len() {
        assert(p(rest[rest.len() - 1]));
    }
    assert(rest.take(n) =~= rest);
}

/// A file elsewhere keeps its name.
pub proof fn law_files_elsewhere_keep_their_names(
    file: Seq<char>,
    dir: Seq<char>,
    more: Seq<char>,
)
    ensures
        path::rooted(dir) && !path::rooted(file) ==> run::song_uri(file, dir) == file,
        dir.len() > 0 && dir.last() != '/' && dir.last() != '.' && more.len() > 0 && more[0] != '/'
            ==> run::song_uri(dir + more, dir) == dir + more,
{
    if path::rooted(dir) && !path::rooted(file) {
        law_relative_paths_lie_elsewhere(file, dir);
    }
    if dir.len() > 0 && dir.last() != '/' && dir.last() != '.' && more.len() > 0 && more[0] != '/' {
        law_a_longer_name_is_another_one(dir, more);
    }
}

proof fn lemma_last_component(s: Seq<char>)
    requires
        path::segments(s).last().len() > 0,
        path::segments(s).last() != seq!['.'],
    ensures
        path::components(s).len() > 0,
        path::components(s).last() == path::segments(s).last(),
{
    let parts = path::segments(s);
    law_segments_make_up_the_path(s);
    assert(path::components_among(parts) =~= path::components_among(parts.drop_last()).push(
        parts.last(),
    ));
}

proof fn lemma_last_dot(front: Seq<char>, back: Seq<char>)
    requires
        forall|i: int| 0 <= i < back.len() ==> #[trigger] back[i] != '.',
    ensures
        path::last_dot(front + back) == path::last_dot(front),
        path::last_dot(front + seq!['.'] + back) == front.len(),
        path::last_dot(back) == -1,
    decreases back.len(),
{
    if back.len() == 0 {
        assert(front + back =~= front);
        assert(front + seq!['.'] + back =~= front.push('.'));
    } else {
        let init = back.drop_last();
        assert forall|i: int| 0 <= i < init.len() implies #[trigger] init[i] != '.' by {
            assert(back[i] != '.');
        }
        lemma_last_dot(front, init);
        assert(back[back.len() - 1] != '.');
        assert((front + back).drop_last() =~= front + init);
        assert((front + seq!['.'] + back).drop_last() =~= front + seq!['.'] + init);
    }
}

/// The extension of a file is what stands behind the last dot of its name, where
/// something stands in front of that dot.
pub proof fn law_the_extension_is_behind_the_last_dot(stem: Seq<char>, ext: Seq<char>)
    requires
        stem.len() > 0,
        stem.last() != '/',
        ext.len() > 0,
        forall|i: int| 0 <= i < ext.len() ==> #[trigger] ext[i] != '.' && ext[i] != '/',
    ensures
        path::extension_of(stem + seq!['.'] + ext) == Some(ext),
{
    let tail = seq!['.'] + ext;
    let s = stem + tail;
    assert(stem + seq!['.'] + ext =~= s);
    assert forall|i: int| 0 <= i < tail.len() implies #[trigger] tail[i] != '/' by {
        if i > 0 {
            assert(ext[i - 1] != '/');
        }
    }
    lemma_word(tail);
    lemma_segments_meet(stem, tail);
    lemma_last_segment(stem);
    law_segments_make_up_the_path(stem);
    let l = path::segments(stem).last();
    let name = l + tail;
    assert(path::segments(s).last() == name);
    assert(name.len() >= 3);
    lemma_last_component(s);
    assert(name =~= l + seq!['.'] + ext);
    assert forall|i: int| 0 <= i < ext.len() implies #[trigger] ext[i] != '.' by {}
    lemma_last_dot(l, ext);
    assert(name.skip(l.len() as int + 1) =~= ext);
}

/// A name without a dot, or whose only dot is in front, has no extension.
pub proof fn law_names_without_an_extension(dir: Seq<char>, name: Seq<char>)
    requires
        dir.len() == 0 || dir.last() == '/',
        name.len() > 0,
        forall|i: int| 0 <= i < name.len() ==> #[trigger] name[i] != '.' && name[i] != '/',
    ensures
        path::extension_of(dir + name) is None,
        path::extension_of(dir + seq!['.'] + name) is None,
{
    let hidden = seq!['.'] + name;
    assert(dir + seq!['.'] + name =~= dir + hidden);
    assert forall|i: int| 0 <= i < hidden.len() implies #[trigger] hidden[i] != '/' by {
        if i > 0 {
            assert(name[i - 1] != '/');
        }
    }
    assert(is_word(name));
    lemma_word(name);
    lemma_word(hidden);
    law_segments_make_up_the_path(dir);
    lemma_segments_meet(dir, name);
    lemma_segments_meet(dir, hidden);
    let empty = Seq::<char>::empty();
    assert(path::segments(dir).last() == empty);
    assert(empty + name =~= name);
    assert(empty + hidden =~= hidden);
    assert(name[0] != '.');
    lemma_last_component(dir + name);
    lemma_last_component(dir + hidden);
    assert forall|i: int| 0 <= i < name.len() implies #[trigger] name[i] != '.' by {}
    lemma_last_dot(empty, name);
    assert(empty + seq!['.'] + name =~= hidden);
}

/// A name that is put behind a directory is the last component of the path, and
/// the path lies under the directory.
#[verifier::rlimit(60)]
pub proof fn law_a_name_goes_into_its_directory(dir: Seq<char>, name: Seq<char>)
    requires
        dir.len() > 0,
        is_name(name),
    ensures
        path::components(path::with_name(dir, name)) == path::components(dir).push(name),
        path::with_name(Seq::empty(), name) == name,
        dir.last() != '/' ==> path::with_name(dir, name) == dir + seq!['/'] + name,
        dir.last() == '/' ==> path::with_name(dir, name) == dir + name,
{
    lemma_word(name);
    let one = seq![name];
    assert forall|i: int| 0 <= i < one.len() implies is_name(#[trigger] one[i]) by {}
    lemma_named_names(one);
    assert(Seq::<char>::empty() + name =~= name);
    if dir.last() != '/' {
        assert(path::with_name(dir, name) =~= dir + seq!['/'] + name);
        lemma_components_of_two(dir, name);
        assert(path::components(dir) + one =~= path::components(dir).push(name));
    } else {
        let init = dir.drop_last();
        let empty = Seq::<char>::empty();
        assert(dir =~= init + seq!['/'] + empty);
        assert(dir + name =~= init + seq!['/'] + name);
        law_a_slash_parts_the_segments(init, empty);
        law_a_slash_parts_the_segments(init, name);
        lemma_word(empty);
        law_segments_make_up_the_path(init);
        lemma_components_behind(path::segments(init), seq![empty]);
        lemma_components_behind(path::segments(init), one);
        lemma_names_nothing(empty);
        assert((dir + name)[0] == dir[0]);
        assert(path::components(dir + name) =~= path::components(dir).push(name));
    }
}

} // verus!
