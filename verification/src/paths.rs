//! Windows paths, as text: telling absolute ones from relative ones, and joining them.

use crate::text::{chars_of, split};
use vstd::prelude::*;

verus! {

// --- the parts of a path ---------------------------------------------------------

/// Does `c` separate the components of a path? Under a verbatim prefix only a backslash does.
pub open spec fn is_separator(c: char, verbatim: bool) -> bool {
    c == '\\' || (c == '/' && !verbatim)
}

/// Does the path begin with a verbatim prefix (`\\?\`)?
pub open spec fn is_verbatim(path: Seq<char>) -> bool {
    path.len() >= 4 && path[0] == '\\' && path[1] == '\\' && path[2] == '?' && path[3] == '\\'
}

/// Where the component that begins at `from` ends.
pub open spec fn component_end(path: Seq<char>, from: int, verbatim: bool) -> int
    decreases path.len() - from,
{
    if from < 0 || from >= path.len() || is_separator(path[from], verbatim) {
        from
    } else {
        component_end(path, from + 1, verbatim)
    }
}

/// Does the path begin with a drive letter and a colon?
pub open spec fn has_drive(path: Seq<char>) -> bool {
    path.len() >= 2 && ('a' <= path[0] && path[0] <= 'z' || 'A' <= path[0] && path[0] <= 'Z')
        && path[1] == ':'
}

/// Does the path begin with two separators?
pub open spec fn has_two_separators(path: Seq<char>) -> bool {
    path.len() >= 2 && is_separator(path[0], false) && is_separator(path[1], false)
}

/// Does the path start at a root, whatever its prefix?
pub open spec fn starts_at_root(path: Seq<char>) -> bool {
    path.len() > 0 && is_separator(path[0], false)
}

/// Does the path name a share behind its verbatim prefix (`\\?\UNC\server\share`)?
pub open spec fn is_verbatim_share(path: Seq<char>) -> bool {
    path.len() >= 8 && path[4] == 'U' && path[5] == 'N' && path[6] == 'C' && is_separator(
        path[7],
        false,
    )
}

/// Does the path name just a drive behind its verbatim prefix (`\\?\C:`), up to a separator of
/// either kind?
pub open spec fn is_verbatim_drive(path: Seq<char>) -> bool {
    has_drive(path.skip(4)) && (path.len() == 6 || is_separator(path[6], false))
}

/// The length of a path's verbatim prefix.
pub open spec fn verbatim_len(path: Seq<char>) -> int {
    if is_verbatim_share(path) {
        let server_end = component_end(path, 8, true);
        let share_end = component_end(path, server_end + 1, true);
        if server_end < path.len() && share_end > server_end + 1 {
            share_end
        } else {
            server_end
        }
    } else if is_verbatim_drive(path) {
        6
    } else {
        component_end(path, 4, true)
    }
}

/// What follows a path's verbatim prefix, without the separator between the two.
pub open spec fn behind_prefix(path: Seq<char>) -> Seq<char> {
    if verbatim_len(path) < path.len() {
        path.skip(verbatim_len(path) + 1)
    } else {
        Seq::empty()
    }
}

/// The length of the path's prefix: a verbatim one (`\\?\C:`), a device (`\\.\COM42`), a share
/// (`\\server\share`) or a drive (`C:`). Zero if it has none.
pub open spec fn prefix_len(path: Seq<char>) -> int {
    if is_verbatim(path) {
        verbatim_len(path)
    } else if has_two_separators(path) {
        if path.len() >= 4 && path[2] == '.' && is_separator(path[3], false) {
            component_end(path, 4, false)
        } else {
            let server_end = component_end(path, 2, false);
            let share_end = component_end(path, server_end + 1, false);
            if server_end > 2 && server_end < path.len() && share_end > server_end + 1 {
                share_end
            } else {
                0
            }
        }
    } else if has_drive(path) {
        2
    } else {
        0
    }
}

/// Is the path absolute: does it have a prefix, and start at its root? Only a drive can be
/// named without starting at its root (`C:temp`).
pub open spec fn is_absolute(path: Seq<char>) -> bool {
    prefix_len(path) > 0 && (has_two_separators(path) || (path.len() > 2 && is_separator(
        path[2],
        false,
    )))
}

/// The components that backslashes separate.
pub open spec fn components(path: Seq<char>) -> Seq<Seq<char>> {
    crate::text::split_on(path, '\\').filter(|c: Seq<char>| c.len() > 0)
}

/// The path with a backslash for every separator.
pub open spec fn backslashed(path: Seq<char>) -> Seq<char> {
    path.map_values(|c: char|
        if c == '/' {
            '\\'
        } else {
            c
        })
}

// --- joining ---------------------------------------------------------------------

/// Is this the component for "here"?
pub open spec fn is_here(component: Seq<char>) -> bool {
    component == seq!['.']
}

/// Is this the component for "up"?
pub open spec fn is_up(component: Seq<char>) -> bool {
    component == seq!['.', '.']
}

/// Where one more component leads: "here" nowhere else, and "up" one component back, if there
/// is one to go back on.
pub open spec fn follow(at: Seq<Seq<char>>, component: Seq<char>) -> Seq<Seq<char>> {
    if is_here(component) {
        at
    } else if is_up(component) {
        if at.len() > 0 && !is_here(at.last()) && !is_up(at.last()) {
            at.drop_last()
        } else {
            at
        }
    } else {
        at.push(component)
    }
}

/// Where several components lead.
pub open spec fn follow_all(at: Seq<Seq<char>>, way: Seq<Seq<char>>) -> Seq<Seq<char>>
    decreases way.len(),
{
    if way.len() == 0 {
        at
    } else {
        follow(follow_all(at, way.drop_last()), way.last())
    }
}

/// `path` as seen from `base`, which has a verbatim prefix. Windows takes such paths
/// literally, so what is put behind one is normalised first.
pub open spec fn joined_verbatim(base: Seq<char>, path: Seq<char>) -> Seq<char> {
    let prefix = prefix_len(base);
    let start = if starts_at_root(path) {
        Seq::empty()
    } else {
        components(behind_prefix(base))
    };
    let end = follow_all(start, components(backslashed(path)));
    base.take(prefix) + (if starts_at_root(path) || prefix < base.len() || end.len() > 0 {
        "\\"@
    } else {
        Seq::empty()
    }) + crate::text::joined(end, "\\"@)
}

/// `path` as seen from `base`: a path with a prefix replaces `base`, one that only starts at
/// a root keeps the prefix of `base`, and any other is put behind it, a separator between the
/// two unless `base` is empty, ends with one, or is just a drive.
pub open spec fn joined(base: Seq<char>, path: Seq<char>) -> Seq<char> {
    if prefix_len(path) > 0 {
        path
    } else if is_verbatim(base) && path.len() > 0 {
        joined_verbatim(base, path)
    } else if starts_at_root(path) {
        base.take(prefix_len(base)) + path
    } else if base.len() == 0 || is_separator(base.last(), false) || (base.len() == 2 && has_drive(
        base,
    )) {
        base + path
    } else {
        base + "\\"@ + path
    }
}

// --- in code ---------------------------------------------------------------------

/// Does `c` separate the components of a path?
fn separates(c: char, verbatim: bool) -> (r: bool)
    ensures
        r == is_separator(c, verbatim),
{
    c == '\\' || (c == '/' && !verbatim)
}

/// Does the path begin with a verbatim prefix?
fn starts_verbatim(path: &Vec<char>) -> (r: bool)
    ensures
        r == is_verbatim(path@),
{
    path.len() >= 4 && path[0] == '\\' && path[1] == '\\' && path[2] == '?' && path[3] == '\\'
}

/// Where the component that begins at `from` ends.
fn find_component_end(path: &Vec<char>, from: usize, verbatim: bool) -> (r: usize)
    requires
        from <= path@.len(),
    ensures
        r == component_end(path@, from as int, verbatim),
        from <= r <= path@.len(),
{
    let mut i: usize = from;
    while i < path.len() && !separates(path[i], verbatim)
        invariant
            from <= i <= path@.len(),
            component_end(path@, from as int, verbatim) == component_end(
                path@,
                i as int,
                verbatim,
            ),
        decreases path.len() - i,
    {
        i = i + 1;
    }
    i
}

/// Does the path begin with a drive letter and a colon?
fn starts_with_drive(path: &Vec<char>) -> (r: bool)
    ensures
        r == has_drive(path@),
{
    path.len() >= 2 && ('a' <= path[0] && path[0] <= 'z' || 'A' <= path[0] && path[0] <= 'Z')
        && path[1] == ':'
}

/// The length of a path's verbatim prefix.
fn find_verbatim_len(path: &Vec<char>) -> (r: usize)
    requires
        is_verbatim(path@),
    ensures
        r == verbatim_len(path@),
        4 <= r <= path@.len(),
{
    if path.len() >= 8 && path[4] == 'U' && path[5] == 'N' && path[6] == 'C' && separates(
        path[7],
        false,
    ) {
        let server_end: usize = find_component_end(path, 8, true);
        if server_end == path.len() {
            return server_end;
        }
        let share_end: usize = find_component_end(path, server_end + 1, true);
        if share_end > server_end + 1 {
            share_end
        } else {
            server_end
        }
    } else if path.len() >= 6 && ('a' <= path[4] && path[4] <= 'z' || 'A' <= path[4] && path[4]
        <= 'Z') && path[5] == ':' && (path.len() == 6 || separates(path[6], false)) {
        6
    } else {
        find_component_end(path, 4, true)
    }
}

/// The length of the path's prefix.
fn find_prefix_len(path: &Vec<char>) -> (r: usize)
    ensures
        r == prefix_len(path@),
        r <= path@.len(),
{
    if starts_verbatim(path) {
        return find_verbatim_len(path);
    }
    if path.len() >= 2 && separates(path[0], false) && separates(path[1], false) {
        if path.len() >= 4 && path[2] == '.' && separates(path[3], false) {
            return find_component_end(path, 4, false);
        }
        let server_end: usize = find_component_end(path, 2, false);
        if server_end == 2 || server_end == path.len() {
            return 0;
        }
        let share_end: usize = find_component_end(path, server_end + 1, false);
        if share_end > server_end + 1 {
            share_end
        } else {
            0
        }
    } else if starts_with_drive(path) {
        2
    } else {
        0
    }
}

/// Is the path absolute?
pub fn is_absolute_path(path: &str) -> (r: bool)
    ensures
        r == is_absolute(path@),
{
    let p = chars_of(path);
    find_prefix_len(&p) > 0 && (separates(p[0], false) && separates(p[1], false) || (p.len() > 2
        && separates(p[2], false)))
}

/// The components that backslashes separate.
fn find_components(path: &[char]) -> (r: Vec<Vec<char>>)
    ensures
        crate::text::char_pieces(r@) == components(path@),
{
    let pieces = split(path, '\\');
    let ghost all = crate::text::char_pieces(pieces@);
    let ghost filled = |c: Seq<char>| c.len() > 0;
    let mut r: Vec<Vec<char>> = Vec::new();
    let mut k: usize = 0;
    proof {
        reveal(Seq::filter);
        assert(all.take(0).filter(filled) =~= Seq::<Seq<char>>::empty());
        assert(crate::text::char_pieces(r@) =~= Seq::<Seq<char>>::empty());
    }
    while k < pieces.len()
        invariant
            k <= pieces.len(),
            all == crate::text::char_pieces(pieces@),
            filled == (|c: Seq<char>| c.len() > 0),
            crate::text::char_pieces(r@) == all.take(k as int).filter(filled),
        decreases pieces.len() - k,
    {
        let ghost before = crate::text::char_pieces(r@);
        proof {
            reveal(Seq::filter);
            assert(all.take(k + 1).drop_last() =~= all.take(k as int));
            assert(all.take(k + 1).last() == pieces@[k as int]@);
        }
        if pieces[k].len() > 0 {
            let mut piece: Vec<char> = Vec::new();
            piece.extend_from_slice(pieces[k].as_slice());
            assert(piece@ =~= pieces@[k as int]@);
            r.push(piece);
            assert(crate::text::char_pieces(r@) =~= before.push(pieces@[k as int]@));
        }
        k = k + 1;
    }
    assert(all.take(all.len() as int) =~= all);
    r
}

/// Is the component made of `count` dots, of one or two?
fn is_dots(component: &Vec<char>, count: usize) -> (r: bool)
    requires
        count == 1 || count == 2,
    ensures
        r == if count == 1 {
            is_here(component@)
        } else {
            is_up(component@)
        },
{
    if component.len() != count {
        return false;
    }
    if count == 1 {
        assert((component@[0] == '.') == (component@ =~= seq!['.']));
        component[0] == '.'
    } else {
        assert((component@[0] == '.' && component@[1] == '.') == (component@ =~= seq!['.', '.']));
        component[0] == '.' && component[1] == '.'
    }
}

/// Where several components lead from `at`.
fn walk(at: Vec<Vec<char>>, way: &Vec<Vec<char>>) -> (r: Vec<Vec<char>>)
    ensures
        crate::text::char_pieces(r@) == follow_all(
            crate::text::char_pieces(at@),
            crate::text::char_pieces(way@),
        ),
{
    let ghost start = crate::text::char_pieces(at@);
    let ghost all = crate::text::char_pieces(way@);
    let mut r = at;
    let mut k: usize = 0;
    while k < way.len()
        invariant
            k <= way.len(),
            all == crate::text::char_pieces(way@),
            crate::text::char_pieces(r@) == follow_all(start, all.take(k as int)),
        decreases way.len() - k,
    {
        let ghost here = crate::text::char_pieces(r@);
        let component = &way[k];
        proof {
            assert(all.take(k + 1).drop_last() =~= all.take(k as int));
            assert(all.take(k + 1).last() == component@);
        }
        if is_dots(component, 1) {
        } else if is_dots(component, 2) {
            let back = r.len() > 0 && !is_dots(&r[r.len() - 1], 1) && !is_dots(
                &r[r.len() - 1],
                2,
            );
            proof {
                if r@.len() > 0 {
                    assert(here.last() == r@.last()@);
                }
            }
            if back {
                let _ = r.pop();
                assert(crate::text::char_pieces(r@) =~= here.drop_last());
            }
        } else {
            let mut next: Vec<char> = Vec::new();
            next.extend_from_slice(component.as_slice());
            assert(next@ =~= component@);
            r.push(next);
            assert(crate::text::char_pieces(r@) =~= here.push(component@));
        }
        k = k + 1;
    }
    assert(all.take(all.len() as int) =~= all);
    r
}

/// The text that characters spell.
fn text_from(chars: &Vec<char>) -> (r: String)
    ensures
        r@ == chars@,
{
    let mut r = String::new();
    let mut k: usize = 0;
    while k < chars.len()
        invariant
            k <= chars.len(),
            r@ == chars@.take(k as int),
        decreases chars.len() - k,
    {
        r.push(chars[k]);
        assert(r@ =~= chars@.take(k + 1));
        k = k + 1;
    }
    assert(chars@.take(chars@.len() as int) =~= chars@);
    r
}

/// `path` as seen from `base`, which has a verbatim prefix.
fn join_verbatim(base: &str, path: &str) -> (r: String)
    requires
        is_verbatim(base@),
    ensures
        r@ == joined_verbatim(base@, path@),
{
    let b = chars_of(base);
    let p = chars_of(path);
    let prefix: usize = find_verbatim_len(&b);
    let rooted = p.len() > 0 && separates(p[0], false);

    let mut at: Vec<Vec<char>> = Vec::new();
    if !rooted {
        let from: usize = if prefix < b.len() {
            prefix + 1
        } else {
            prefix
        };
        let rest = vstd::slice::slice_subrange(b.as_slice(), from, b.len());
        assert(rest@ =~= behind_prefix(base@));
        at = find_components(rest);
    }
    assert(rooted ==> crate::text::char_pieces(at@) =~= Seq::<Seq<char>>::empty());
    let mut way: Vec<char> = Vec::new();
    let mut k: usize = 0;
    while k < p.len()
        invariant
            k <= p.len(),
            p@ == path@,
            way@ == backslashed(path@).take(k as int),
        decreases p.len() - k,
    {
        way.push(
            if p[k] == '/' {
                '\\'
            } else {
                p[k]
            },
        );
        assert(way@ =~= backslashed(path@).take(k + 1));
        k = k + 1;
    }
    assert(way@ =~= backslashed(path@));
    let end = walk(at, &find_components(way.as_slice()));

    let mut texts: Vec<String> = Vec::new();
    let mut i: usize = 0;
    while i < end.len()
        invariant
            i <= end.len(),
            texts@.len() == i,
            forall|j: int| 0 <= j < i ==> (#[trigger] texts@[j])@ == end@[j]@,
        decreases end.len() - i,
    {
        texts.push(text_from(&end[i]));
        i = i + 1;
    }
    assert(crate::text::texts(texts@) =~= crate::text::char_pieces(end@));

    let mut r = base.substring_char(0, prefix).to_string();
    assert(r@ =~= base@.take(prefix as int));
    let ghost before = r@;
    if rooted || prefix < b.len() || end.len() > 0 {
        r.append("\\");
    } else {
        assert(r@ =~= before + Seq::<char>::empty());
    }
    r.append(crate::text::join(&texts, "\\").as_str());
    r
}

/// `path` as seen from `base` -- see [`joined`].
pub fn join(base: &str, path: &str) -> (r: String)
    ensures
        r@ == joined(base@, path@),
{
    let b = chars_of(base);
    let p = chars_of(path);
    if find_prefix_len(&p) > 0 {
        return path.to_string();
    }
    let verbatim = starts_verbatim(&b);
    if verbatim && p.len() > 0 {
        return join_verbatim(base, path);
    }
    if p.len() > 0 && separates(p[0], false) {
        let mut r = base.substring_char(0, find_prefix_len(&b)).to_string();
        assert(r@ =~= base@.take(prefix_len(base@)));
        r.append(path);
        return r;
    }
    let mut r = base.to_string();
    if !(b.len() == 0 || separates(b[b.len() - 1], false) || (b.len() == 2 && starts_with_drive(
        &b,
    ))) {
        r.append("\\");
    }
    r.append(path);
    r
}

// --- laws ------------------------------------------------------------------------

/// An absolute path is the same from everywhere.
pub proof fn law_an_absolute_path_stays(base: Seq<char>, path: Seq<char>)
    requires
        is_absolute(path),
    ensures
        joined(base, path) == path,
{
}

/// A relative path lands under the directory it is joined to: the result begins with it, and
/// ends with the path. (Under a verbatim prefix "up" is followed, and may lead elsewhere.)
pub proof fn law_a_relative_path_lands_under_its_base(base: Seq<char>, path: Seq<char>)
    requires
        !is_verbatim(base),
        prefix_len(path) == 0,
        !starts_at_root(path),
    ensures
        crate::text::has_prefix(joined(base, path), base),
        joined(base, path).skip(joined(base, path).len() - path.len()) == path,
{
    assert(joined(base, path).take(base.len() as int) =~= base);
    assert(joined(base, path).skip(joined(base, path).len() - path.len()) =~= path);
}

/// What is joined to an absolute directory on a drive is absolute, unless it names another
/// drive without starting at its root.
pub proof fn law_joining_to_an_absolute_base_is_absolute(base: Seq<char>, path: Seq<char>)
    requires
        has_drive(base),
        is_absolute(base),
        prefix_len(path) == 0,
    ensures
        is_absolute(joined(base, path)),
{
    let r = joined(base, path);
    if starts_at_root(path) {
        assert(base.take(2).len() == 2);
        assert(r[0] == base[0] && r[1] == base[1] && r[2] == path[0]);
    } else {
        assert(r[0] == base[0] && r[1] == base[1] && r[2] == base[2]);
    }
}

/// A drive and a separator make a path absolute; a drive without one does not, nor does a
/// separator without a drive; and a path that begins with neither is not.
pub proof fn law_what_makes_a_path_absolute(letter: char, separator: char, rest: Seq<char>)
    requires
        'a' <= letter && letter <= 'z' || 'A' <= letter && letter <= 'Z',
        separator == '\\' || separator == '/',
    ensures
        is_absolute(seq![letter, ':', separator] + rest),
        rest.len() == 0 || (rest[0] != '\\' && rest[0] != '/') ==> !is_absolute(
            seq![letter, ':'] + rest,
        ),
        rest.len() == 0 || (rest[0] != '\\' && rest[0] != '/') ==> !is_absolute(
            seq![separator] + rest,
        ),
        rest.len() == 0 || rest[0] != ':' ==> !is_absolute(seq![letter] + rest),
{
    let a = seq![letter, ':', separator] + rest;
    assert(a[0] == letter && a[1] == ':' && a[2] == separator);
    let b = seq![letter, ':'] + rest;
    assert(b[0] == letter && b[1] == ':');
    assert(rest.len() > 0 ==> b[2] == rest[0]);
    let c = seq![separator] + rest;
    assert(c[0] == separator);
    assert(rest.len() > 0 ==> c[1] == rest[0]);
    let d = seq![letter] + rest;
    assert(d[0] == letter);
    assert(rest.len() > 0 ==> d[1] == rest[0]);
}

/// A relative path is put behind a directory with one backslash between the two, and with none
/// where the directory ends with a separator already, is just a drive, or is nothing at all.
pub proof fn law_one_separator_comes_between(base: Seq<char>, path: Seq<char>)
    requires
        !is_verbatim(base),
        prefix_len(path) == 0,
        !starts_at_root(path),
    ensures
        ({
            let ready = base.len() == 0 || base.last() == '\\' || base.last() == '/' || (base.len()
                == 2 && base[1] == ':' && ('a' <= base[0] && base[0] <= 'z' || 'A' <= base[0]
                && base[0] <= 'Z'));
            &&& ready ==> joined(base, path) == base + path
            &&& !ready ==> joined(base, path) == base + seq!['\\'] + path
        }),
{
    reveal_strlit("\\");
    assert("\\"@ =~= seq!['\\']);
}

/// A path that starts at a root stays on the drive of the directory it is seen from, and
/// nothing else of that is left.
pub proof fn law_a_rooted_path_stays_on_its_drive(base: Seq<char>, path: Seq<char>)
    requires
        has_drive(base),
        starts_at_root(path),
        prefix_len(path) == 0,
    ensures
        joined(base, path) == seq![base[0], ':'] + path,
{
    assert(!is_separator(base[0], false));
    assert(prefix_len(base) == 2);
    assert(base.take(2) =~= seq![base[0], ':']);
}

/// A way goes through its components: "here" leads nowhere, "up" leads back from where a
/// component led, and every other component leads on.
pub proof fn law_up_undoes_a_component(at: Seq<Seq<char>>, component: Seq<char>)
    requires
        component != seq!['.'],
        component != seq!['.', '.'],
    ensures
        follow(at, seq!['.']) == at,
        follow(at, component) == at.push(component),
        follow(follow(at, component), seq!['.', '.']) == at,
        follow(Seq::empty(), seq!['.', '.']).len() == 0,
{
    assert(seq!['.'].len() == 1);
    assert(seq!['.', '.'].len() == 2);
    assert(at.push(component).last() == component);
    assert(at.push(component).drop_last() =~= at);
}

/// A component ends at the next separator, or with the path.
proof fn lemma_component_end(path: Seq<char>, from: int, to: int, verbatim: bool)
    requires
        0 <= from <= to <= path.len(),
        forall|i: int| from <= i < to ==> !is_separator(#[trigger] path[i], verbatim),
        to < path.len() ==> is_separator(path[to], verbatim),
    ensures
        component_end(path, from, verbatim) == to,
    decreases to - from,
{
    if from < to {
        lemma_component_end(path, from + 1, to, verbatim);
    }
}

/// A share of a server makes a path absolute, and stays when a path that starts at a root is
/// seen from it.
pub proof fn law_a_share_is_absolute(
    server: Seq<char>,
    share: Seq<char>,
    rest: Seq<char>,
    path: Seq<char>,
)
    requires
        server.len() > 0,
        share.len() > 0,
        server != seq!['.'],
        server != seq!['?'],
        forall|i: int|
            0 <= i < server.len() ==> #[trigger] server[i] != '\\' && server[i] != '/',
        forall|i: int| 0 <= i < share.len() ==> #[trigger] share[i] != '\\' && share[i] != '/',
        rest.len() > 0 ==> rest[0] == '\\' || rest[0] == '/',
        starts_at_root(path),
        prefix_len(path) == 0,
    ensures
        ({
            let place = seq!['\\', '\\'] + server + seq!['\\'] + share;
            &&& is_absolute(place + rest)
            &&& joined(place + rest, path) == place + path
        }),
{
    let place = seq!['\\', '\\'] + server + seq!['\\'] + share;
    let whole = place + rest;
    let server_end = 2 + server.len() as int;
    let share_end = server_end + 1 + share.len() as int;
    assert(whole[0] == '\\' && whole[1] == '\\');
    assert(whole[2] == server[0]);
    assert(whole[server_end] == '\\');
    if server.len() == 1 {
        assert(server =~= seq![server[0]]);
        assert(server[0] != '.' && server[0] != '?');
    } else {
        assert(whole[3] == server[1]);
    }
    assert forall|i: int| 2 <= i < server_end implies !is_separator(
        #[trigger] whole[i],
        false,
    ) by {
        assert(whole[i] == server[i - 2]);
    }
    lemma_component_end(whole, 2, server_end, false);
    assert forall|i: int| server_end + 1 <= i < share_end implies !is_separator(
        #[trigger] whole[i],
        false,
    ) by {
        assert(whole[i] == share[i - server_end - 1]);
    }
    if rest.len() > 0 {
        assert(whole[share_end] == rest[0]);
    }
    lemma_component_end(whole, server_end + 1, share_end, false);
    assert(prefix_len(whole) == share_end);
    assert(whole.take(share_end) =~= place);
}

} // verus!
