//! Text, as the configuration file and Windows spell it: names that are compared without
//! regard to ASCII case, values with stray blanks around them, numbers in decimal and
//! hexadecimal, and UTF-16 buffers.

use vstd::prelude::*;

verus! {

// --- characters ------------------------------------------------------------------

/// `c` with an ASCII capital replaced by its small letter.
pub open spec fn lower_char(c: char) -> char {
    if 'A' <= c && c <= 'Z' {
        ((c as u32) + 32) as char
    } else {
        c
    }
}

/// Does `c` have Unicode's `White_Space` property?
pub open spec fn is_white_space(c: char) -> bool {
    ||| 0x09 <= c as u32 <= 0x0d
    ||| c as u32 == 0x20
    ||| c as u32 == 0x85
    ||| c as u32 == 0xa0
    ||| c as u32 == 0x1680
    ||| 0x2000 <= c as u32 <= 0x200a
    ||| c as u32 == 0x2028
    ||| c as u32 == 0x2029
    ||| c as u32 == 0x202f
    ||| c as u32 == 0x205f
    ||| c as u32 == 0x3000
}

/// `char::is_whitespace`: whether the character has Unicode's `White_Space` property. The
/// contract spells that property out as the code points that have it.
pub assume_specification[ char::is_whitespace ](c: char) -> (r: bool)
    ensures
        r == is_white_space(c),
;

/// `String::push`: appends the one given character.
pub assume_specification[ String::push ](s: &mut String, c: char)
    ensures
        final(s)@ == old(s)@.push(c),
;

/// `c` with an ASCII capital replaced by its small letter.
pub fn to_lower_char(c: char) -> (r: char)
    ensures
        r == lower_char(c),
{
    if 'A' <= c && c <= 'Z' {
        ((c as u8) + 32) as char
    } else {
        c
    }
}

/// The characters of `s`, one by one.
pub fn chars_of(s: &str) -> (chars: Vec<char>)
    ensures
        chars@ == s@,
{
    let mut chars: Vec<char> = Vec::new();
    for c in it: s.chars()
        invariant
            chars@ == it.seq().take(it.index()),
            it.seq() == s@,
    {
        chars.push(c);
        assert(it.seq().take(it.index() + 1) =~= it.seq().take(it.index()).push(c));
    }
    chars
}

/// What a borrowed text that may be missing says.
pub open spec fn text_of(s: Option<&str>) -> Option<Seq<char>> {
    match s {
        Some(s) => Some(s@),
        None => None,
    }
}

/// What an owned text that may be missing says.
pub open spec fn string_of(s: Option<String>) -> Option<Seq<char>> {
    match s {
        Some(s) => Some(s@),
        None => None,
    }
}

// --- comparing -------------------------------------------------------------------

/// `s` with every ASCII capital replaced by its small letter.
pub open spec fn ascii_lower(s: Seq<char>) -> Seq<char> {
    s.map_values(|c: char| lower_char(c))
}

/// Are `a` and `b` the same text?
pub fn same_text(a: &str, b: &str) -> (r: bool)
    ensures
        r == (a@ == b@),
{
    let x = chars_of(a);
    let y = chars_of(b);
    if x.len() != y.len() {
        return false;
    }
    let mut i: usize = 0;
    while i < x.len()
        invariant
            x@ == a@,
            y@ == b@,
            x.len() == y.len(),
            i <= x.len(),
            forall|j: int| 0 <= j < i ==> x@[j] == y@[j],
        decreases x.len() - i,
    {
        if x[i] != y[i] {
            return false;
        }
        i = i + 1;
    }
    assert(a@ =~= b@);
    true
}

/// Are `a` and `b` the same text but for the case of ASCII letters?
pub fn eq_ignore_ascii_case(a: &str, b: &str) -> (r: bool)
    ensures
        r == (ascii_lower(a@) == ascii_lower(b@)),
{
    let x = chars_of(a);
    let y = chars_of(b);
    let ghost la = ascii_lower(a@);
    let ghost lb = ascii_lower(b@);
    if x.len() != y.len() {
        assert(la.len() != lb.len());
        return false;
    }
    let mut i: usize = 0;
    while i < x.len()
        invariant
            x@ == a@,
            y@ == b@,
            la == ascii_lower(a@),
            lb == ascii_lower(b@),
            x.len() == y.len(),
            i <= x.len(),
            forall|j: int| 0 <= j < i ==> la[j] == lb[j],
        decreases x.len() - i,
    {
        if to_lower_char(x[i]) != to_lower_char(y[i]) {
            assert(la[i as int] != lb[i as int]);
            return false;
        }
        i = i + 1;
    }
    assert(la =~= lb);
    true
}

/// Does `s` begin with `prefix`?
pub open spec fn has_prefix(s: Seq<char>, prefix: Seq<char>) -> bool {
    prefix.len() <= s.len() && s.take(prefix.len() as int) == prefix
}

/// Does `s` begin with `prefix`?
pub fn starts_with(s: &str, prefix: &str) -> (r: bool)
    ensures
        r == has_prefix(s@, prefix@),
{
    let x = chars_of(s);
    let p = chars_of(prefix);
    if p.len() > x.len() {
        return false;
    }
    let mut i: usize = 0;
    while i < p.len()
        invariant
            x@ == s@,
            p@ == prefix@,
            p.len() <= x.len(),
            i <= p.len(),
            forall|j: int| 0 <= j < i ==> x@[j] == p@[j],
        decreases p.len() - i,
    {
        if x[i] != p[i] {
            assert(s@.take(prefix@.len() as int)[i as int] != prefix@[i as int]);
            return false;
        }
        i = i + 1;
    }
    assert(s@.take(prefix@.len() as int) =~= prefix@);
    true
}

/// Does `a` come before `b`, comparing character by character?
pub open spec fn text_before(a: Seq<char>, b: Seq<char>) -> bool
    decreases a.len(),
{
    if b.len() == 0 {
        false
    } else if a.len() == 0 {
        true
    } else if a[0] != b[0] {
        a[0] < b[0]
    } else {
        text_before(a.drop_first(), b.drop_first())
    }
}

/// Nothing comes before itself.
pub proof fn lemma_text_before_irreflexive(a: Seq<char>)
    ensures
        !text_before(a, a),
    decreases a.len(),
{
    if a.len() > 0 {
        lemma_text_before_irreflexive(a.drop_first());
    }
}

/// The order chains.
pub proof fn lemma_text_before_transitive(a: Seq<char>, b: Seq<char>, c: Seq<char>)
    requires
        text_before(a, b),
        text_before(b, c),
    ensures
        text_before(a, c),
    decreases a.len(),
{
    if a.len() > 0 && b.len() > 0 && c.len() > 0 && a[0] == b[0] && b[0] == c[0] {
        lemma_text_before_transitive(a.drop_first(), b.drop_first(), c.drop_first());
    }
}

/// Of two different texts one comes first.
pub proof fn lemma_text_before_total(a: Seq<char>, b: Seq<char>)
    ensures
        a == b || text_before(a, b) || text_before(b, a),
    decreases a.len(),
{
    if a.len() > 0 && b.len() > 0 && a[0] == b[0] {
        lemma_text_before_total(a.drop_first(), b.drop_first());
        if a.drop_first() == b.drop_first() {
            assert(a =~= seq![a[0]] + a.drop_first());
            assert(b =~= seq![b[0]] + b.drop_first());
        }
    } else if a.len() == 0 && b.len() == 0 {
        assert(a =~= b);
    }
}

/// Does `a` come before `b`, comparing character by character?
pub fn comes_before(a: &str, b: &str) -> (r: bool)
    ensures
        r == text_before(a@, b@),
{
    let x = chars_of(a);
    let y = chars_of(b);
    let mut i: usize = 0;
    assert(a@.skip(0) =~= a@);
    assert(b@.skip(0) =~= b@);
    while i < x.len() && i < y.len() && x[i] == y[i]
        invariant
            x@ == a@,
            y@ == b@,
            i <= x.len(),
            i <= y.len(),
            text_before(a@, b@) == text_before(a@.skip(i as int), b@.skip(i as int)),
        decreases x.len() - i,
    {
        assert(a@.skip(i as int).drop_first() =~= a@.skip(i + 1));
        assert(b@.skip(i as int).drop_first() =~= b@.skip(i + 1));
        i = i + 1;
    }
    if i >= y.len() {
        false
    } else if i >= x.len() {
        true
    } else {
        x[i] < y[i]
    }
}

// --- trimming --------------------------------------------------------------------

/// `s` without the leading characters that satisfy `drop`.
pub open spec fn trim_start_by(s: Seq<char>, drop: spec_fn(char) -> bool) -> Seq<char>
    decreases s.len(),
{
    if s.len() > 0 && drop(s.first()) {
        trim_start_by(s.drop_first(), drop)
    } else {
        s
    }
}

/// `s` without the trailing characters that satisfy `drop`.
pub open spec fn trim_end_by(s: Seq<char>, drop: spec_fn(char) -> bool) -> Seq<char>
    decreases s.len(),
{
    if s.len() > 0 && drop(s.last()) {
        trim_end_by(s.drop_last(), drop)
    } else {
        s
    }
}

/// `s` without the white space around it.
pub open spec fn trimmed(s: Seq<char>) -> Seq<char> {
    trim_end_by(
        trim_start_by(s, |c: char| is_white_space(c)),
        |c: char| is_white_space(c),
    )
}

/// `s` without the white space around it.
pub fn trim<'a>(s: &'a str) -> (r: &'a str)
    ensures
        r@ == trimmed(s@),
{
    let x = chars_of(s);
    let ghost ws = |c: char| is_white_space(c);
    let mut from: usize = 0;
    assert(s@.skip(0) =~= s@);
    while from < x.len() && x[from].is_whitespace()
        invariant
            x@ == s@,
            ws == (|c: char| is_white_space(c)),
            from <= x.len(),
            trim_start_by(s@, ws) == trim_start_by(s@.skip(from as int), ws),
        decreases x.len() - from,
    {
        assert(s@.skip(from as int).drop_first() =~= s@.skip(from + 1));
        from = from + 1;
    }
    assert(trim_start_by(s@, ws) == s@.skip(from as int));
    let mut to: usize = x.len();
    assert(s@.skip(from as int) =~= s@.subrange(from as int, to as int));
    while to > from && x[to - 1].is_whitespace()
        invariant
            x@ == s@,
            ws == (|c: char| is_white_space(c)),
            from <= to <= x.len(),
            trimmed(s@) == trim_end_by(s@.subrange(from as int, to as int), ws),
        decreases to,
    {
        assert(s@.subrange(from as int, to as int).drop_last() =~= s@.subrange(
            from as int,
            to - 1,
        ));
        to = to - 1;
    }
    s.substring_char(from, to)
}

/// Does `s` read as `name`, blanks around it and the case of ASCII letters aside?
pub open spec fn reads_like(s: Seq<char>, name: Seq<char>) -> bool {
    ascii_lower(trimmed(s)) == ascii_lower(name)
}

/// A text that neither begins nor ends with white space has none to trim.
pub proof fn lemma_plain_word_is_trimmed(s: Seq<char>)
    requires
        s.len() > 0 ==> !is_white_space(s.first()) && !is_white_space(s.last()),
    ensures
        trimmed(s) == s,
{
}

/// Where `drop` makes no difference between cases, trimming the front commutes with lowering.
pub proof fn lemma_trim_start_ignores_case(s: Seq<char>, drop: spec_fn(char) -> bool)
    requires
        forall|c: char| #[trigger] drop(lower_char(c)) == drop(c),
    ensures
        trim_start_by(ascii_lower(s), drop) == ascii_lower(trim_start_by(s, drop)),
    decreases s.len(),
{
    if s.len() > 0 {
        assert(ascii_lower(s).first() == lower_char(s.first()));
        assert(ascii_lower(s).drop_first() =~= ascii_lower(s.drop_first()));
        assert(drop(lower_char(s.first())) == drop(s.first()));
        lemma_trim_start_ignores_case(s.drop_first(), drop);
    }
}

/// Where `drop` makes no difference between cases, trimming the end commutes with lowering.
pub proof fn lemma_trim_end_ignores_case(s: Seq<char>, drop: spec_fn(char) -> bool)
    requires
        forall|c: char| #[trigger] drop(lower_char(c)) == drop(c),
    ensures
        trim_end_by(ascii_lower(s), drop) == ascii_lower(trim_end_by(s, drop)),
    decreases s.len(),
{
    if s.len() > 0 {
        assert(ascii_lower(s).last() == lower_char(s.last()));
        assert(ascii_lower(s).drop_last() =~= ascii_lower(s.drop_last()));
        assert(drop(lower_char(s.last())) == drop(s.last()));
        lemma_trim_end_ignores_case(s.drop_last(), drop);
    }
}

// --- taking apart and putting together -------------------------------------------

/// The pieces of `s` between occurrences of `sep`; always at least one.
pub open spec fn split_on(s: Seq<char>, sep: char) -> Seq<Seq<char>>
    decreases s.len(),
{
    if s.len() == 0 {
        seq![Seq::<char>::empty()]
    } else {
        let before = split_on(s.drop_last(), sep);
        if s.last() == sep {
            before.push(Seq::<char>::empty())
        } else {
            before.drop_last().push(before.last().push(s.last()))
        }
    }
}

/// There is always at least one piece.
pub proof fn lemma_split_nonempty(s: Seq<char>, sep: char)
    ensures
        split_on(s, sep).len() >= 1,
    decreases s.len(),
{
    if s.len() > 0 {
        lemma_split_nonempty(s.drop_last(), sep);
    }
}

/// A text without the separator is one piece.
pub proof fn lemma_split_one(s: Seq<char>, sep: char)
    requires
        !s.contains(sep),
    ensures
        split_on(s, sep) == seq![s],
    decreases s.len(),
{
    if s.len() > 0 {
        assert(s.contains(s.last()));
        assert forall|c: char| s.drop_last().contains(c) implies s.contains(c) by {
            let i = choose|i: int| 0 <= i < s.drop_last().len() && s.drop_last()[i] == c;
            assert(s[i] == c);
        }
        lemma_split_one(s.drop_last(), sep);
        assert(s.drop_last().push(s.last()) =~= s);
        assert(split_on(s, sep) =~= seq![s]);
    } else {
        assert(s =~= Seq::<char>::empty());
    }
}

/// What follows the last separator is the last piece.
pub proof fn lemma_split_last(before: Seq<char>, sep: char, piece: Seq<char>)
    requires
        !piece.contains(sep),
    ensures
        split_on(before.push(sep) + piece, sep) == split_on(before, sep).push(piece),
    decreases piece.len(),
{
    let s = before.push(sep) + piece;
    if piece.len() > 0 {
        assert(piece.contains(piece.last()));
        assert forall|c: char| piece.drop_last().contains(c) implies piece.contains(c) by {
            let i = choose|i: int|
                0 <= i < piece.drop_last().len() && piece.drop_last()[i] == c;
            assert(piece[i] == c);
        }
        lemma_split_last(before, sep, piece.drop_last());
        assert(s.drop_last() =~= before.push(sep) + piece.drop_last());
        assert(s.last() == piece.last());
        assert(piece.drop_last().push(piece.last()) =~= piece);
        assert(split_on(before, sep).push(piece.drop_last()).drop_last() =~= split_on(
            before,
            sep,
        ));
    } else {
        assert(s.drop_last() =~= before);
        assert(s.last() == sep);
        assert(piece =~= Seq::<char>::empty());
    }
}

/// Splitting on a character that is no letter commutes with lowering.
pub proof fn lemma_split_ignores_case(s: Seq<char>, sep: char)
    requires
        !('a' <= sep && sep <= 'z'),
        !('A' <= sep && sep <= 'Z'),
    ensures
        split_on(ascii_lower(s), sep).len() == split_on(s, sep).len(),
        forall|i: int|
            0 <= i < split_on(s, sep).len() ==> #[trigger] split_on(ascii_lower(s), sep)[i]
                == ascii_lower(split_on(s, sep)[i]),
    decreases s.len(),
{
    if s.len() > 0 {
        let low = ascii_lower(s);
        assert(low.last() == lower_char(s.last()));
        assert(low.drop_last() =~= ascii_lower(s.drop_last()));
        lemma_split_ignores_case(s.drop_last(), sep);
        lemma_split_nonempty(s.drop_last(), sep);
        let before = split_on(s.drop_last(), sep);
        let low_before = split_on(low.drop_last(), sep);
        assert(low_before.last() == ascii_lower(before.last()));
        assert(ascii_lower(Seq::<char>::empty()) =~= Seq::<char>::empty());
        assert(low_before.last().push(lower_char(s.last())) =~= ascii_lower(
            before.last().push(s.last()),
        ));
        assert forall|i: int| 0 <= i < split_on(s, sep).len() implies #[trigger] split_on(
            low,
            sep,
        )[i] == ascii_lower(split_on(s, sep)[i]) by {
            if i < before.len() - 1 {
                assert(low_before[i] == ascii_lower(before[i]));
            }
        }
    } else {
        assert(ascii_lower(s) =~= s);
        assert(ascii_lower(Seq::<char>::empty()) =~= Seq::<char>::empty());
    }
}

/// The characters each of several texts is made of.
pub open spec fn char_pieces(pieces: Seq<Vec<char>>) -> Seq<Seq<char>> {
    pieces.map_values(|p: Vec<char>| p@)
}

/// The pieces of `s` between occurrences of `sep`; always at least one.
pub fn split(s: &[char], sep: char) -> (pieces: Vec<Vec<char>>)
    ensures
        char_pieces(pieces@) == split_on(s@, sep),
{
    let mut done: Vec<Vec<char>> = Vec::new();
    let mut current: Vec<char> = Vec::new();
    let mut i: usize = 0;
    assert(s@.take(0) =~= Seq::<char>::empty());
    assert(char_pieces(done@).push(current@) =~= split_on(s@.take(0), sep));
    while i < s.len()
        invariant
            i <= s@.len(),
            char_pieces(done@).push(current@) == split_on(s@.take(i as int), sep),
        decreases s@.len() - i,
    {
        let c = s[i];
        let ghost before = char_pieces(done@).push(current@);
        assert(s@.take(i + 1).drop_last() =~= s@.take(i as int));
        assert(s@.take(i + 1).last() == c);
        assert(before.drop_last() =~= char_pieces(done@));
        if c == sep {
            done.push(current);
            current = Vec::new();
            assert(char_pieces(done@) =~= before);
            assert(current@ =~= Seq::<char>::empty());
        } else {
            current.push(c);
        }
        i = i + 1;
    }
    assert(s@.take(s@.len() as int) =~= s@);
    let ghost all = char_pieces(done@).push(current@);
    done.push(current);
    assert(char_pieces(done@) =~= all);
    done
}

/// What the strings of a list say.
pub open spec fn texts(list: Seq<String>) -> Seq<Seq<char>> {
    list.map_values(|s: String| s@)
}

/// The texts of `list`, one after the other, with `sep` between two neighbours.
pub open spec fn joined(list: Seq<Seq<char>>, sep: Seq<char>) -> Seq<char>
    decreases list.len(),
{
    if list.len() == 0 {
        Seq::<char>::empty()
    } else if list.len() == 1 {
        list[0]
    } else {
        joined(list.drop_last(), sep) + sep + list.last()
    }
}

/// The texts of `list`, one after the other, with `sep` between two neighbours.
pub fn join(list: &Vec<String>, sep: &str) -> (r: String)
    ensures
        r@ == joined(texts(list@), sep@),
{
    let mut r = String::new();
    let mut i: usize = 0;
    let ghost all = texts(list@);
    while i < list.len()
        invariant
            i <= list.len(),
            all == texts(list@),
            r@ == joined(all.take(i as int), sep@),
        decreases list.len() - i,
    {
        assert(all.take(i + 1).drop_last() =~= all.take(i as int));
        if i > 0 {
            r.append(sep);
        }
        r.append(list[i].as_str());
        assert(all.take(i + 1).last() == list@[i as int]@);
        assert(r@ =~= joined(all.take(i + 1), sep@));
        i = i + 1;
    }
    assert(all.take(list.len() as int) =~= all);
    r
}

/// One more text makes what is joined longer by itself, and by a separator unless it is the
/// first.
pub proof fn lemma_joined_len(list: Seq<Seq<char>>, text: Seq<char>, sep: Seq<char>)
    ensures
        joined(list.push(text), sep).len() == joined(list, sep).len() + (if list.len() > 0 {
            sep.len()
        } else {
            0
        }) + text.len(),
{
    assert(list.push(text).drop_last() =~= list);
}

// --- numbers ---------------------------------------------------------------------

/// The decimal digit for `d`.
pub open spec fn digit(d: nat) -> char {
    ((0x30 + d) as u32) as char
}

/// `n` written in decimal, without leading zeros.
pub open spec fn decimal(n: nat) -> Seq<char>
    decreases n,
{
    if n < 10 {
        seq![digit(n)]
    } else {
        decimal(n / 10).push(digit(n % 10))
    }
}

/// `n` written in decimal, without leading zeros.
pub fn to_decimal(n: u64) -> (r: String)
    ensures
        r@ == decimal(n as nat),
    decreases n,
{
    let mut r = if n < 10 {
        String::new()
    } else {
        to_decimal(n / 10)
    };
    r.push((0x30 + (n % 10) as u8) as char);
    assert(r@ =~= decimal(n as nat));
    r
}

/// The value of a hexadecimal digit, of either case.
pub open spec fn hex_digit(c: char) -> Option<nat> {
    if '0' <= c && c <= '9' {
        Some((c as nat - '0' as nat) as nat)
    } else if 'a' <= c && c <= 'f' {
        Some((c as nat - 'a' as nat + 10) as nat)
    } else if 'A' <= c && c <= 'F' {
        Some((c as nat - 'A' as nat + 10) as nat)
    } else {
        None
    }
}

/// The number that a run of hexadecimal digits writes; none if another character occurs.
pub open spec fn hex_digits(s: Seq<char>) -> Option<nat>
    decreases s.len(),
{
    if s.len() == 0 {
        Some(0)
    } else {
        match (hex_digits(s.drop_last()), hex_digit(s.last())) {
            (Some(high), Some(low)) => Some(high * 16 + low),
            _ => None,
        }
    }
}

/// The number that `s` writes in hexadecimal, if it is at most `max`: one or more digits,
/// which a single plus sign may precede.
pub open spec fn hex_number(s: Seq<char>, max: nat) -> Option<nat> {
    let digits = if s.len() > 0 && s[0] == '+' {
        s.drop_first()
    } else {
        s
    };
    if digits.len() == 0 {
        None
    } else {
        match hex_digits(digits) {
            Some(n) => if n <= max {
                Some(n)
            } else {
                None
            },
            None => None,
        }
    }
}

/// The value of a hexadecimal digit, of either case.
fn from_hex_digit(c: char) -> (r: Option<u64>)
    ensures
        match r {
            Some(d) => hex_digit(c) == Some(d as nat) && d < 16,
            None => hex_digit(c) is None,
        },
{
    if '0' <= c && c <= '9' {
        Some(c as u64 - '0' as u64)
    } else if 'a' <= c && c <= 'f' {
        Some(c as u64 - 'a' as u64 + 10)
    } else if 'A' <= c && c <= 'F' {
        Some(c as u64 - 'A' as u64 + 10)
    } else {
        None
    }
}

/// More digits never make a number smaller.
proof fn lemma_hex_digits_grow(s: Seq<char>, i: int)
    requires
        0 <= i <= s.len(),
        hex_digits(s) is Some,
    ensures
        hex_digits(s.take(i)) is Some,
        hex_digits(s.take(i))->0 <= hex_digits(s)->0,
    decreases s.len() - i,
{
    if i < s.len() {
        lemma_hex_digits_grow(s, i + 1);
        assert(s.take(i + 1).drop_last() =~= s.take(i));
    } else {
        assert(s.take(i) =~= s);
    }
}

/// The number that `s` writes in hexadecimal, if it is at most `max`: one or more digits,
/// which a single plus sign may precede.
pub fn parse_hex(s: &[char], max: u32) -> (r: Option<u32>)
    ensures
        match r {
            Some(n) => hex_number(s@, max as nat) == Some(n as nat) && n <= max,
            None => hex_number(s@, max as nat) is None,
        },
{
    let from: usize = if s.len() > 0 && s[0] == '+' {
        1
    } else {
        0
    };
    let ghost digits = s@.skip(from as int);
    assert(from == 1 ==> digits =~= s@.drop_first());
    assert(from == 0 ==> digits =~= s@);
    if s.len() == from {
        return None;
    }
    let mut i: usize = from;
    let mut n: u64 = 0;
    assert(digits.take(0) =~= Seq::<char>::empty());
    while i < s.len()
        invariant
            from <= i <= s@.len(),
            digits == s@.skip(from as int),
            digits.len() > 0,
            hex_number(s@, max as nat) == match hex_digits(digits) {
                Some(v) => if v <= max {
                    Some(v)
                } else {
                    None
                },
                None => None::<nat>,
            },
            hex_digits(digits.take(i - from)) == Some(n as nat),
            n <= max,
        decreases s@.len() - i,
    {
        let ghost k = i - from;
        assert(digits.take(k + 1).drop_last() =~= digits.take(k));
        assert(digits.take(k + 1).last() == s@[i as int]);
        match from_hex_digit(s[i]) {
            Some(d) => {
                n = n * 16 + d;
            },
            None => {
                proof {
                    if hex_digits(digits) is Some {
                        lemma_hex_digits_grow(digits, k + 1);
                    }
                }
                return None;
            },
        }
        if n > max as u64 {
            proof {
                if hex_digits(digits) is Some {
                    lemma_hex_digits_grow(digits, k + 1);
                }
            }
            return None;
        }
        i = i + 1;
    }
    assert(digits.take(digits.len() as int) =~= digits);
    Some(n as u32)
}

/// A letter of either case is the same hexadecimal digit.
pub proof fn lemma_hex_number_ignores_case(s: Seq<char>, max: nat)
    ensures
        hex_number(ascii_lower(s), max) == hex_number(s, max),
{
    if s.len() > 0 {
        assert(ascii_lower(s)[0] == lower_char(s[0]));
    }
    if s.len() > 0 && s[0] == '+' {
        assert(ascii_lower(s).drop_first() =~= ascii_lower(s.drop_first()));
        lemma_hex_digits_ignore_case(s.drop_first());
    } else {
        lemma_hex_digits_ignore_case(s);
    }
}

proof fn lemma_hex_digits_ignore_case(s: Seq<char>)
    ensures
        hex_digits(ascii_lower(s)) == hex_digits(s),
    decreases s.len(),
{
    if s.len() > 0 {
        assert(ascii_lower(s).drop_last() =~= ascii_lower(s.drop_last()));
        assert(ascii_lower(s).last() == lower_char(s.last()));
        assert(hex_digit(lower_char(s.last())) == hex_digit(s.last()));
        lemma_hex_digits_ignore_case(s.drop_last());
    }
}

// --- encodings -------------------------------------------------------------------

/// The text that UTF-16 code units spell; a surrogate without its partner reads as U+FFFD.
pub open spec fn utf16_lossy(units: Seq<u16>) -> Seq<char>
    decreases units.len(),
{
    if units.len() == 0 {
        Seq::<char>::empty()
    } else {
        let unit = units[0] as int;
        if unit < 0xd800 || 0xdfff < unit {
            seq![unit as char] + utf16_lossy(units.skip(1))
        } else if unit < 0xdc00 && units.len() > 1 && 0xdc00 <= units[1] <= 0xdfff {
            seq![(0x10000 + (unit - 0xd800) * 0x400 + (units[1] - 0xdc00)) as char] + utf16_lossy(
                units.skip(2),
            )
        } else {
            seq!['\u{fffd}'] + utf16_lossy(units.skip(1))
        }
    }
}

/// `String::from_utf16_lossy`: decodes UTF-16, with U+FFFD for each unpaired surrogate.
pub assume_specification[ String::from_utf16_lossy ](v: &[u16]) -> (r: String)
    ensures
        r@ == utf16_lossy(v@),
;

/// What `String::from_utf8_lossy` reads in `bytes`.
pub uninterp spec fn utf8_lossy(bytes: Seq<u8>) -> Seq<char>;

/// `String::from_utf8_lossy`: decodes UTF-8, with U+FFFD in place of what is not UTF-8. The
/// contract names the result, and says that valid UTF-8 is read as what it encodes.
#[verifier::external_body]
pub(crate) fn from_utf8_lossy(bytes: &[u8]) -> (r: String)
    ensures
        r@ == utf8_lossy(bytes@),
        vstd::utf8::valid_utf8(bytes@) ==> r@ == vstd::utf8::decode_utf8(bytes@),
{
    String::from_utf8_lossy(bytes).into_owned()
}

/// The units before the first zero, or all of them.
pub open spec fn up_to_nul(units: Seq<u16>) -> Seq<u16>
    decreases units.len(),
{
    if units.len() == 0 || units[0] == 0 {
        Seq::<u16>::empty()
    } else {
        seq![units[0]] + up_to_nul(units.skip(1))
    }
}

/// Convert a fixed-size, NUL-padded UTF-16 buffer into a `String`.
pub fn wide_to_string(buf: &[u16]) -> (r: String)
    ensures
        r@ == utf16_lossy(up_to_nul(buf@)),
{
    let mut len: usize = 0;
    assert(buf@.skip(0) =~= buf@);
    assert(buf@.take(0) + up_to_nul(buf@.skip(0)) =~= up_to_nul(buf@));
    while len < buf.len() && buf[len] != 0
        invariant
            len <= buf@.len(),
            up_to_nul(buf@) == buf@.take(len as int) + up_to_nul(buf@.skip(len as int)),
        decreases buf@.len() - len,
    {
        assert(buf@.skip(len as int).skip(1) =~= buf@.skip(len + 1));
        assert(buf@.take(len as int) + (seq![buf@[len as int]] + up_to_nul(buf@.skip(len + 1)))
            =~= buf@.take(len + 1) + up_to_nul(buf@.skip(len + 1)));
        len = len + 1;
    }
    assert(up_to_nul(buf@) =~= buf@.subrange(0, len as int));
    let text = vstd::slice::slice_subrange(buf, 0, len);
    String::from_utf16_lossy(text)
}

// --- laws ------------------------------------------------------------------------

/// Lowering changes the ASCII capitals and nothing else: each becomes the small letter at the
/// same place of the alphabet.
pub proof fn law_lowering_changes_capitals_only(s: Seq<char>, i: int)
    requires
        0 <= i < s.len(),
    ensures
        ascii_lower(s).len() == s.len(),
        'A' <= s[i] && s[i] <= 'Z' ==> ascii_lower(s)[i] as int - 'a' as int == s[i] as int
            - 'A' as int,
        !('A' <= s[i] && s[i] <= 'Z') ==> ascii_lower(s)[i] == s[i],
{
}

/// Trimming takes off the white space around a text, all of it, and nothing else.
pub proof fn law_trimming_takes_off_what_is_around(
    front: Seq<char>,
    s: Seq<char>,
    back: Seq<char>,
)
    requires
        forall|i: int| 0 <= i < front.len() ==> is_white_space(#[trigger] front[i]),
        forall|i: int| 0 <= i < back.len() ==> is_white_space(#[trigger] back[i]),
        s.len() > 0 ==> !is_white_space(s.first()) && !is_white_space(s.last()),
    ensures
        trimmed(front + s + back) == s,
{
    let ws = |c: char| is_white_space(c);
    assert(front + s + back =~= front + (s + back));
    assert forall|i: int| 0 <= i < front.len() implies ws(#[trigger] front[i]) by {}
    assert forall|i: int| 0 <= i < back.len() implies ws(#[trigger] back[i]) by {}
    lemma_trim_start_of_blanks(front, s + back, ws);
    if s.len() > 0 {
        assert((s + back).first() == s.first());
        assert(trim_start_by(s + back, ws) == s + back);
        lemma_trim_end_of_blanks(s, back, ws);
        assert(trim_end_by(s, ws) == s);
    } else {
        let none = Seq::<char>::empty();
        assert(s + back =~= back + none);
        lemma_trim_start_of_blanks(back, none, ws);
        assert(trim_start_by(none, ws) =~= none);
        assert(trim_end_by(none, ws) =~= s);
    }
}

/// What is dropped at the front makes no difference.
proof fn lemma_trim_start_of_blanks(
    front: Seq<char>,
    rest: Seq<char>,
    drop: spec_fn(char) -> bool,
)
    requires
        forall|i: int| 0 <= i < front.len() ==> drop(#[trigger] front[i]),
    ensures
        trim_start_by(front + rest, drop) == trim_start_by(rest, drop),
    decreases front.len(),
{
    if front.len() > 0 {
        let less = front.drop_first();
        assert(drop(front[0]));
        assert((front + rest).first() == front[0]);
        assert((front + rest).drop_first() =~= less + rest);
        assert forall|i: int| 0 <= i < less.len() implies drop(#[trigger] less[i]) by {
            assert(less[i] == front[i + 1]);
        }
        lemma_trim_start_of_blanks(less, rest, drop);
    } else {
        assert(front + rest =~= rest);
    }
}

/// What is dropped at the end makes no difference.
proof fn lemma_trim_end_of_blanks(s: Seq<char>, back: Seq<char>, drop: spec_fn(char) -> bool)
    requires
        forall|i: int| 0 <= i < back.len() ==> drop(#[trigger] back[i]),
    ensures
        trim_end_by(s + back, drop) == trim_end_by(s, drop),
    decreases back.len(),
{
    if back.len() > 0 {
        let less = back.drop_last();
        assert(drop(back[back.len() - 1]));
        assert((s + back).last() == back[back.len() - 1]);
        assert((s + back).drop_last() =~= s + less);
        assert forall|i: int| 0 <= i < less.len() implies drop(#[trigger] less[i]) by {
            assert(less[i] == back[i]);
        }
        lemma_trim_end_of_blanks(s, less, drop);
    } else {
        assert(s + back =~= s);
    }
}

/// White space around a text, and the case of its letters, make no difference to what it
/// reads like.
pub proof fn law_blanks_and_case_make_no_difference(
    front: Seq<char>,
    word: Seq<char>,
    back: Seq<char>,
    name: Seq<char>,
)
    requires
        forall|i: int| 0 <= i < front.len() ==> is_white_space(#[trigger] front[i]),
        forall|i: int| 0 <= i < back.len() ==> is_white_space(#[trigger] back[i]),
        word.len() > 0 ==> !is_white_space(word.first()) && !is_white_space(word.last()),
    ensures
        reads_like(front + word + back, name) <==> {
            &&& word.len() == name.len()
            &&& forall|i: int|
                0 <= i < word.len() ==> lower_char(#[trigger] word[i]) == lower_char(name[i])
        },
{
    law_trimming_takes_off_what_is_around(front, word, back);
    if reads_like(front + word + back, name) {
        assert(ascii_lower(word).len() == word.len());
        assert(ascii_lower(name).len() == name.len());
        assert forall|i: int| 0 <= i < word.len() implies lower_char(#[trigger] word[i])
            == lower_char(name[i]) by {
            assert(ascii_lower(word)[i] == ascii_lower(name)[i]);
        }
    }
    if word.len() == name.len() && forall|i: int|
        0 <= i < word.len() ==> lower_char(#[trigger] word[i]) == lower_char(name[i]) {
        assert(ascii_lower(word) =~= ascii_lower(name));
    }
}

/// The number that decimal digits write.
pub open spec fn decimal_value(s: Seq<char>) -> int
    decreases s.len(),
{
    if s.len() == 0 {
        0
    } else {
        decimal_value(s.drop_last()) * 10 + (s.last() as int - '0' as int)
    }
}

/// A number in decimal reads back as that number; it is made of digits, and has no leading
/// zero, but for zero itself.
pub proof fn law_a_decimal_reads_back(n: nat)
    ensures
        decimal_value(decimal(n)) == n,
        decimal(n).len() > 0,
        decimal(n).len() > 1 ==> decimal(n)[0] != '0',
        decimal(n).len() == 1 <==> n < 10,
        forall|i: int|
            0 <= i < decimal(n).len() ==> '0' <= #[trigger] decimal(n)[i] && decimal(n)[i] <= '9',
    decreases n,
{
    if n < 10 {
        assert(decimal(n).drop_last() =~= Seq::<char>::empty());
        assert(decimal_value(decimal(n).drop_last()) == 0);
    } else {
        law_a_decimal_reads_back(n / 10);
        assert(decimal(n).drop_last() =~= decimal(n / 10));
        if n / 10 < 10 {
            assert(decimal(n / 10)[0] == digit(n / 10));
        }
    }
}

/// Different numbers read differently.
pub proof fn law_decimals_are_not_confused(a: nat, b: nat)
    requires
        decimal(a) == decimal(b),
    ensures
        a == b,
{
    law_a_decimal_reads_back(a);
    law_a_decimal_reads_back(b);
}

/// The small hexadecimal digit for `d`.
pub open spec fn hex_char(d: nat) -> char {
    if d < 10 {
        ((0x30 + d) as u32) as char
    } else {
        ((0x61 + d - 10) as u32) as char
    }
}

/// `n` written in hexadecimal, in `width` digits.
pub open spec fn hexadecimal(n: nat, width: nat) -> Seq<char>
    decreases width,
{
    if width == 0 {
        Seq::empty()
    } else {
        hexadecimal(n / 16, (width - 1) as nat).push(hex_char(n % 16))
    }
}

/// The greatest number that `width` hexadecimal digits can write, and one more.
pub open spec fn hex_limit(width: nat) -> nat
    decreases width,
{
    if width == 0 {
        1
    } else {
        16 * hex_limit((width - 1) as nat)
    }
}

/// A number written in hexadecimal reads back as that number, if it is not too great; so it
/// does behind a plus sign.
pub proof fn law_a_hexadecimal_number_reads_back(n: nat, width: nat, max: nat)
    requires
        0 < width,
        n < hex_limit(width),
    ensures
        hex_number(hexadecimal(n, width), max) == if n <= max {
            Some(n)
        } else {
            None
        },
        hex_number(seq!['+'] + hexadecimal(n, width), max) == hex_number(
            hexadecimal(n, width),
            max,
        ),
        hexadecimal(n, width).len() == width,
{
    lemma_hexadecimal(n, width);
    let s = hexadecimal(n, width);
    assert((seq!['+'] + s).drop_first() =~= s);
    assert(s[0] != '+');
}

pub(crate) proof fn lemma_hexadecimal(n: nat, width: nat)
    requires
        n < hex_limit(width),
    ensures
        hex_digits(hexadecimal(n, width)) == Some(n),
        hexadecimal(n, width).len() == width,
        forall|i: int|
            0 <= i < width ==> hex_digit(#[trigger] hexadecimal(n, width)[i]) is Some,
    decreases width,
{
    if width > 0 {
        let less = (width - 1) as nat;
        lemma_hexadecimal(n / 16, less);
        let s = hexadecimal(n, width);
        assert(s.drop_last() =~= hexadecimal(n / 16, less));
        assert(hex_digit(hex_char(n % 16)) == Some(n % 16));
        assert forall|i: int| 0 <= i < width implies hex_digit(#[trigger] s[i]) is Some by {
            if i < less {
                assert(s[i] == hexadecimal(n / 16, less)[i]);
            }
        }
    }
}

/// No text but one of hexadecimal digits, with at most a plus sign before them, writes a
/// hexadecimal number.
pub proof fn law_only_hexadecimal_digits_make_a_number(s: Seq<char>, max: nat, i: int)
    requires
        0 <= i < s.len(),
        !('0' <= s[i] && s[i] <= '9'),
        !('a' <= s[i] && s[i] <= 'f'),
        !('A' <= s[i] && s[i] <= 'F'),
        i > 0 || s[i] != '+' || s.len() == 1,
    ensures
        hex_number(s, max) is None,
{
    if s[0] == '+' {
        if i > 0 {
            assert(s.drop_first()[i - 1] == s[i]);
            lemma_hex_digits_refuse(s.drop_first(), i - 1);
        }
    } else {
        lemma_hex_digits_refuse(s, i);
    }
}

proof fn lemma_hex_digits_refuse(s: Seq<char>, i: int)
    requires
        0 <= i < s.len(),
        hex_digit(s[i]) is None,
    ensures
        hex_digits(s) is None,
    decreases s.len(),
{
    if i < s.len() - 1 {
        assert(s.drop_last()[i] == s[i]);
        lemma_hex_digits_refuse(s.drop_last(), i);
    }
}

/// Splitting undoes joining, as long as no piece holds the separator.
pub proof fn law_splitting_undoes_joining(list: Seq<Seq<char>>, sep: char)
    requires
        list.len() > 0,
        forall|i: int| 0 <= i < list.len() ==> !(#[trigger] list[i]).contains(sep),
    ensures
        split_on(joined(list, seq![sep]), sep) == list,
    decreases list.len(),
{
    if list.len() == 1 {
        assert(!list[0].contains(sep));
        lemma_split_one(list[0], sep);
        assert(list =~= seq![list[0]]);
    } else {
        let rest = list.drop_last();
        let before = joined(rest, seq![sep]);
        assert forall|i: int| 0 <= i < rest.len() implies !(#[trigger] rest[i]).contains(sep) by {
            assert(rest[i] == list[i]);
        }
        law_splitting_undoes_joining(rest, sep);
        assert(!list[list.len() - 1].contains(sep));
        assert(joined(list, seq![sep]) =~= before.push(sep) + list.last());
        lemma_split_last(before, sep, list.last());
        assert(rest.push(list.last()) =~= list);
    }
}

/// A text that is put behind others follows them and one separator, whatever they are.
pub proof fn law_joining_keeps_every_text(
    before: Seq<Seq<char>>,
    text: Seq<char>,
    sep: Seq<char>,
)
    ensures
        before.len() == 0 ==> joined(before.push(text), sep) == text,
        before.len() > 0 ==> joined(before.push(text), sep) == joined(before, sep) + sep + text,
{
    assert(before.push(text).drop_last() =~= before);
}

/// What counts of a padded buffer are the units before the first zero.
pub proof fn law_a_buffer_ends_at_its_first_zero(units: Seq<u16>)
    ensures
        up_to_nul(units).len() <= units.len(),
        up_to_nul(units) == units.take(up_to_nul(units).len() as int),
        !up_to_nul(units).contains(0),
        up_to_nul(units).len() < units.len() ==> units[up_to_nul(units).len() as int] == 0,
    decreases units.len(),
{
    if units.len() > 0 && units[0] != 0 {
        let rest = units.skip(1);
        law_a_buffer_ends_at_its_first_zero(rest);
        let kept = up_to_nul(rest);
        assert(up_to_nul(units) =~= units.take(kept.len() as int + 1)) by {
            assert forall|i: int| 0 <= i < kept.len() implies #[trigger] kept[i] == units[i
                + 1] by {
                assert(rest.take(kept.len() as int)[i] == rest[i]);
            }
        }
        if up_to_nul(units).contains(0) {
            let i = choose|i: int| 0 <= i < up_to_nul(units).len() && up_to_nul(units)[i] == 0;
            assert(kept[i - 1] == 0);
            assert(kept.contains(0));
        }
    }
}

/// A text has a prefix if and only if it is that prefix and something behind it.
pub proof fn law_a_prefix_is_what_comes_first(s: Seq<char>, prefix: Seq<char>, rest: Seq<char>)
    ensures
        has_prefix(prefix + rest, prefix),
        has_prefix(s, prefix) ==> s == prefix + s.skip(prefix.len() as int),
{
    assert((prefix + rest).take(prefix.len() as int) =~= prefix);
    if has_prefix(s, prefix) {
        assert(s =~= s.take(prefix.len() as int) + s.skip(prefix.len() as int));
    }
}

/// The first difference decides which of two texts comes first, and where there is none the
/// shorter one does.
pub proof fn law_the_first_difference_decides(
    common: Seq<char>,
    x: char,
    a: Seq<char>,
    y: char,
    b: Seq<char>,
)
    requires
        x != y,
    ensures
        text_before(common + seq![x] + a, common + seq![y] + b) <==> x < y,
        text_before(common, common + seq![y] + b),
        !text_before(common + seq![x] + a, common),
    decreases common.len(),
{
    let s = common + seq![x] + a;
    let t = common + seq![y] + b;
    if common.len() > 0 {
        let less = common.drop_first();
        law_the_first_difference_decides(less, x, a, y, b);
        assert(s.drop_first() =~= less + seq![x] + a);
        assert(t.drop_first() =~= less + seq![y] + b);
        assert(s[0] == common[0] && t[0] == common[0]);
    } else {
        assert(s[0] == x && t[0] == y);
    }
}

/// A text without capitals is its own lower case.
pub proof fn lemma_small_letters_stay(s: Seq<char>)
    requires
        forall|i: int| 0 <= i < s.len() ==> !('A' <= #[trigger] s[i] && s[i] <= 'Z'),
    ensures
        ascii_lower(s) == s,
{
    assert(ascii_lower(s) =~= s);
}

} // verus!
