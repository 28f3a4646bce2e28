//! Small text helpers with exact contracts.
use vstd::prelude::*;
use vstd::std_specs::iter::IteratorSpec;

verus! {

/// Whether two texts are equal.
pub fn same_text(a: &str, b: &str) -> (r: bool)
    ensures
        r == (a@ == b@),
{
    let x = a.to_owned();
    let y = b.to_owned();
    x.eq(&y)
}

/// `dir` followed by `name`, with one `/` between them unless `dir` is
/// empty or already ends with one.
pub open spec fn joined(dir: Seq<char>, name: Seq<char>) -> Seq<char> {
    if dir.len() == 0 {
        name
    } else if dir.last() == '/' {
        dir + name
    } else {
        dir + seq!['/'] + name
    }
}

pub fn join_path(dir: &str, name: &str) -> (r: String)
    ensures
        r@ == joined(dir@, name@),
{
    let n = dir.unicode_len();
    if n == 0 {
        return name.to_owned();
    }
    let base = dir.to_owned();
    if dir.get_char(n - 1) == '/' {
        base.concat(name)
    } else {
        proof {
            reveal_strlit("/");
        }
        let with_sep = base.concat("/");
        with_sep.concat(name)
    }
}

/// Concatenation of two texts.
pub fn concat2(a: &str, b: &str) -> (r: String)
    ensures
        r@ == a@ + b@,
{
    a.to_owned().concat(b)
}

/// Whether `needle` occurs in `hay` as a contiguous run.
pub open spec fn occurs_in(needle: Seq<char>, hay: Seq<char>) -> bool {
    exists|i: int| 0 <= i && i + needle.len() <= hay.len() && #[trigger] hay.subrange(i, i + needle.len()) == needle
}

/// Whether `needle` occurs in `hay`.
pub fn contains_text(hay: &str, needle: &str) -> (r: bool)
    ensures
        r == occurs_in(needle@, hay@),
{
    let n = hay.unicode_len();
    let m = needle.unicode_len();
    if m > n {
        proof {
            assert forall|i: int| 0 <= i && i + needle@.len() <= hay@.len() implies #[trigger] hay@.subrange(i, i + needle@.len()) != needle@ by {}
        }
        return false;
    }
    if m == 0 {
        proof {
            let z: int = 0;
            assert(hay@.subrange(z, z + needle@.len()) =~= needle@);
        }
        return true;
    }
    let mut i: usize = 0;
    while i <= n - m
        invariant
            n == hay@.len(),
            m == needle@.len(),
            1 <= m <= n,
            i <= n - m + 1,
            forall|j: int| 0 <= j < i ==> #[trigger] hay@.subrange(j, j + m) != needle@,
        decreases n - i,
    {
        let part = hay.substring_char(i, i + m);
        if same_text(part, needle) {
            proof {
                let w: int = i as int;
                assert(hay@.subrange(w, w + needle@.len()) == needle@);
            }
            return true;
        }
        i = i + 1;
    }
    proof {
        assert forall|j: int| 0 <= j && j + needle@.len() <= hay@.len() implies #[trigger] hay@.subrange(j, j + needle@.len()) != needle@ by {}
    }
    false
}

/// The lower-case form of a text, as `str::to_lowercase` gives it.
pub uninterp spec fn lower_of(s: Seq<char>) -> Seq<char>;

/// Relies on `str::to_lowercase`: the lower-case mapping of each character,
/// a function of the text alone.
#[verifier::external_body]
pub(crate) fn to_lower(s: &str) -> (r: String)
    ensures
        r@ == lower_of(s@),
{
    s.to_lowercase()
}

/// ASCII-only lower-casing of one character.
pub open spec fn ascii_lower(c: char) -> char {
    if 'A' <= c && c <= 'Z' {
        ((c as u32) + 32) as char
    } else {
        c
    }
}

/// Equality of two texts when ASCII letters are compared without case.
pub open spec fn eq_ignoring_ascii_case(a: Seq<char>, b: Seq<char>) -> bool {
    &&& a.len() == b.len()
    &&& forall|i: int| 0 <= i < a.len() ==> ascii_lower(#[trigger] a[i]) == ascii_lower(b[i])
}

fn lower_ascii_char(c: char) -> (r: char)
    ensures
        r == ascii_lower(c),
{
    if 'A' <= c && c <= 'Z' {
        let u = (c as u32) + 32;
        proof {
            assert(0x61 <= u <= 0x7a);
        }
        char_from_ascii(u)
    } else {
        c
    }
}

fn char_from_ascii(u: u32) -> (r: char)
    requires
        u < 128,
    ensures
        r == u as char,
{
    (u as u8) as char
}

/// Whether two texts are equal ignoring the case of ASCII letters.
pub fn eq_ignore_ascii_case(a: &str, b: &str) -> (r: bool)
    ensures
        r == eq_ignoring_ascii_case(a@, b@),
{
    let n = a.unicode_len();
    if n != b.unicode_len() {
        return false;
    }
    let mut i: usize = 0;
    while i < n
        invariant
            n == a@.len(),
            n == b@.len(),
            i <= n,
            forall|j: int| 0 <= j < i ==> ascii_lower(#[trigger] a@[j]) == ascii_lower(b@[j]),
        decreases n - i,
    {
        if lower_ascii_char(a.get_char(i)) != lower_ascii_char(b.get_char(i)) {
            return false;
        }
        i = i + 1;
    }
    true
}

/// The characters of a text.
pub fn chars_of(s: &str) -> (r: Vec<char>)
    ensures
        r@ == s@,
{
    let n = s.unicode_len();
    let mut it = s.chars();
    let mut r: Vec<char> = Vec::new();
    let mut i: usize = 0;
    proof {
        vstd::string::axiom_spec_iter(s);
    }
    while i < n
        invariant
            n == s@.len(),
            i <= n,
            r@ == s@.subrange(0, i as int),
            it.remaining() == s@.subrange(i as int, n as int),
            it.obeys_prophetic_iter_laws(),
        decreases n - i,
    {
        let c = it.next();
        proof {
            assert(it.remaining() =~= s@.subrange(i + 1, n as int));
        }
        match c {
            Some(ch) => {
                r.push(ch);
                proof {
                    assert(r@ =~= s@.subrange(0, i + 1));
                }
            },
            None => {},
        }
        i = i + 1;
    }
    proof {
        assert(r@ =~= s@);
    }
    r
}

/// Relies on `String::push`: the character is appended at the end.
#[verifier::external_body]
pub(crate) fn push_char(s: &mut String, c: char)
    ensures
        final(s)@ == old(s)@.push(c),
{
    s.push(c)
}

/// A text made of the characters `cs[from..to]`.
pub fn text_of(cs: &Vec<char>, from: usize, to: usize) -> (r: String)
    requires
        from <= to <= cs@.len(),
    ensures
        r@ == cs@.subrange(from as int, to as int),
{
    let mut r = String::new();
    let mut i = from;
    while i < to
        invariant
            from <= i <= to,
            to <= cs@.len(),
            r@ == cs@.subrange(from as int, i as int),
        decreases to - i,
    {
        push_char(&mut r, cs[i]);
        proof {
            assert(r@ =~= cs@.subrange(from as int, i + 1));
        }
        i = i + 1;
    }
    r
}

/// What separates the pieces of a split.
#[derive(Clone, Copy, Debug, PartialEq, Eq, Structural)]
pub enum Separator {
    /// One given character.
    Char(char),
    /// Any character with the Unicode `White_Space` property, as
    /// `char::is_whitespace` decides it.
    Whitespace,
}

/// The characters with the Unicode `White_Space` property.
pub open spec fn is_white(c: char) -> bool {
    ('\u{9}' <= c && c <= '\u{d}') || c == ' ' || c == '\u{85}' || c == '\u{a0}' || c == '\u{1680}'
        || ('\u{2000}' <= c && c <= '\u{200a}') || c == '\u{2028}' || c == '\u{2029}' || c == '\u{202f}'
        || c == '\u{205f}' || c == '\u{3000}'
}

pub open spec fn separates(sep: Separator, c: char) -> bool {
    match sep {
        Separator::Char(x) => c == x,
        Separator::Whitespace => is_white(c),
    }
}

pub fn is_whitespace(c: char) -> (r: bool)
    ensures
        r == is_white(c),
{
    ('\u{9}' <= c && c <= '\u{d}') || c == ' ' || c == '\u{85}' || c == '\u{a0}' || c == '\u{1680}'
        || ('\u{2000}' <= c && c <= '\u{200a}') || c == '\u{2028}' || c == '\u{2029}' || c == '\u{202f}'
        || c == '\u{205f}' || c == '\u{3000}'
}

fn separates_exec(sep: Separator, c: char) -> (r: bool)
    ensures
        r == separates(sep, c),
{
    match sep {
        Separator::Char(x) => c == x,
        Separator::Whitespace => is_whitespace(c),
    }
}

/// The pieces of `s` between separators (at least one piece).
pub open spec fn split_on(s: Seq<char>, sep: Separator) -> Seq<Seq<char>>
    decreases s.len(),
{
    if s.len() == 0 {
        seq![Seq::<char>::empty()]
    } else {
        let rest = split_on(s.drop_last(), sep);
        if separates(sep, s.last()) {
            rest.push(Seq::<char>::empty())
        } else {
            rest.update(rest.len() - 1, rest.last().push(s.last()))
        }
    }
}

proof fn lemma_split_on_nonempty(s: Seq<char>, sep: Separator)
    ensures
        split_on(s, sep).len() >= 1,
    decreases s.len(),
{
    if s.len() > 0 {
        lemma_split_on_nonempty(s.drop_last(), sep);
    }
}

/// Splits `cs` at every separator.
pub fn split_chars(cs: &Vec<char>, sep: Separator) -> (r: Vec<String>)
    ensures
        r@.len() == split_on(cs@, sep).len(),
        forall|i: int| 0 <= i < r@.len() ==> (#[trigger] r@[i])@ == split_on(cs@, sep)[i],
{
    let mut r: Vec<String> = Vec::new();
    let mut start: usize = 0;
    let mut i: usize = 0;
    while i < cs.len()
        invariant
            start <= i <= cs@.len(),
            r@.len() + 1 == split_on(cs@.subrange(0, i as int), sep).len(),
            forall|j: int| 0 <= j < r@.len() ==> (#[trigger] r@[j])@ == split_on(cs@.subrange(0, i as int), sep)[j],
            split_on(cs@.subrange(0, i as int), sep).last() == cs@.subrange(start as int, i as int),
        decreases cs@.len() - i,
    {
        proof {
            assert(cs@.subrange(0, i + 1).drop_last() =~= cs@.subrange(0, i as int));
            lemma_split_on_nonempty(cs@.subrange(0, i as int), sep);
        }
        if separates_exec(sep, cs[i]) {
            let piece = text_of(cs, start, i);
            r.push(piece);
            start = i + 1;
            proof {
                assert(cs@.subrange(start as int, i + 1) =~= Seq::<char>::empty());
            }
        } else {
            proof {
                assert(cs@.subrange(start as int, i + 1) =~= cs@.subrange(start as int, i as int).push(cs@[i as int]));
            }
        }
        i = i + 1;
    }
    let last = text_of(cs, start, i);
    r.push(last);
    proof {
        assert(cs@.subrange(0, i as int) =~= cs@);
        lemma_split_on_nonempty(cs@, sep);
    }
    r
}

pub open spec fn nonempty() -> spec_fn(Seq<char>) -> bool {
    |p: Seq<char>| p.len() > 0
}

/// The words of `s` as `str::split_whitespace` yields them.
pub open spec fn words_of(s: Seq<char>) -> Seq<Seq<char>> {
    split_on(s, Separator::Whitespace).filter(nonempty())
}

/// The words of `s` (see `words_of`).
pub fn words(s: &str) -> (r: Vec<String>)
    ensures
        r@.len() == words_of(s@).len(),
        forall|i: int| 0 <= i < r@.len() ==> (#[trigger] r@[i])@ == words_of(s@)[i],
{
    let cs = chars_of(s);
    let pieces = split_chars(&cs, Separator::Whitespace);
    let ghost ps = split_on(s@, Separator::Whitespace);
    let mut r: Vec<String> = Vec::new();
    let mut i: usize = 0;
    while i < pieces.len()
        invariant
            i <= pieces@.len(),
            pieces@.len() == ps.len(),
            forall|j: int| 0 <= j < pieces@.len() ==> (#[trigger] pieces@[j])@ == ps[j],
            r@.len() == ps.subrange(0, i as int).filter(nonempty()).len(),
            forall|j: int| 0 <= j < r@.len() ==> (#[trigger] r@[j])@ == ps.subrange(0, i as int).filter(nonempty())[j],
        decreases pieces@.len() - i,
    {
        proof {
            assert(ps.subrange(0, i + 1).drop_last() =~= ps.subrange(0, i as int));
            reveal(Seq::filter);
        }
        if pieces[i].as_str().unicode_len() > 0 {
            r.push(pieces[i].clone());
        }
        i = i + 1;
    }
    proof {
        assert(ps.subrange(0, i as int) =~= ps);
    }
    r
}

/// `s` without one trailing carriage return.
pub open spec fn without_cr(s: Seq<char>) -> Seq<char> {
    if s.len() > 0 && s.last() == '\r' {
        s.drop_last()
    } else {
        s
    }
}

/// The lines of a text as `str::lines` yields them: split at `\n`, without
/// a final empty line, each without a trailing `\r`.
pub open spec fn lines_of(s: Seq<char>) -> Seq<Seq<char>> {
    let pieces = split_on(s, Separator::Char('\n'));
    let kept = if s.len() == 0 || s.last() == '\n' {
        pieces.drop_last()
    } else {
        pieces
    };
    kept.map_values(|p: Seq<char>| without_cr(p))
}

fn drop_cr(t: String) -> (r: String)
    ensures
        r@ == without_cr(t@),
{
    let cs = chars_of(t.as_str());
    let n = cs.len();
    if n > 0 && cs[n - 1] == '\r' {
        text_of(&cs, 0, n - 1)
    } else {
        t
    }
}

/// The lines of `s` (see `lines_of`).
pub fn lines(s: &str) -> (r: Vec<String>)
    ensures
        r@.len() == lines_of(s@).len(),
        forall|i: int| 0 <= i < r@.len() ==> (#[trigger] r@[i])@ == lines_of(s@)[i],
{
    let cs = chars_of(s);
    let mut pieces = split_chars(&cs, Separator::Char('\n'));
    proof {
        lemma_split_on_nonempty(s@, Separator::Char('\n'));
    }
    let n = cs.len();
    if n == 0 || cs[n - 1] == '\n' {
        pieces.pop();
    }
    let ghost kept = pieces@;
    let mut r: Vec<String> = Vec::new();
    let mut i: usize = 0;
    while i < pieces.len()
        invariant
            i <= pieces@.len(),
            pieces@ == kept,
            kept.len() == lines_of(s@).len(),
            forall|j: int| 0 <= j < kept.len() ==> without_cr((#[trigger] kept[j])@) == lines_of(s@)[j],
            r@.len() == i,
            forall|j: int| 0 <= j < i ==> (#[trigger] r@[j])@ == lines_of(s@)[j],
        decreases pieces@.len() - i,
    {
        let t = pieces[i].clone();
        r.push(drop_cr(t));
        i = i + 1;
    }
    r
}

pub open spec fn is_digit(c: char) -> bool {
    '0' <= c && c <= '9'
}

pub open spec fn all_digits(s: Seq<char>) -> bool {
    forall|i: int| 0 <= i < s.len() ==> is_digit(#[trigger] s[i])
}

/// The value of a run of decimal digits.
pub open spec fn digits_value(s: Seq<char>) -> nat
    decreases s.len(),
{
    if s.len() == 0 {
        0
    } else {
        digits_value(s.drop_last()) * 10 + ((s.last() as u32) - ('0' as u32)) as nat
    }
}

/// `s` without one leading `+`.
pub open spec fn without_plus(s: Seq<char>) -> Seq<char> {
    if s.len() > 0 && s[0] == '+' {
        s.subrange(1, s.len() as int)
    } else {
        s
    }
}

/// The value of one or more decimal digits, when it fits in `u32`.
pub open spec fn digits_u32(d: Seq<char>) -> Option<u32> {
    if d.len() > 0 && all_digits(d) && digits_value(d) <= u32::MAX {
        Some(digits_value(d) as u32)
    } else {
        None
    }
}

/// What `str::parse::<u32>` gives: an optional `+`, then one or more
/// decimal digits whose value fits in `u32`.
pub open spec fn parsed_u32(s: Seq<char>) -> Option<u32> {
    digits_u32(without_plus(s))
}

proof fn lemma_digits_value_grows(s: Seq<char>, i: int)
    requires
        0 <= i <= s.len(),
        all_digits(s),
    ensures
        digits_value(s.subrange(0, i)) <= digits_value(s),
    decreases s.len() - i,
{
    if i < s.len() {
        lemma_digits_value_grows(s, i + 1);
        assert(s.subrange(0, i + 1).drop_last() =~= s.subrange(0, i));
    } else {
        assert(s.subrange(0, i) =~= s);
    }
}

/// Parses a decimal `u32` (see `parsed_u32`).
pub fn parse_u32(s: &str) -> (r: Option<u32>)
    ensures
        r == parsed_u32(s@),
{
    let cs = chars_of(s);
    let n = cs.len();
    let start: usize = if n > 0 && cs[0] == '+' {
        1
    } else {
        0
    };
    let ghost d = cs@.subrange(start as int, n as int);
    proof {
        assert(start == 1 ==> d =~= s@.subrange(1, s@.len() as int));
        assert(start == 0 ==> d =~= s@);
        assert(without_plus(s@) == d);
    }
    if start == n {
        return None;
    }
    let mut acc: u64 = 0;
    let mut i: usize = start;
    while i < n
        invariant
            start <= i <= n,
            n == cs@.len(),
            d == cs@.subrange(start as int, n as int),
            without_plus(s@) == d,
            all_digits(cs@.subrange(start as int, i as int)),
            acc as nat == digits_value(cs@.subrange(start as int, i as int)),
            acc <= u32::MAX,
        decreases n - i,
    {
        let c = cs[i];
        proof {
            assert(cs@.subrange(start as int, i + 1).drop_last() =~= cs@.subrange(start as int, i as int));
        }
        if !('0' <= c && c <= '9') {
            proof {
                assert(d[i - start] == c);
            }
            return None;
        }
        let digit = (c as u32 - '0' as u32) as u64;
        acc = acc * 10 + digit;
        proof {
            assert(all_digits(cs@.subrange(start as int, i + 1)));
        }
        if acc > u32::MAX as u64 {
            proof {
                if all_digits(d) {
                    lemma_digits_value_grows(d, i + 1 - start);
                    assert(d.subrange(0, i + 1 - start) =~= cs@.subrange(start as int, i + 1));
                }
            }
            return None;
        }
        i = i + 1;
    }
    proof {
        assert(cs@.subrange(start as int, i as int) =~= d);
    }
    Some(acc as u32)
}

/// Number of copies of `c` at the start of `s`.
pub open spec fn leading_count(s: Seq<char>, c: char) -> nat
    decreases s.len(),
{
    if s.len() > 0 && s[0] == c {
        1 + leading_count(s.subrange(1, s.len() as int), c)
    } else {
        0
    }
}

/// How many copies of `c` start `cs`.
pub fn strip_leading(cs: &Vec<char>, c: char) -> (k: usize)
    ensures
        k as nat == leading_count(cs@, c),
        k <= cs@.len(),
{
    let n = cs.len();
    let mut k: usize = 0;
    proof {
        assert(cs@.subrange(0, n as int) =~= cs@);
    }
    while k < n && cs[k] == c
        invariant
            n == cs@.len(),
            k <= n,
            leading_count(cs@, c) == k + leading_count(cs@.subrange(k as int, n as int), c),
        decreases n - k,
    {
        proof {
            let t = cs@.subrange(k as int, n as int);
            assert(t.subrange(1, t.len() as int) =~= cs@.subrange(k + 1, n as int));
        }
        k = k + 1;
    }
    proof {
        let t = cs@.subrange(k as int, n as int);
        if k < n {
            assert(t[0] == cs@[k as int]);
        }
    }
    k
}

/// What `str::parse::<usize>` gives: like `parsed_u32`, up to `usize::MAX`.
pub open spec fn parsed_usize(s: Seq<char>) -> Option<usize> {
    let d = without_plus(s);
    if d.len() > 0 && all_digits(d) && digits_value(d) <= usize::MAX {
        Some(digits_value(d) as usize)
    } else {
        None
    }
}

/// Parses a decimal `usize` (see `parsed_usize`).
pub fn parse_usize(s: &str) -> (r: Option<usize>)
    ensures
        r == parsed_usize(s@),
{
    let cs = chars_of(s);
    let n = cs.len();
    let start: usize = if n > 0 && cs[0] == '+' {
        1
    } else {
        0
    };
    let ghost d = cs@.subrange(start as int, n as int);
    proof {
        assert(start == 1 ==> d =~= s@.subrange(1, s@.len() as int));
        assert(start == 0 ==> d =~= s@);
        assert(without_plus(s@) == d);
    }
    if start == n {
        return None;
    }
    let mut acc: usize = 0;
    let mut i: usize = start;
    while i < n
        invariant
            start <= i <= n,
            n == cs@.len(),
            d == cs@.subrange(start as int, n as int),
            without_plus(s@) == d,
            all_digits(cs@.subrange(start as int, i as int)),
            acc as nat == digits_value(cs@.subrange(start as int, i as int)),
        decreases n - i,
    {
        let c = cs[i];
        proof {
            assert(cs@.subrange(start as int, i + 1).drop_last() =~= cs@.subrange(start as int, i as int));
        }
        if !('0' <= c && c <= '9') {
            proof {
                assert(d[i - start] == c);
            }
            return None;
        }
        let digit = (c as u32 - '0' as u32) as usize;
        proof {
            assert(all_digits(cs@.subrange(start as int, i + 1)));
        }
        if acc > (usize::MAX - digit) / 10 {
            proof {
                assert(acc * 10 + digit > usize::MAX) by (nonlinear_arith)
                    requires
                        acc > (usize::MAX - digit) / 10,
                        digit <= 9,
                ;
                if all_digits(d) {
                    lemma_digits_value_grows(d, i + 1 - start);
                    assert(d.subrange(0, i + 1 - start) =~= cs@.subrange(start as int, i + 1));
                }
            }
            return None;
        }
        proof {
            assert(acc * 10 + digit <= usize::MAX) by (nonlinear_arith)
                requires
                    acc <= (usize::MAX - digit) / 10,
                    digit <= 9,
            ;
        }
        acc = acc * 10 + digit;
        i = i + 1;
    }
    proof {
        assert(cs@.subrange(start as int, i as int) =~= d);
    }
    Some(acc)
}

/// Whether `s` begins with `p`.
pub open spec fn starts_with(s: Seq<char>, p: Seq<char>) -> bool {
    p.len() <= s.len() && s.subrange(0, p.len() as int) == p
}

/// Position of the first occurrence of `p` in `s`, or -1.
pub open spec fn first_occurrence(s: Seq<char>, p: Seq<char>) -> int
    decreases s.len(),
{
    if s.len() < p.len() {
        -1
    } else if starts_with(s, p) {
        0
    } else if s.len() == 0 {
        -1
    } else {
        let r = first_occurrence(s.subrange(1, s.len() as int), p);
        if r < 0 {
            -1
        } else {
            r + 1
        }
    }
}

/// The part of `s` before the first `p` (all of `s` when there is none), as
/// the first piece of `str::split` is.
pub open spec fn before_first(s: Seq<char>, p: Seq<char>) -> Seq<char> {
    if first_occurrence(s, p) >= 0 {
        s.subrange(0, first_occurrence(s, p))
    } else {
        s
    }
}

/// The second piece of `s` split at `p`, if there is one.
pub open spec fn second_piece(s: Seq<char>, p: Seq<char>) -> Option<Seq<char>> {
    if first_occurrence(s, p) >= 0 {
        Some(before_first(s.subrange(first_occurrence(s, p) + p.len(), s.len() as int), p))
    } else {
        None
    }
}

pub proof fn lemma_first_occurrence_pub(s: Seq<char>, p: Seq<char>)
    ensures
        -1 <= first_occurrence(s, p),
        first_occurrence(s, p) >= 0 ==> first_occurrence(s, p) <= s.len() - p.len(),
        first_occurrence(s, p) >= 0 ==> s.subrange(first_occurrence(s, p), first_occurrence(s, p) + p.len()) == p,
    decreases s.len(),
{
    if s.len() >= p.len() && !starts_with(s, p) && s.len() > 0 {
        let t = s.subrange(1, s.len() as int);
        lemma_first_occurrence_pub(t, p);
        let r = first_occurrence(t, p);
        if r >= 0 {
            assert(s.subrange(r + 1, r + 1 + p.len()) =~= t.subrange(r, r + p.len()));
        }
    }
}

/// Position of the first `p` in `cs` at or after `from` (see `first_occurrence`).
pub fn find_from(cs: &Vec<char>, from: usize, p: &Vec<char>) -> (r: Option<usize>)
    requires
        from <= cs@.len(),
    ensures
        ({
            let o = first_occurrence(cs@.subrange(from as int, cs@.len() as int), p@);
            match r {
                Some(i) => o >= 0 && i == from + o,
                None => o < 0,
            }
        }),
{
    let n = cs.len();
    let m = p.len();
    let mut i = from;
    proof {
        assert(cs@.subrange(from as int, n as int) =~= cs@.subrange(i as int, n as int));
    }
    while m <= n - i
        invariant
            n == cs@.len(),
            m == p@.len(),
            from <= i <= n,
            first_occurrence(cs@.subrange(from as int, n as int), p@) == (if first_occurrence(cs@.subrange(i as int, n as int), p@) < 0 {
                -1
            } else {
                first_occurrence(cs@.subrange(i as int, n as int), p@) + (i - from)
            }),
        decreases n - i,
    {
        let ghost t = cs@.subrange(i as int, n as int);
        let mut j: usize = 0;
        let mut same = true;
        while j < m
            invariant
                n == cs@.len(),
                m == p@.len(),
                i + m <= n,
                j <= m,
                same == (forall|x: int| 0 <= x < j ==> cs@[i + x] == p@[x]),
            decreases m - j,
        {
            if cs[i + j] != p[j] {
                same = false;
            }
            j = j + 1;
        }
        proof {
            if same {
                assert(t.subrange(0, m as int) =~= p@);
            } else {
                let x = choose|x: int| 0 <= x < m && cs@[i + x] != p@[x];
                assert(t.subrange(0, m as int)[x] != p@[x]);
            }
        }
        if same {
            return Some(i);
        }
        proof {
            assert(t.subrange(1, t.len() as int) =~= cs@.subrange(i + 1, n as int));
        }
        i = i + 1;
    }
    None
}

/// The characters from `from` on, up to the first `p` after `from`.
pub fn piece_before(cs: &Vec<char>, from: usize, p: &Vec<char>) -> (r: String)
    requires
        from <= cs@.len(),
    ensures
        r@ == before_first(cs@.subrange(from as int, cs@.len() as int), p@),
{
    proof {
        lemma_first_occurrence_pub(cs@.subrange(from as int, cs@.len() as int), p@);
    }
    match find_from(cs, from, p) {
        Some(i) => {
            let r = text_of(cs, from, i);
            proof {
                assert(r@ =~= cs@.subrange(from as int, cs@.len() as int).subrange(0, i - from));
            }
            r
        },
        None => text_of(cs, from, cs.len()),
    }
}

/// Number of whitespace characters at the start of `s`.
pub open spec fn leading_white(s: Seq<char>) -> nat
    decreases s.len(),
{
    if s.len() > 0 && is_white(s[0]) {
        1 + leading_white(s.subrange(1, s.len() as int))
    } else {
        0
    }
}

/// Number of whitespace characters at the end of `s`.
pub open spec fn trailing_white(s: Seq<char>) -> nat
    decreases s.len(),
{
    if s.len() > 0 && is_white(s.last()) {
        1 + trailing_white(s.drop_last())
    } else {
        0
    }
}

/// `s` without leading and trailing whitespace, as `str::trim` gives it.
pub open spec fn trimmed(s: Seq<char>) -> Seq<char> {
    let a = s.subrange(leading_white(s) as int, s.len() as int);
    a.subrange(0, a.len() - trailing_white(a))
}

proof fn lemma_leading_white_bound(s: Seq<char>)
    ensures
        leading_white(s) <= s.len(),
    decreases s.len(),
{
    if s.len() > 0 && is_white(s[0]) {
        lemma_leading_white_bound(s.subrange(1, s.len() as int));
    }
}

proof fn lemma_trailing_white_bound(s: Seq<char>)
    ensures
        trailing_white(s) <= s.len(),
    decreases s.len(),
{
    if s.len() > 0 && is_white(s.last()) {
        lemma_trailing_white_bound(s.drop_last());
    }
}

/// `cs[from..]` trimmed (see `trimmed`).
pub fn trim_from(cs: &Vec<char>, from: usize) -> (r: String)
    requires
        from <= cs@.len(),
    ensures
        r@ == trimmed(cs@.subrange(from as int, cs@.len() as int)),
{
    let n = cs.len();
    let ghost s = cs@.subrange(from as int, n as int);
    let mut a = from;
    proof {
        assert(cs@.subrange(from as int, n as int) == s);
    }
    while a < n && is_whitespace(cs[a])
        invariant
            n == cs@.len(),
            from <= a <= n,
            leading_white(s) == (a - from) + leading_white(cs@.subrange(a as int, n as int)),
        decreases n - a,
    {
        proof {
            let t = cs@.subrange(a as int, n as int);
            assert(t.subrange(1, t.len() as int) =~= cs@.subrange(a + 1, n as int));
        }
        a = a + 1;
    }
    proof {
        let t = cs@.subrange(a as int, n as int);
        if a < n {
            assert(t[0] == cs@[a as int]);
        }
        assert(s.subrange(leading_white(s) as int, s.len() as int) =~= cs@.subrange(a as int, n as int));
    }
    let ghost mid = cs@.subrange(a as int, n as int);
    let mut b = n;
    proof {
        assert(cs@.subrange(a as int, b as int) == mid);
    }
    while b > a && is_whitespace(cs[b - 1])
        invariant
            n == cs@.len(),
            a <= b <= n,
            mid == cs@.subrange(a as int, n as int),
            trailing_white(mid) == (n - b) + trailing_white(cs@.subrange(a as int, b as int)),
        decreases b,
    {
        proof {
            assert(cs@.subrange(a as int, b as int).drop_last() =~= cs@.subrange(a as int, b - 1));
        }
        b = b - 1;
    }
    proof {
        let t = cs@.subrange(a as int, b as int);
        if b > a {
            assert(t.last() == cs@[b - 1]);
        }
        assert(mid.subrange(0, mid.len() - trailing_white(mid)) =~= cs@.subrange(a as int, b as int));
    }
    text_of(cs, a, b)
}

} // verus!
