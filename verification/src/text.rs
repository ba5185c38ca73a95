//! Text helpers with their results known: copying strings and string
//! collections, comparing and testing text, and writing numbers in decimal.

use vstd::prelude::*;

use crate::config::items;

verus! {

pub fn clone_strings(values: &Vec<String>) -> (r: Vec<String>)
    ensures
        items(r) == items(*values),
{
    let mut r: Vec<String> = Vec::new();
    let mut i: usize = 0;
    while i < values.len()
        invariant
            i <= values.len(),
            r@.len() == i,
            forall|j: int| 0 <= j < i ==> #[trigger] r@[j]@ == values@[j]@,
        decreases values.len() - i,
    {
        r.push(values[i].clone());
        i += 1;
    }
    proof {
        reveal(items);
    }
    assert(r.deep_view() =~= values.deep_view());
    r
}

pub fn copy_u32s(values: &Vec<u32>) -> (r: Vec<u32>)
    ensures
        r@ == values@,
{
    let mut r: Vec<u32> = Vec::new();
    let mut i: usize = 0;
    while i < values.len()
        invariant
            i <= values.len(),
            r@ == values@.subrange(0, i as int),
        decreases values.len() - i,
    {
        r.push(values[i]);
        i += 1;
    }
    r
}

pub fn copy_bytes(values: &Vec<u8>) -> (r: Vec<u8>)
    ensures
        r@ == values@,
{
    let mut r: Vec<u8> = Vec::new();
    let mut i: usize = 0;
    while i < values.len()
        invariant
            i <= values.len(),
            r@ == values@.subrange(0, i as int),
        decreases values.len() - i,
    {
        r.push(values[i]);
        i += 1;
    }
    r
}

pub fn clone_opt_string(value: &Option<String>) -> (r: Option<String>)
    ensures
        r.deep_view() == value.deep_view(),
{
    match value {
        Some(s) => Some(s.clone()),
        None => None,
    }
}

pub fn clone_string_pairs(values: &Vec<(String, String)>) -> (r: Vec<(String, String)>)
    ensures
        items(r) == items(*values),
{
    let mut r: Vec<(String, String)> = Vec::new();
    let mut i: usize = 0;
    while i < values.len()
        invariant
            i <= values.len(),
            r@.len() == i,
            forall|j: int| 0 <= j < i ==> #[trigger] r@[j].deep_view() == values@[j].deep_view(),
        decreases values.len() - i,
    {
        let pair = &values[i];
        r.push((pair.0.clone(), pair.1.clone()));
        i += 1;
    }
    proof {
        reveal(items);
    }
    assert(r.deep_view() =~= values.deep_view());
    r
}

pub fn clone_counts(values: &Vec<(String, u32)>) -> (r: Vec<(String, u32)>)
    ensures
        items(r) == items(*values),
{
    let mut r: Vec<(String, u32)> = Vec::new();
    let mut i: usize = 0;
    while i < values.len()
        invariant
            i <= values.len(),
            r@.len() == i,
            forall|j: int| 0 <= j < i ==> #[trigger] r@[j].deep_view() == values@[j].deep_view(),
        decreases values.len() - i,
    {
        let pair = &values[i];
        r.push((pair.0.clone(), pair.1));
        i += 1;
    }
    proof {
        reveal(items);
    }
    assert(r.deep_view() =~= values.deep_view());
    r
}

/// Whether two texts are the same characters.
pub fn same_text(a: &str, b: &str) -> (r: bool)
    ensures
        r == (a@ == b@),
{
    let n = a.unicode_len();
    if n != b.unicode_len() {
        return false;
    }
    let mut i: usize = 0;
    while i < n
        invariant
            n == a@.len(),
            n == b@.len(),
            i <= n,
            a@.take(i as int) == b@.take(i as int),
        decreases n - i,
    {
        if a.get_char(i) != b.get_char(i) {
            return false;
        }
        assert(a@.take(i + 1) =~= a@.take(i as int).push(a@[i as int]));
        assert(b@.take(i + 1) =~= b@.take(i as int).push(b@[i as int]));
        i += 1;
    }
    assert(a@ =~= a@.take(n as int));
    assert(b@ =~= b@.take(n as int));
    true
}

/// Whether `prefix` is a prefix of `s`.
pub open spec fn has_prefix(s: Seq<char>, prefix: Seq<char>) -> bool {
    prefix.len() <= s.len() && s.take(prefix.len() as int) == prefix
}

pub fn starts_with(s: &str, prefix: &str) -> (r: bool)
    ensures
        r == has_prefix(s@, prefix@),
{
    let n = prefix.unicode_len();
    if n > s.unicode_len() {
        return false;
    }
    let mut i: usize = 0;
    while i < n
        invariant
            n == prefix@.len(),
            n <= s@.len(),
            i <= n,
            s@.take(i as int) == prefix@.take(i as int),
        decreases n - i,
    {
        if s.get_char(i) != prefix.get_char(i) {
            assert(s@.take(n as int)[i as int] != prefix@[i as int]);
            return false;
        }
        assert(s@.take(i + 1) =~= s@.take(i as int).push(s@[i as int]));
        assert(prefix@.take(i + 1) =~= prefix@.take(i as int).push(prefix@[i as int]));
        i += 1;
    }
    assert(prefix@ =~= prefix@.take(n as int));
    true
}

/// Whether `suffix` is a suffix of `s`.
pub open spec fn has_suffix(s: Seq<char>, suffix: Seq<char>) -> bool {
    suffix.len() <= s.len() && s.skip(s.len() - suffix.len()) == suffix
}

pub fn ends_with(s: &str, suffix: &str) -> (r: bool)
    ensures
        r == has_suffix(s@, suffix@),
{
    let n = s.unicode_len();
    let m = suffix.unicode_len();
    if m > n {
        return false;
    }
    let tail = s.substring_char(n - m, n);
    assert(tail@ =~= s@.skip(n - m));
    same_text(tail, suffix)
}

/// `s` without the `c`s it ends in.
pub open spec fn trim_end(s: Seq<char>, c: char) -> Seq<char>
    decreases s.len(),
{
    if s.len() > 0 && s.last() == c {
        trim_end(s.drop_last(), c)
    } else {
        s
    }
}

proof fn lemma_trim_end_of_prefix(s: Seq<char>, c: char, i: int)
    requires
        0 <= i <= s.len(),
        forall|j: int| i <= j < s.len() ==> s[j] == c,
    ensures
        trim_end(s, c) == trim_end(s.take(i), c),
    decreases s.len() - i,
{
    if i < s.len() {
        assert(s.drop_last().take(i) =~= s.take(i));
        lemma_trim_end_of_prefix(s.drop_last(), c, i);
    } else {
        assert(s.take(i) =~= s);
    }
}

/// `s` without the `c`s it ends in.
pub fn trim_end_matches(s: &str, c: char) -> (r: &str)
    ensures
        r@ == trim_end(s@, c),
{
    let n = s.unicode_len();
    let mut end: usize = n;
    while end > 0 && s.get_char(end - 1) == c
        invariant
            n == s@.len(),
            end <= n,
            forall|j: int| end <= j < n ==> s@[j] == c,
        decreases end,
    {
        end -= 1;
    }
    proof {
        lemma_trim_end_of_prefix(s@, c, end as int);
        assert(s@.take(end as int).len() == 0 || s@.take(end as int).last() != c);
    }
    let r = s.substring_char(0, end);
    assert(r@ =~= s@.take(end as int));
    r
}

/// Whether `t` occurs in `s`.
pub open spec fn has_infix(s: Seq<char>, t: Seq<char>) -> bool {
    exists|i: int| 0 <= i && i + t.len() <= s.len() && #[trigger] s.subrange(i, i + t.len()) == t
}

/// Whether `t` occurs in `s`.
pub fn contains_text(s: &str, t: &str) -> (r: bool)
    ensures
        r == has_infix(s@, t@),
{
    let n = s.unicode_len();
    let m = t.unicode_len();
    if m > n {
        proof {
            assert forall|i: int| 0 <= i && i + m <= n implies #[trigger] s@.subrange(i, i + m) != t@ by {}
        }
        return false;
    }
    if m == 0 {
        assert(s@.subrange(0int, 0int + t@.len()) =~= t@);
        return true;
    }
    let last = n - m;
    let mut i: usize = 0;
    while i <= last
        invariant
            n == s@.len(),
            m == t@.len(),
            0 < m <= n,
            last == n - m,
            i <= last + 1,
            forall|j: int| 0 <= j < i ==> #[trigger] s@.subrange(j, j + m) != t@,
        decreases last + 1 - i,
    {
        if same_text(s.substring_char(i, i + m), t) {
            return true;
        }
        i += 1;
    }
    proof {
        assert forall|j: int| 0 <= j && j + m <= n implies #[trigger] s@.subrange(j, j + m) != t@ by {
            assert(j < i);
        }
    }
    false
}

/// What Unicode lower-casing makes of a text.
pub uninterp spec fn lowercase(text: Seq<char>) -> Seq<char>;

/// `str::to_lowercase`: the text with every character replaced by its Unicode
/// lowercase mapping. The contract claims that the result is a function of
/// the text, named `lowercase`.
#[verifier::external_body]
pub(crate) fn to_lowercase(text: &str) -> (r: String)
    ensures
        r@ == lowercase(text@),
{
    text.to_lowercase()
}

/// Whether a character is Unicode White_Space, as `char::is_whitespace`
/// defines it: tab through carriage return, space, next line, no-break space,
/// Ogham space mark, en quad through hair space, line and paragraph
/// separators, narrow no-break space, medium mathematical space, and
/// ideographic space.
pub open spec fn unicode_white_space(c: char) -> bool {
    let v = c as u32;
    ||| 0x9 <= v <= 0xD
    ||| v == 0x20
    ||| v == 0x85
    ||| v == 0xA0
    ||| v == 0x1680
    ||| 0x2000 <= v <= 0x200A
    ||| v == 0x2028
    ||| v == 0x2029
    ||| v == 0x202F
    ||| v == 0x205F
    ||| v == 0x3000
}

fn is_white_space(c: char) -> (r: bool)
    ensures
        r == unicode_white_space(c),
{
    let v = c as u32;
    (0x9 <= v && v <= 0xD) || v == 0x20 || v == 0x85 || v == 0xA0 || v == 0x1680 || (0x2000 <= v && v <= 0x200A)
        || v == 0x2028 || v == 0x2029 || v == 0x202F || v == 0x205F || v == 0x3000
}

/// `s` without the white space it ends in.
pub open spec fn trim_end_white(s: Seq<char>) -> Seq<char>
    decreases s.len(),
{
    if s.len() > 0 && unicode_white_space(s.last()) {
        trim_end_white(s.drop_last())
    } else {
        s
    }
}

/// `s` without the white space it starts with.
pub open spec fn trim_start_white(s: Seq<char>) -> Seq<char>
    decreases s.len(),
{
    if s.len() > 0 && unicode_white_space(s[0]) {
        trim_start_white(s.drop_first())
    } else {
        s
    }
}

/// A text without its leading and trailing white space.
pub open spec fn trimmed(text: Seq<char>) -> Seq<char> {
    trim_start_white(trim_end_white(text))
}

proof fn lemma_trim_end_white_of_prefix(s: Seq<char>, i: int)
    requires
        0 <= i <= s.len(),
        forall|j: int| i <= j < s.len() ==> unicode_white_space(#[trigger] s[j]),
    ensures
        trim_end_white(s) == trim_end_white(s.take(i)),
    decreases s.len() - i,
{
    if i < s.len() {
        assert(s.drop_last().take(i) =~= s.take(i));
        lemma_trim_end_white_of_prefix(s.drop_last(), i);
    } else {
        assert(s.take(i) =~= s);
    }
}

proof fn lemma_trim_start_white_of_suffix(s: Seq<char>, i: int)
    requires
        0 <= i <= s.len(),
        forall|j: int| 0 <= j < i ==> unicode_white_space(#[trigger] s[j]),
    ensures
        trim_start_white(s) == trim_start_white(s.skip(i)),
    decreases i,
{
    if i > 0 {
        assert(s.drop_first().skip(i - 1) =~= s.skip(i));
        assert forall|j: int| 0 <= j < i - 1 implies unicode_white_space(#[trigger] s.drop_first()[j]) by {
            assert(s.drop_first()[j] == s[j + 1]);
        }
        lemma_trim_start_white_of_suffix(s.drop_first(), i - 1);
    } else {
        assert(s.skip(0) =~= s);
    }
}

/// `str::trim`: the text without its leading and trailing white space.
pub fn trim(text: &str) -> (r: &str)
    ensures
        r@ == trimmed(text@),
{
    let n = text.unicode_len();
    let mut end: usize = n;
    while end > 0 && is_white_space(text.get_char(end - 1))
        invariant
            n == text@.len(),
            end <= n,
            forall|j: int| end <= j < n ==> unicode_white_space(#[trigger] text@[j]),
        decreases end,
    {
        end -= 1;
    }
    let ghost kept = text@.take(end as int);
    proof {
        lemma_trim_end_white_of_prefix(text@, end as int);
        assert(kept.len() == 0 || !unicode_white_space(kept.last()));
        assert(trim_end_white(kept) == kept);
    }
    let mut start: usize = 0;
    while start < end && is_white_space(text.get_char(start))
        invariant
            n == text@.len(),
            end <= n,
            start <= end,
            kept == text@.take(end as int),
            forall|j: int| 0 <= j < start ==> unicode_white_space(#[trigger] kept[j]),
        decreases end - start,
    {
        start += 1;
    }
    proof {
        lemma_trim_start_white_of_suffix(kept, start as int);
        assert(kept.skip(start as int) =~= text@.subrange(start as int, end as int));
        assert(kept.skip(start as int).len() == 0 || !unicode_white_space(kept.skip(start as int)[0]));
    }
    text.substring_char(start, end)
}

/// The character of a decimal digit.
pub open spec fn digit_char(d: nat) -> char {
    if d == 0 { '0' }
    else if d == 1 { '1' }
    else if d == 2 { '2' }
    else if d == 3 { '3' }
    else if d == 4 { '4' }
    else if d == 5 { '5' }
    else if d == 6 { '6' }
    else if d == 7 { '7' }
    else if d == 8 { '8' }
    else { '9' }
}

/// A number written in decimal, without sign or leading zeros.
pub open spec fn decimal(n: nat) -> Seq<char>
    decreases n,
{
    if n < 10 {
        seq![digit_char(n)]
    } else {
        decimal(n / 10).push(digit_char(n % 10))
    }
}

fn digit_text(d: u64) -> (r: &'static str)
    requires
        d < 10,
    ensures
        r@ == seq![digit_char(d as nat)],
{
    proof {
        reveal_strlit("0");
        reveal_strlit("1");
        reveal_strlit("2");
        reveal_strlit("3");
        reveal_strlit("4");
        reveal_strlit("5");
        reveal_strlit("6");
        reveal_strlit("7");
        reveal_strlit("8");
        reveal_strlit("9");
    }
    if d == 0 { "0" }
    else if d == 1 { "1" }
    else if d == 2 { "2" }
    else if d == 3 { "3" }
    else if d == 4 { "4" }
    else if d == 5 { "5" }
    else if d == 6 { "6" }
    else if d == 7 { "7" }
    else if d == 8 { "8" }
    else { "9" }
}

/// Appends `n` in decimal to `s`.
pub fn push_decimal(s: &mut String, n: u64)
    ensures
        final(s)@ == old(s)@ + decimal(n as nat),
    decreases n,
{
    if n >= 10 {
        push_decimal(s, n / 10);
    }
    s.append(digit_text(n % 10));
    assert(decimal(n as nat) =~= if n < 10 { seq![digit_char(n as nat)] } else { decimal((n / 10) as nat).push(digit_char((n % 10) as nat)) });
}

/// An integer written in decimal, with a leading `-` when it is negative.
pub open spec fn signed_decimal(n: int) -> Seq<char> {
    if n < 0 {
        seq!['-'] + decimal((-n) as nat)
    } else {
        decimal(n as nat)
    }
}

/// Appends `n` in decimal to `s`, with a leading `-` when it is negative.
pub fn push_signed_decimal(s: &mut String, n: i64)
    ensures
        final(s)@ == old(s)@ + signed_decimal(n as int),
{
    if n < 0 {
        proof {
            reveal_strlit("-");
        }
        s.append("-");
        let magnitude: u64 = ((-(n + 1)) as u64) + 1;
        push_decimal(s, magnitude);
        assert(s@ =~= old(s)@ + signed_decimal(n as int));
    } else {
        push_decimal(s, n as u64);
    }
}

/// Which characters cut a text into pieces.
#[derive(Clone, Copy, Debug, PartialEq, Eq, Structural)]
pub enum Separator {
    /// A path separator on Unix: `/`.
    Slash,
    /// A path separator on Windows: `/` or `\`.
    SlashOrBackslash,
    /// A dot, as between the numbers of a version.
    Dot,
    /// A semicolon, as between the cookies of a header.
    Semicolon,
}

pub open spec fn separates(kind: Separator, c: char) -> bool {
    match kind {
        Separator::Slash => c == '/',
        Separator::SlashOrBackslash => c == '/' || c == '\\',
        Separator::Dot => c == '.',
        Separator::Semicolon => c == ';',
    }
}

/// `s` cut at every separator of `kind`: the pieces between separators, in
/// order, with an empty piece where two separators meet or at either end.
pub open spec fn split_where(s: Seq<char>, kind: Separator) -> Seq<Seq<char>>
    decreases s.len(),
{
    if s.len() == 0 {
        seq![Seq::empty()]
    } else {
        let pieces = split_where(s.drop_last(), kind);
        if separates(kind, s.last()) {
            pieces.push(Seq::empty())
        } else {
            pieces.update(pieces.len() - 1, pieces.last().push(s.last()))
        }
    }
}

pub fn split_text(s: &str, kind: Separator) -> (r: Vec<String>)
    ensures
        r.deep_view() == split_where(s@, kind),
{
    let n = s.unicode_len();
    let mut pieces: Vec<String> = Vec::new();
    let mut current = String::new();
    let mut i: usize = 0;
    while i < n
        invariant
            n == s@.len(),
            i <= n,
            split_where(s@.take(i as int), kind) == pieces.deep_view().push(current@),
        decreases n - i,
    {
        let c = s.get_char(i);
        proof {
            assert(s@.take(i + 1).drop_last() =~= s@.take(i as int));
            assert(s@.take(i + 1).last() == c);
        }
        let is_sep = match kind {
            Separator::Slash => c == '/',
        Separator::SlashOrBackslash => c == '/' || c == '\\',
            Separator::Dot => c == '.',
            Separator::Semicolon => c == ';',
        };
        if is_sep {
            let piece = current;
            pieces.push(piece);
            current = String::new();
            proof {
                assert(split_where(s@.take(i + 1), kind) =~= pieces.deep_view().push(current@));
            }
        } else {
            let ghost before = pieces.deep_view().push(current@);
            let ghost old_current = current@;
            current.append(s.substring_char(i, i + 1));
            proof {
                assert(s@.subrange(i as int, i + 1) =~= seq![c]);
                assert(current@ == old_current.push(c));
                assert(!separates(kind, c));
                assert(split_where(s@.take(i + 1), kind) == before.update(before.len() - 1, before.last().push(c)));
                assert(before.update(before.len() - 1, before.last().push(c)) =~= pieces.deep_view().push(current@));
            }
        }
        i += 1;
    }
    assert(s@.take(n as int) =~= s@);
    pieces.push(current);
    assert(pieces.deep_view() =~= split_where(s@, kind));
    pieces
}

/// Whether `i` is the first index of `c` in `s`.
pub open spec fn first_index_of(s: Seq<char>, c: char, i: int) -> bool {
    0 <= i < s.len() && s[i] == c && forall|j: int| 0 <= j < i ==> s[j] != c
}

/// Whether `i` is the last index of `c` in `s`.
pub open spec fn last_index_of(s: Seq<char>, c: char, i: int) -> bool {
    0 <= i < s.len() && s[i] == c && forall|j: int| i < j < s.len() ==> s[j] != c
}

/// The index of the first `c` in `s`, if any.
pub fn find_first(s: &str, c: char) -> (r: Option<usize>)
    ensures
        match r {
            Some(i) => first_index_of(s@, c, i as int),
            None => forall|j: int| 0 <= j < s@.len() ==> s@[j] != c,
        },
{
    let n = s.unicode_len();
    let mut i: usize = 0;
    while i < n
        invariant
            n == s@.len(),
            i <= n,
            forall|j: int| 0 <= j < i ==> s@[j] != c,
        decreases n - i,
    {
        if s.get_char(i) == c {
            return Some(i);
        }
        i += 1;
    }
    None
}

/// The index of the last `c` in `s`, if any.
pub fn find_last(s: &str, c: char) -> (r: Option<usize>)
    ensures
        match r {
            Some(i) => last_index_of(s@, c, i as int),
            None => forall|j: int| 0 <= j < s@.len() ==> s@[j] != c,
        },
{
    let n = s.unicode_len();
    let mut i: usize = n;
    while i > 0
        invariant
            n == s@.len(),
            i <= n,
            forall|j: int| i <= j < n ==> s@[j] != c,
        decreases i,
    {
        if s.get_char(i - 1) == c {
            return Some(i - 1);
        }
        i -= 1;
    }
    None
}

/// Trimming the `c`s a text ends in keeps a beginning of it that does not
/// end in `c`, and drops only `c`s.
pub proof fn lemma_trim_end_drops_only_the_trailing(s: Seq<char>, c: char)
    ensures
        trim_end(s, c).len() <= s.len(),
        s.take(trim_end(s, c).len() as int) == trim_end(s, c),
        trim_end(s, c).len() == 0 || trim_end(s, c).last() != c,
        forall|j: int| trim_end(s, c).len() <= j < s.len() ==> s[j] == c,
    decreases s.len(),
{
    if s.len() > 0 && s.last() == c {
        lemma_trim_end_drops_only_the_trailing(s.drop_last(), c);
        let r = trim_end(s.drop_last(), c);
        assert(s.take(r.len() as int) =~= s.drop_last().take(r.len() as int));
        assert forall|j: int| r.len() <= j < s.len() implies s[j] == c by {
            if j < s.len() - 1 {
                assert(s.drop_last()[j] == s[j]);
            }
        }
    } else {
        assert(s.take(s.len() as int) =~= s);
    }
}

/// A text begins with each of its beginnings, ends with each of its endings
/// and contains each of its middles; and no text begins or ends with
/// anything longer than itself.
pub proof fn lemma_affixes_of_a_join(p: Seq<char>, m: Seq<char>, q: Seq<char>)
    ensures
        has_prefix(p + m + q, p),
        has_suffix(p + m + q, q),
        has_infix(p + m + q, m),
        !has_prefix(p, p + m + q) || (m.len() == 0 && q.len() == 0),
        !has_suffix(q, p + m + q) || (p.len() == 0 && m.len() == 0),
{
    let s = p + m + q;
    assert(s.take(p.len() as int) =~= p);
    assert(s.skip(s.len() - q.len()) =~= q);
    assert(s.subrange(p.len() as int, (p.len() + m.len()) as int) =~= m);
}

/// The character a digit is written with: `'0'` to `'9'` in order.
pub open spec fn digit_of(c: char) -> int {
    c as int - '0' as int
}

/// The number decimal digits spell, most significant first.
pub open spec fn spelled_number(digits: Seq<char>) -> int
    decreases digits.len(),
{
    if digits.len() == 0 {
        0
    } else {
        spelled_number(digits.drop_last()) * 10 + digit_of(digits.last())
    }
}

/// A number written in decimal is a nonempty run of the digits `0` to `9`
/// that spells the number back, with no leading zero: it begins with `0`
/// only when it is `0`.
pub proof fn lemma_decimal_spells_the_number(n: nat)
    ensures
        decimal(n).len() > 0,
        forall|i: int| 0 <= i < decimal(n).len() ==> '0' <= #[trigger] decimal(n)[i] <= '9',
        spelled_number(decimal(n)) == n,
        n > 0 ==> decimal(n)[0] != '0',
        n == 0 ==> decimal(n) == seq!['0'],
    decreases n,
{
    if n >= 10 {
        lemma_decimal_spells_the_number(n / 10);
        let d = decimal(n / 10);
        let r = n % 10;
        assert(decimal(n) == d.push(digit_char(r)));
        assert(decimal(n).drop_last() =~= d);
        assert(decimal(n).last() == digit_char(r));
        assert(decimal(n)[0] == d[0]);
        assert(digit_of(digit_char(r)) == r);
        assert(spelled_number(decimal(n)) == spelled_number(d) * 10 + digit_of(digit_char(r)));
        assert(n == (n / 10) * 10 + r);
        assert forall|i: int| 0 <= i < decimal(n).len() implies '0' <= #[trigger] decimal(n)[i] <= '9' by {
            if i < d.len() {
                assert(decimal(n)[i] == d[i]);
            }
        }
    } else {
        assert(digit_of(digit_char(n)) == n);
        assert(seq![digit_char(n)].drop_last() =~= Seq::<char>::empty());
        assert(spelled_number(decimal(n)) == spelled_number(Seq::<char>::empty()) * 10 + digit_of(digit_char(n)));
    }
}

/// How many separators of a kind a text holds.
pub open spec fn separator_count(s: Seq<char>, kind: Separator) -> nat
    decreases s.len(),
{
    if s.len() == 0 {
        0
    } else {
        separator_count(s.drop_last(), kind) + if separates(kind, s.last()) { 1nat } else { 0nat }
    }
}

/// Splitting a text cuts it at every separator and nowhere else: there is
/// one piece more than there are separators, no piece holds a separator,
/// and the pieces hold all the other characters, so their lengths and the
/// separators add up to the text's length.
pub proof fn lemma_split_cuts_at_each_separator(s: Seq<char>, kind: Separator)
    ensures
        split_where(s, kind).len() == separator_count(s, kind) + 1,
        forall|k: int, j: int| 0 <= k < split_where(s, kind).len() && 0 <= j < split_where(s, kind)[k].len()
            ==> !separates(kind, #[trigger] split_where(s, kind)[k][j]),
        pieces_length(split_where(s, kind)) + separator_count(s, kind) == s.len(),
    decreases s.len(),
{
    if s.len() > 0 {
        lemma_split_cuts_at_each_separator(s.drop_last(), kind);
        let pieces = split_where(s.drop_last(), kind);
        let out = split_where(s, kind);
        if separates(kind, s.last()) {
            assert(out == pieces.push(Seq::empty()));
            assert(out.drop_last() =~= pieces);
            assert(pieces_length(out) == pieces_length(pieces));
            assert forall|k: int, j: int| 0 <= k < out.len() && 0 <= j < out[k].len()
                implies !separates(kind, #[trigger] out[k][j]) by {
                assert(out[k] == pieces[k]);
            }
        } else {
            let last = pieces.last().push(s.last());
            assert(out == pieces.update(pieces.len() - 1, last));
            assert forall|k: int, j: int| 0 <= k < out.len() && 0 <= j < out[k].len()
                implies !separates(kind, #[trigger] out[k][j]) by {
                if k < pieces.len() - 1 {
                    assert(out[k] == pieces[k]);
                } else if j < pieces.last().len() {
                    assert(out[k][j] == pieces[k][j]);
                }
            }
            assert(out.drop_last() =~= pieces.drop_last());
            assert(pieces_length(pieces) == pieces_length(pieces.drop_last()) + pieces.last().len());
            assert(out.last() == last);
            assert(pieces_length(out) == pieces_length(out.drop_last()) + last.len());
        }
    } else {
        let out = split_where(s, kind);
        assert(out == seq![Seq::<char>::empty()]);
        assert(out.drop_last() =~= Seq::<Seq<char>>::empty());
        assert(pieces_length(out) == pieces_length(out.drop_last()) + out.last().len());
    }
}

/// The characters a run of pieces holds.
pub open spec fn pieces_length(pieces: Seq<Seq<char>>) -> nat
    decreases pieces.len(),
{
    if pieces.len() == 0 {
        0
    } else {
        pieces_length(pieces.drop_last()) + pieces.last().len()
    }
}

} // verus!
