//! Plain text: trimming, searching, cutting and decimal numbers, each proved
//! against a statement over sequences of characters.

use vstd::prelude::*;

verus! {

/// The characters that Unicode gives the property White_Space.
pub open spec fn is_space(c: char) -> bool {
    ||| '\u{9}' <= c <= '\u{d}'
    ||| c == ' '
    ||| c == '\u{85}'
    ||| c == '\u{a0}'
    ||| c == '\u{1680}'
    ||| '\u{2000}' <= c <= '\u{200a}'
    ||| c == '\u{2028}'
    ||| c == '\u{2029}'
    ||| c == '\u{202f}'
    ||| c == '\u{205f}'
    ||| c == '\u{3000}'
}

/// `s` without the white space that it starts with.
pub open spec fn without_leading_space(s: Seq<char>) -> Seq<char>
    decreases s.len(),
{
    if s.len() > 0 && is_space(s.first()) {
        without_leading_space(s.drop_first())
    } else {
        s
    }
}

/// `s` without the white space that it ends with.
pub open spec fn without_trailing_space(s: Seq<char>) -> Seq<char>
    decreases s.len(),
{
    if s.len() > 0 && is_space(s.last()) {
        without_trailing_space(s.drop_last())
    } else {
        s
    }
}

/// `s` without the white space at either end.
pub open spec fn trimmed(s: Seq<char>) -> Seq<char> {
    without_trailing_space(without_leading_space(s))
}

/// `s` without any `/` that it ends with.
pub open spec fn without_trailing_slashes(s: Seq<char>) -> Seq<char>
    decreases s.len(),
{
    if s.len() > 0 && s.last() == '/' {
        without_trailing_slashes(s.drop_last())
    } else {
        s
    }
}

/// The span of `s` from its first `{` to its last `}`, where the one stands
/// before the other.
pub open spec fn brace_span(s: Seq<char>) -> Option<Seq<char>> {
    match (s.index_of_first('{'), s.index_of_last('}')) {
        (Some(start), Some(end)) => if start < end {
            Some(s.subrange(start, end + 1))
        } else {
            None
        },
        _ => None,
    }
}

/// Whether `s` starts with `{` and ends with `}`.
pub open spec fn braced(s: Seq<char>) -> bool {
    s.len() >= 2 && s.first() == '{' && s.last() == '}'
}

/// How many characters of a foreign text an error message repeats.
pub const EXCERPT_CHARS: usize = 300;

/// The start of `s` that an error message repeats.
pub open spec fn excerpt(s: Seq<char>) -> Seq<char> {
    if s.len() <= EXCERPT_CHARS {
        s
    } else {
        s.take(EXCERPT_CHARS as int)
    }
}

/// The decimal digits of `n`, without leading zeros.
pub open spec fn decimal(n: nat) -> Seq<char>
    decreases n,
{
    if n < 10 {
        seq![digit(n)]
    } else {
        decimal(n / 10).push(digit(n % 10))
    }
}

/// The decimal digit for a number below ten.
pub open spec fn digit(n: nat) -> char {
    (48 + n) as char
}

fn space(c: char) -> (yes: bool)
    ensures
        yes == is_space(c),
{
    ('\u{9}' <= c && c <= '\u{d}') || c == ' ' || c == '\u{85}' || c == '\u{a0}' || c == '\u{1680}'
        || ('\u{2000}' <= c && c <= '\u{200a}') || c == '\u{2028}' || c == '\u{2029}' || c
        == '\u{202f}' || c == '\u{205f}' || c == '\u{3000}'
}

/// The characters of `s`, in order.
fn char_list(s: &str) -> (list: Vec<char>)
    ensures
        list@ == s@,
{
    let mut list: Vec<char> = Vec::new();
    for c in iter: s.chars()
        invariant
            list@ == iter.seq().take(iter.index()),
            iter.seq() == s@,
    {
        list.push(c);
    }
    list
}

/// `s` without the white space at either end.
pub fn trim(s: &str) -> (t: &str)
    ensures
        t@ == trimmed(s@),
{
    let list = char_list(s);
    let mut from: usize = 0;
    assert(s@.skip(0) == s@);
    while from < list.len() && space(list[from])
        invariant
            from <= list.len(),
            list@ == s@,
            without_leading_space(s@) == without_leading_space(s@.skip(from as int)),
        decreases list.len() - from,
    {
        assert(s@.skip(from as int).drop_first() == s@.skip(from + 1));
        from = from + 1;
    }
    let mut to: usize = list.len();
    assert(s@.skip(from as int) == s@.subrange(from as int, to as int));
    assert(without_leading_space(s@) == s@.subrange(from as int, to as int));
    while to > from && space(list[to - 1])
        invariant
            from <= to <= list.len(),
            list@ == s@,
            trimmed(s@) == without_trailing_space(s@.subrange(from as int, to as int)),
        decreases to,
    {
        assert(s@.subrange(from as int, to as int).drop_last() == s@.subrange(
            from as int,
            to - 1,
        ));
        to = to - 1;
    }
    s.substring_char(from, to)
}

/// `s` without any `/` that it ends with.
pub(crate) fn trim_slashes(s: &str) -> (t: &str)
    ensures
        t@ == without_trailing_slashes(s@),
{
    let list = char_list(s);
    let mut to: usize = list.len();
    assert(s@.take(to as int) == s@);
    while to > 0 && list[to - 1] == '/'
        invariant
            to <= list.len(),
            list@ == s@,
            without_trailing_slashes(s@) == without_trailing_slashes(s@.take(to as int)),
        decreases to,
    {
        assert(s@.take(to as int).drop_last() == s@.take(to - 1));
        to = to - 1;
    }
    assert(s@.take(to as int) == s@.subrange(0, to as int));
    s.substring_char(0, to)
}

fn first_index(list: &Vec<char>, c: char) -> (index: Option<usize>)
    ensures
        match index {
            Some(i) => list@.index_of_first(c) == Some(i as int),
            None => list@.index_of_first(c) is None,
        },
{
    proof {
        list@.index_of_first_ensures(c);
    }
    let mut i: usize = 0;
    while i < list.len()
        invariant
            i <= list.len(),
            forall|j: int| 0 <= j < i ==> list@[j] != c,
            match list@.index_of_first(c) {
                Some(k) => 0 <= k < list@.len() && list@[k] == c && forall|j: int|
                    0 <= j < k ==> list@[j] != c,
                None => !list@.contains(c),
            },
        decreases list.len() - i,
    {
        if list[i] == c {
            assert(list@.contains(c));
            return Some(i);
        }
        i = i + 1;
    }
    None
}

fn last_index(list: &Vec<char>, c: char) -> (index: Option<usize>)
    ensures
        match index {
            Some(i) => list@.index_of_last(c) == Some(i as int),
            None => list@.index_of_last(c) is None,
        },
{
    proof {
        list@.index_of_last_ensures(c);
    }
    let mut i: usize = list.len();
    while i > 0
        invariant
            i <= list.len(),
            forall|j: int| i <= j < list@.len() ==> list@[j] != c,
            match list@.index_of_last(c) {
                Some(k) => 0 <= k < list@.len() && list@[k] == c && forall|j: int|
                    k < j < list@.len() ==> list@[j] != c,
                None => !list@.contains(c),
            },
        decreases i,
    {
        i = i - 1;
        if list[i] == c {
            assert(list@.contains(c));
            return Some(i);
        }
    }
    None
}

/// The span of `s` from its first `{` to its last `}`.
pub fn outermost_braces(s: &str) -> (span: Option<&str>)
    ensures
        match span {
            Some(t) => brace_span(s@) == Some(t@),
            None => brace_span(s@) is None,
        },
{
    let list = char_list(s);
    proof {
        s@.index_of_first_ensures('{');
        s@.index_of_last_ensures('}');
    }
    match (first_index(&list, '{'), last_index(&list, '}')) {
        (Some(start), Some(end)) => if start < end {
            assert(end < list.len());
            Some(s.substring_char(start, end + 1))
        } else {
            None
        },
        _ => None,
    }
}

/// The start of `s` that an error message repeats.
pub(crate) fn shortened(s: &str) -> (t: &str)
    ensures
        t@ == excerpt(s@),
{
    let length = s.unicode_len();
    if length <= EXCERPT_CHARS {
        s
    } else {
        s.substring_char(0, EXCERPT_CHARS)
    }
}

fn digit_text(n: u64) -> (t: &'static str)
    requires
        n < 10,
    ensures
        t@ == seq![digit(n as nat)],
{
    proof {
        reveal_strlit("0");
        reveal_strlit("1");
        reveal_strlit("2");
        reveal_strlit("3");
        reveal_strlit("4");
        reveal_strlit("5");
        reveal_strlit("6");
        reveal_strlit("7");
        reveal_strlit("8");
        reveal_strlit("9");
    }
    if n == 0 {
        "0"
    } else if n == 1 {
        "1"
    } else if n == 2 {
        "2"
    } else if n == 3 {
        "3"
    } else if n == 4 {
        "4"
    } else if n == 5 {
        "5"
    } else if n == 6 {
        "6"
    } else if n == 7 {
        "7"
    } else if n == 8 {
        "8"
    } else {
        "9"
    }
}

/// `n` in decimal.
pub(crate) fn decimal_text(n: u64) -> (t: String)
    ensures
        t@ == decimal(n as nat),
    decreases n,
{
    if n < 10 {
        digit_text(n).to_owned()
    } else {
        let mut t = decimal_text(n / 10);
        t.append(digit_text(n % 10));
        assert(t@ == decimal((n / 10) as nat).push(digit((n % 10) as nat)));
        t
    }
}

/// White space that is cut off the front is the front of the text.
proof fn lemma_leading_space(s: Seq<char>) -> (from: int)
    ensures
        0 <= from <= s.len(),
        without_leading_space(s) == s.skip(from),
        forall|i: int| 0 <= i < from ==> is_space(#[trigger] s[i]),
        from < s.len() ==> !is_space(s[from]),
    decreases s.len(),
{
    if s.len() > 0 && is_space(s.first()) {
        let rest = lemma_leading_space(s.drop_first());
        assert(s.drop_first().skip(rest) == s.skip(rest + 1));
        assert forall|i: int| 0 <= i < rest + 1 implies is_space(#[trigger] s[i]) by {
            if i > 0 {
                assert(s[i] == s.drop_first()[i - 1]);
            }
        }
        rest + 1
    } else {
        assert(s.skip(0) == s);
        0
    }
}

/// White space that is cut off the end is the end of the text.
proof fn lemma_trailing_space(s: Seq<char>) -> (to: int)
    ensures
        0 <= to <= s.len(),
        without_trailing_space(s) == s.take(to),
        forall|i: int| to <= i < s.len() ==> is_space(#[trigger] s[i]),
        to > 0 ==> !is_space(s[to - 1]),
    decreases s.len(),
{
    if s.len() > 0 && is_space(s.last()) {
        let to = lemma_trailing_space(s.drop_last());
        assert(s.drop_last().take(to) == s.take(to));
        assert forall|i: int| to <= i < s.len() implies is_space(#[trigger] s[i]) by {
            if i < s.len() - 1 {
                assert(s[i] == s.drop_last()[i]);
            }
        }
        to
    } else {
        assert(s.take(s.len() as int) == s);
        s.len() as int
    }
}

/// A span that holds every brace of a text has the outermost braces of the text.
proof fn lemma_same_brace_span(s: Seq<char>, from: int, to: int)
    requires
        0 <= from <= to <= s.len(),
        forall|i: int|
            0 <= i < s.len() && !(from <= i < to) ==> #[trigger] s[i] != '{' && s[i] != '}',
    ensures
        brace_span(s.subrange(from, to)) == brace_span(s),
{
    let t = s.subrange(from, to);
    s.index_of_first_ensures('{');
    s.index_of_last_ensures('}');
    t.index_of_first_ensures('{');
    t.index_of_last_ensures('}');
    assert(s.contains('{') ==> t.contains('{')) by {
        if s.contains('{') {
            let i = s.index_of_first('{').unwrap();
            assert(t[i - from] == '{');
        }
    }
    assert(s.contains('}') ==> t.contains('}')) by {
        if s.contains('}') {
            let i = s.index_of_last('}').unwrap();
            assert(t[i - from] == '}');
        }
    }
    assert(t.contains('{') ==> s.contains('{')) by {
        if t.contains('{') {
            let i = t.index_of_first('{').unwrap();
            assert(s[i + from] == '{');
        }
    }
    assert(t.contains('}') ==> s.contains('}')) by {
        if t.contains('}') {
            let i = t.index_of_last('}').unwrap();
            assert(s[i + from] == '}');
        }
    }
    if s.contains('{') && s.contains('}') {
        let i = s.index_of_first('{').unwrap();
        let j = s.index_of_last('}').unwrap();
        let a = t.index_of_first('{').unwrap();
        let b = t.index_of_last('}').unwrap();
        assert(s[i] == t[i - from] && s[j] == t[j - from]);
        assert(s[a + from] == t[a] && s[b + from] == t[b]);
        assert(a == i - from && b == j - from);
        if i < j {
            assert(t.subrange(a, b + 1) == s.subrange(i, j + 1));
        }
    }
}

/// Law: a text that was trimmed is not changed by trimming it again.
pub proof fn trimming_twice_changes_nothing(s: Seq<char>)
    ensures
        trimmed(trimmed(s)) == trimmed(s),
{
    let from = lemma_leading_space(s);
    lemma_trailing_space(s.skip(from));
}

/// Law: white space around a text does not change the span between its
/// outermost braces.
pub proof fn brace_span_ignores_surrounding_space(s: Seq<char>)
    ensures
        brace_span(trimmed(s)) == brace_span(s),
{
    let from = lemma_leading_space(s);
    let rest = s.skip(from);
    let kept = lemma_trailing_space(rest);
    let t = trimmed(s);
    let to = from + kept;
    assert(t == s.subrange(from, to));
    assert forall|i: int| 0 <= i < s.len() && !(from <= i < to) implies is_space(#[trigger] s[i]) by {
        if i >= to {
            assert(s[i] == rest[i - from]);
        }
    }
    assert(!is_space('{') && !is_space('}'));
    lemma_same_brace_span(s, from, to);
}

/// Law: prose in front of a braced text that holds no `{`, and prose behind it
/// that holds no `}`, leave the braced text as the span between the outermost
/// braces.
pub proof fn brace_span_skips_surrounding_prose(before: Seq<char>, body: Seq<char>, after: Seq<char>)
    requires
        braced(body),
        !before.contains('{'),
        !after.contains('}'),
    ensures
        brace_span(before + body + after) == Some(body),
{
    let s = before + body + after;
    let start = before.len() as int;
    let end = before.len() + body.len() - 1;
    assert(s[start] == '{');
    assert(s[end] == '}');
    assert forall|i: int| 0 <= i < start implies s[i] != '{' by {
        assert(s[i] == before[i]);
    }
    assert forall|i: int| end < i < s.len() implies s[i] != '}' by {
        assert(s[i] == after[i - before.len() - body.len()]);
    }
    assert(s.contains('{') && s.contains('}'));
    s.index_of_first_ensures('{');
    s.index_of_last_ensures('}');
    assert(s.subrange(start, end + 1) == body);
}

/// Law: prose without braces around a text does not change the span between its
/// outermost braces.
pub proof fn brace_span_ignores_braceless_prose(before: Seq<char>, s: Seq<char>, after: Seq<char>)
    requires
        !before.contains('{') && !before.contains('}'),
        !after.contains('{') && !after.contains('}'),
    ensures
        brace_span(before + s + after) == brace_span(s),
{
    let whole = before + s + after;
    let from = before.len() as int;
    let to = from + s.len();
    assert forall|i: int| 0 <= i < whole.len() && !(from <= i < to) implies #[trigger] whole[i]
        != '{' && whole[i] != '}' by {
        if i < from {
            assert(whole[i] == before[i]);
        } else {
            assert(whole[i] == after[i - to]);
        }
    }
    assert(s == whole.subrange(from, to));
    lemma_same_brace_span(whole, from, to);
}

/// Law: slashes at the end of a text do not change it once they are cut off.
pub proof fn trailing_slashes_are_cut(s: Seq<char>, slashes: Seq<char>)
    requires
        forall|i: int| 0 <= i < slashes.len() ==> slashes[i] == '/',
    ensures
        without_trailing_slashes(s + slashes) == without_trailing_slashes(s),
    decreases slashes.len(),
{
    if slashes.len() == 0 {
        assert(s + slashes == s);
    } else {
        trailing_slashes_are_cut(s, slashes.drop_last());
        assert((s + slashes).drop_last() == s + slashes.drop_last());
    }
}

/// Law: white space is what Unicode gives the property White_Space, by code
/// points.
pub proof fn white_space_by_code_points(c: char)
    ensures
        is_space(c) <==> {
            let n = c as u32;
            ||| 0x9 <= n <= 0xd
            ||| n == 0x20
            ||| n == 0x85
            ||| n == 0xa0
            ||| n == 0x1680
            ||| 0x2000 <= n <= 0x200a
            ||| 0x2028 <= n <= 0x2029
            ||| n == 0x202f
            ||| n == 0x205f
            ||| n == 0x3000
        },
{
}

/// Law: trimming keeps one span of a text. All that it cuts off is white space,
/// and the span neither starts nor ends with any.
pub proof fn trimming_cuts_white_space_only(s: Seq<char>) -> (span: (int, int))
    ensures
        0 <= span.0 <= span.1 <= s.len(),
        trimmed(s) == s.subrange(span.0, span.1),
        forall|i: int| 0 <= i < span.0 ==> is_space(#[trigger] s[i]),
        forall|i: int| span.1 <= i < s.len() ==> is_space(#[trigger] s[i]),
        span.0 < span.1 ==> !is_space(s[span.0]) && !is_space(s[span.1 - 1]),
{
    let from = lemma_leading_space(s);
    let rest = s.skip(from);
    let kept = lemma_trailing_space(rest);
    assert(trimmed(s) == s.subrange(from, from + kept));
    assert forall|i: int| from + kept <= i < s.len() implies is_space(#[trigger] s[i]) by {
        assert(s[i] == rest[i - from]);
    }
    if kept > 0 {
        assert(rest[kept - 1] == s[from + kept - 1]);
    }
    (from, from + kept)
}

/// Law: cutting slashes keeps the front of a text. All that it cuts off is `/`,
/// and what it keeps does not end with one.
pub proof fn only_trailing_slashes_are_cut(s: Seq<char>) -> (kept: int)
    ensures
        0 <= kept <= s.len(),
        without_trailing_slashes(s) == s.take(kept),
        forall|i: int| kept <= i < s.len() ==> #[trigger] s[i] == '/',
        kept > 0 ==> s[kept - 1] != '/',
    decreases s.len(),
{
    if s.len() > 0 && s.last() == '/' {
        let kept = only_trailing_slashes_are_cut(s.drop_last());
        assert(s.drop_last().take(kept) == s.take(kept));
        assert forall|i: int| kept <= i < s.len() implies #[trigger] s[i] == '/' by {
            if i < s.len() - 1 {
                assert(s[i] == s.drop_last()[i]);
            }
        }
        kept
    } else {
        assert(s.take(s.len() as int) == s);
        s.len() as int
    }
}

/// Law: the span between the outermost braces starts at the first `{` and ends at
/// the last `}`; and there is one wherever any `{` stands in front of any `}`.
pub proof fn brace_span_is_outermost(s: Seq<char>) -> (span: (int, int))
    ensures
        match brace_span(s) {
            Some(t) => {
                &&& 0 <= span.0 < span.1 < s.len()
                &&& t == s.subrange(span.0, span.1 + 1)
                &&& s[span.0] == '{' && s[span.1] == '}'
                &&& forall|i: int| 0 <= i < span.0 ==> #[trigger] s[i] != '{'
                &&& forall|i: int| span.1 < i < s.len() ==> #[trigger] s[i] != '}'
            },
            None => forall|i: int, j: int|
                0 <= i < j < s.len() ==> !(#[trigger] s[i] == '{' && #[trigger] s[j] == '}'),
        },
{
    s.index_of_first_ensures('{');
    s.index_of_last_ensures('}');
    match brace_span(s) {
        Some(_) => (s.index_of_first('{').unwrap(), s.index_of_last('}').unwrap()),
        None => {
            assert forall|i: int, j: int| 0 <= i < j < s.len() implies !(#[trigger] s[i] == '{'
                && #[trigger] s[j] == '}') by {
                if s[i] == '{' && s[j] == '}' {
                    assert(s.contains('{') && s.contains('}'));
                    assert(s.index_of_first('{').unwrap() <= i);
                    assert(s.index_of_last('}').unwrap() >= j);
                }
            }
            (0, 0)
        },
    }
}

/// Law: a text of up to 300 characters is repeated whole in an error message, and
/// of a longer one exactly the first 300.
pub proof fn excerpts_are_the_first_characters(s: Seq<char>)
    ensures
        s.len() <= 300 ==> excerpt(s) == s,
        s.len() > 300 ==> excerpt(s).len() == 300,
        forall|i: int| 0 <= i < excerpt(s).len() ==> #[trigger] excerpt(s)[i] == s[i],
{
}

/// The number that decimal digits stand for.
pub open spec fn number_in(digits: Seq<char>) -> int
    decreases digits.len(),
{
    if digits.len() == 0 {
        0
    } else {
        10 * number_in(digits.drop_last()) + (digits.last() as u32 - '0' as u32)
    }
}

/// Law: a number in decimal reads as that number; it is made of digits, and does
/// not start with a zero unless it is zero.
pub proof fn decimals_read_as_their_number(n: nat)
    ensures
        number_in(decimal(n)) == n,
        decimal(n).len() > 0,
        forall|i: int| 0 <= i < decimal(n).len() ==> '0' <= #[trigger] decimal(n)[i] <= '9',
        n > 0 ==> decimal(n)[0] != '0',
        n == 0 ==> decimal(n).len() == 1,
    decreases n,
{
    assert(decimal(n).last() == digit(n % 10));
    if n < 10 {
        assert(decimal(n).drop_last() == Seq::<char>::empty());
        assert(number_in(Seq::<char>::empty()) == 0);
    } else {
        decimals_read_as_their_number(n / 10);
        assert(decimal(n).drop_last() == decimal(n / 10));
        assert forall|i: int| 0 <= i < decimal(n).len() implies '0' <= #[trigger] decimal(n)[i]
            <= '9' by {
            if i < decimal(n).len() - 1 {
                assert(decimal(n)[i] == decimal(n / 10)[i]);
            }
        }
        assert(decimal(n)[0] == decimal(n / 10)[0]);
    }
}

} // verus!
