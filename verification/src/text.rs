//! Small text operations the wizard needs: trimming, joining, editing.

use vstd::prelude::*;

verus! {

/// Whether `c` is white space: a character with the Unicode property
/// `White_Space`. These are the tab, the line feed, the vertical tab, the
/// form feed, the carriage return, the space, the next-line control, the
/// no-break space, the Ogham space mark, the spaces from en quad to hair
/// space, the line and the paragraph separator, the narrow no-break space,
/// the medium mathematical space and the ideographic space.
pub open spec fn is_white_space(c: char) -> bool {
    let code = c as u32;
    ||| 0x09 <= code <= 0x0d
    ||| code == 0x20
    ||| code == 0x85
    ||| code == 0xa0
    ||| code == 0x1680
    ||| 0x2000 <= code <= 0x200a
    ||| code == 0x2028
    ||| code == 0x2029
    ||| code == 0x202f
    ||| code == 0x205f
    ||| code == 0x3000
}

/// Tells white space from other characters.
pub fn is_space(c: char) -> (b: bool)
    ensures
        b == is_white_space(c),
{
    let code: u32 = c as u32;
    (0x09 <= code && code <= 0x0d) || code == 0x20 || code == 0x85 || code == 0xa0 || code
        == 0x1680 || (0x2000 <= code && code <= 0x200a) || code == 0x2028 || code == 0x2029
        || code == 0x202f || code == 0x205f || code == 0x3000
}

/// `s` without its leading white space.
pub open spec fn skip_leading_space(s: Seq<char>) -> Seq<char>
    decreases s.len(),
{
    if s.len() > 0 && is_white_space(s[0]) {
        skip_leading_space(s.drop_first())
    } else {
        s
    }
}

/// `s` without its trailing white space.
pub open spec fn skip_trailing_space(s: Seq<char>) -> Seq<char>
    decreases s.len(),
{
    if s.len() > 0 && is_white_space(s.last()) {
        skip_trailing_space(s.drop_last())
    } else {
        s
    }
}

/// `s` without white space at either end.
pub open spec fn trimmed(s: Seq<char>) -> Seq<char> {
    skip_trailing_space(skip_leading_space(s))
}

proof fn lemma_skip_leading(s: Seq<char>, a: int)
    requires
        0 <= a <= s.len(),
        forall|j: int| 0 <= j < a ==> is_white_space(#[trigger] s[j]),
        a < s.len() ==> !is_white_space(s[a]),
    ensures
        skip_leading_space(s) == s.subrange(a, s.len() as int),
    decreases a,
{
    if a == 0 {
        assert(s.subrange(0, s.len() as int) =~= s);
    } else {
        let t = s.drop_first();
        assert forall|j: int| 0 <= j < a - 1 implies is_white_space(#[trigger] t[j]) by {
            assert(t[j] == s[j + 1]);
        }
        lemma_skip_leading(t, a - 1);
        assert(t.subrange(a - 1, t.len() as int) =~= s.subrange(a, s.len() as int));
    }
}

proof fn lemma_skip_trailing(s: Seq<char>, b: int)
    requires
        0 <= b <= s.len(),
        forall|j: int| b <= j < s.len() ==> is_white_space(#[trigger] s[j]),
        b > 0 ==> !is_white_space(s[b - 1]),
    ensures
        skip_trailing_space(s) == s.subrange(0, b),
    decreases s.len() - b,
{
    if b == s.len() {
        assert(s.subrange(0, b) =~= s);
    } else {
        let t = s.drop_last();
        lemma_skip_trailing(t, b);
        assert(t.subrange(0, b) =~= s.subrange(0, b));
    }
}

/// The slice of `s` between its first and its last character that is not
/// white space; empty where there is none.
pub fn trim(s: &str) -> (r: &str)
    ensures
        r@ == trimmed(s@),
{
    let n = s.unicode_len();
    let mut first: usize = n;
    let mut past_last: usize = 0;
    let mut i: usize = 0;
    for c in it: s.chars()
        invariant
            it.seq() == s@,
            i == it.index(),
            n == s@.len(),
            first == n ==> past_last == 0 && forall|j: int|
                0 <= j < i ==> is_white_space(#[trigger] s@[j]),
            first < n ==> {
                &&& first < past_last <= i
                &&& !is_white_space(s@[first as int])
                &&& !is_white_space(s@[past_last - 1])
                &&& forall|j: int| 0 <= j < first ==> is_white_space(#[trigger] s@[j])
                &&& forall|j: int| past_last <= j < i ==> is_white_space(#[trigger] s@[j])
            },
            first <= n,
    {
        if !is_space(c) {
            if first == n {
                first = i;
            }
            past_last = i + 1;
        }
        i = i + 1;
    }
    if first == n {
        proof {
            lemma_skip_leading(s@, n as int);
            assert(s@.subrange(n as int, n as int) =~= Seq::<char>::empty());
            assert(s@.subrange(0, 0) =~= Seq::<char>::empty());
        }
        s.substring_char(0, 0)
    } else {
        proof {
            lemma_skip_leading(s@, first as int);
            let t = s@.subrange(first as int, n as int);
            lemma_skip_trailing(t, past_last - first);
            assert(t.subrange(0, past_last - first) =~= s@.subrange(
                first as int,
                past_last as int,
            ));
        }
        s.substring_char(first, past_last)
    }
}

/// The texts of `parts`, one after another, with one space between
/// neighbours.
pub open spec fn joined(parts: Seq<Seq<char>>) -> Seq<char>
    decreases parts.len(),
{
    if parts.len() == 0 {
        Seq::<char>::empty()
    } else if parts.len() == 1 {
        parts[0]
    } else {
        joined(parts.drop_last()) + " "@ + parts.last()
    }
}

/// Joins `parts` with single spaces.
pub fn join_with_space(parts: &Vec<String>) -> (line: String)
    ensures
        line@ == joined(parts.deep_view()),
{
    let mut line = String::new();
    let mut i: usize = 0;
    while i < parts.len()
        invariant
            i <= parts.len(),
            line@ == joined(parts.deep_view().take(i as int)),
        decreases parts.len() - i,
    {
        proof {
            let upto = parts.deep_view().take(i as int);
            let next = parts.deep_view().take(i + 1);
            assert(next.drop_last() =~= upto);
            assert(next.last() == parts[i as int]@);
            assert(i == 0 ==> upto =~= Seq::<Seq<char>>::empty());
            assert(i == 0 ==> joined(next) == parts[i as int]@);
        }
        if i > 0 {
            line.append(" ");
        }
        line.append(parts[i].as_str());
        i = i + 1;
    }
    proof {
        assert(parts.deep_view().take(parts.len() as int) =~= parts.deep_view());
    }
    line
}

/// `s` between double quotes.
pub open spec fn quoted(s: Seq<char>) -> Seq<char> {
    "\""@ + s + "\""@
}

/// Puts `s` between double quotes; nothing inside is escaped.
pub fn quote(s: &str) -> (q: String)
    ensures
        q@ == quoted(s@),
{
    let mut q = String::from_str("\"");
    q.append(s);
    q.append("\"");
    q
}

/// `s` without the carriage returns at its end.
pub open spec fn without_trailing_cr(s: Seq<char>) -> Seq<char>
    decreases s.len(),
{
    if s.len() > 0 && s.last() == '\r' {
        without_trailing_cr(s.drop_last())
    } else {
        s
    }
}

proof fn lemma_without_trailing_cr(s: Seq<char>, b: int)
    requires
        0 <= b <= s.len(),
        forall|j: int| b <= j < s.len() ==> #[trigger] s[j] == '\r',
        b > 0 ==> s[b - 1] != '\r',
    ensures
        without_trailing_cr(s) == s.subrange(0, b),
    decreases s.len() - b,
{
    if b == s.len() {
        assert(s.subrange(0, b) =~= s);
    } else {
        let t = s.drop_last();
        lemma_without_trailing_cr(t, b);
        assert(t.subrange(0, b) =~= s.subrange(0, b));
    }
}

/// Cuts every carriage return off the end of `s`.
pub fn strip_trailing_cr(s: &str) -> (r: &str)
    ensures
        r@ == without_trailing_cr(s@),
{
    let mut past_last: usize = 0;
    let mut i: usize = 0;
    let n = s.unicode_len();
    for c in it: s.chars()
        invariant
            it.seq() == s@,
            i == it.index(),
            n == s@.len(),
            past_last <= i,
            past_last > 0 ==> s@[past_last - 1] != '\r',
            forall|j: int| past_last <= j < i ==> #[trigger] s@[j] == '\r',
    {
        if c != '\r' {
            past_last = i + 1;
        }
        i = i + 1;
    }
    proof {
        lemma_without_trailing_cr(s@, past_last as int);
    }
    s.substring_char(0, past_last)
}

/// The character for a single decimal digit.
pub open spec fn digit_char(d: int) -> char {
    if d == 0 {
        '0'
    } else if d == 1 {
        '1'
    } else if d == 2 {
        '2'
    } else if d == 3 {
        '3'
    } else if d == 4 {
        '4'
    } else if d == 5 {
        '5'
    } else if d == 6 {
        '6'
    } else if d == 7 {
        '7'
    } else if d == 8 {
        '8'
    } else {
        '9'
    }
}

/// The decimal digits of `n`, most significant first, without leading
/// zeros.
pub open spec fn digits(n: nat) -> Seq<char>
    decreases n,
{
    if n < 10 {
        seq![digit_char(n as int)]
    } else {
        digits(n / 10).push(digit_char((n % 10) as int))
    }
}

/// `n` in decimal, with a minus sign where it is negative.
pub open spec fn decimal_text(n: int) -> Seq<char> {
    if n < 0 {
        seq!['-'] + digits((-n) as nat)
    } else {
        digits(n as nat)
    }
}

/// The digits of `n` that remain to be written once its lower digits are
/// taken: none when nothing is left.
spec fn leading_digits(n: nat) -> Seq<char> {
    if n == 0 {
        Seq::empty()
    } else {
        digits(n)
    }
}

proof fn lemma_digits_step(n: nat)
    requires
        n > 0,
    ensures
        digits(n) == leading_digits(n / 10).push(digit_char((n % 10) as int)),
{
    if n < 10 {
        assert(n / 10 == 0);
        assert(n % 10 == n);
        assert(Seq::<char>::empty().push(digit_char(n as int)) =~= seq![digit_char(n as int)]);
    }
}

fn digit_of(d: i64) -> (c: char)
    requires
        0 <= d < 10,
    ensures
        c == digit_char(d as int),
{
    if d == 0 {
        '0'
    } else if d == 1 {
        '1'
    } else if d == 2 {
        '2'
    } else if d == 3 {
        '3'
    } else if d == 4 {
        '4'
    } else if d == 5 {
        '5'
    } else if d == 6 {
        '6'
    } else if d == 7 {
        '7'
    } else if d == 8 {
        '8'
    } else {
        '9'
    }
}

/// Writes `n` in decimal.
pub fn decimal(n: i32) -> (text: String)
    ensures
        text@ == decimal_text(n as int),
{
    let wide: i64 = n as i64;
    let magnitude: i64 = if wide < 0 {
        -wide
    } else {
        wide
    };
    let mut low_first: Vec<char> = Vec::new();
    low_first.push(digit_of(magnitude % 10));
    let mut rest: i64 = magnitude / 10;
    proof {
        if magnitude > 0 {
            lemma_digits_step(magnitude as nat);
        }
        assert(low_first@.reverse() =~= seq![digit_char((magnitude % 10) as int)]);
        assert(digits(magnitude as nat) =~= leading_digits(rest as nat) + low_first@.reverse());
    }
    while rest > 0
        invariant
            0 <= rest <= magnitude,
            digits(magnitude as nat) == leading_digits(rest as nat) + low_first@.reverse(),
        decreases rest,
    {
        let ghost before = low_first@;
        let d = digit_of(rest % 10);
        low_first.push(d);
        proof {
            lemma_digits_step(rest as nat);
            assert(low_first@.reverse() =~= seq![d] + before.reverse());
            assert(leading_digits(rest as nat) + before.reverse() =~= leading_digits(
                (rest / 10) as nat,
            ) + low_first@.reverse());
        }
        rest = rest / 10;
    }
    let mut text = String::new();
    if wide < 0 {
        push_char(&mut text, '-');
    }
    let ghost sign = text@;
    let mut i: usize = low_first.len();
    proof {
        assert(sign + low_first@.reverse().take(0) =~= sign);
    }
    while i > 0
        invariant
            i <= low_first.len(),
            text@ == sign + low_first@.reverse().take(low_first.len() - i),
        decreases i,
    {
        i = i - 1;
        push_char(&mut text, low_first[i]);
        proof {
            let high_first = low_first@.reverse();
            let done = low_first.len() - i;
            assert(high_first.take(done).drop_last() =~= high_first.take(done - 1));
            assert(high_first.take(done).last() == low_first@[i as int]);
            assert(text@ =~= sign + high_first.take(done));
        }
    }
    proof {
        let high_first = low_first@.reverse();
        assert(high_first.take(low_first.len() as int) =~= high_first);
        assert(leading_digits(0) + high_first =~= high_first);
        assert(Seq::<char>::empty() + high_first =~= high_first);
    }
    text
}

/// Calls `String::push`: the character is added at the end.
#[verifier::external_body]
pub(crate) fn push_char(s: &mut String, c: char)
    ensures
        final(s)@ == old(s)@.push(c),
{
    s.push(c)
}

/// Calls `String::pop`: the last character is taken off and returned, and
/// an empty string stays as it is.
#[verifier::external_body]
pub(crate) fn pop_char(s: &mut String) -> (last: Option<char>)
    ensures
        old(s)@.len() == 0 ==> last is None && final(s)@ == old(s)@,
        old(s)@.len() > 0 ==> last == Some(old(s)@.last()) && final(s)@ == old(s)@.drop_last(),
{
    s.pop()
}

} // verus!
