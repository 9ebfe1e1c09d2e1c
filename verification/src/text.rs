//! Text primitives over sequences of characters: trimming, decimal numbers,
//! prefixes, substrings and lines. Every function states its result over the
//! view of its arguments.
use vstd::prelude::*;

verus! {

/// Whether `c` is white space: one of the code points that carry Unicode's
/// `White_Space` property.
pub open spec fn is_space(c: char) -> bool {
    let n = c as u32;
    ||| 0x09 <= n <= 0x0D
    ||| n == 0x20
    ||| n == 0x85
    ||| n == 0xA0
    ||| n == 0x1680
    ||| 0x2000 <= n <= 0x200A
    ||| n == 0x2028
    ||| n == 0x2029
    ||| n == 0x202F
    ||| n == 0x205F
    ||| n == 0x3000
}

/// `s` without its leading white space.
pub open spec fn skip_leading(s: Seq<char>) -> Seq<char>
    decreases s.len(),
{
    if s.len() > 0 && is_space(s[0]) {
        skip_leading(s.drop_first())
    } else {
        s
    }
}

/// `s` without its trailing white space.
pub open spec fn skip_trailing(s: Seq<char>) -> Seq<char>
    decreases s.len(),
{
    if s.len() > 0 && is_space(s.last()) {
        skip_trailing(s.drop_last())
    } else {
        s
    }
}

/// `s` without leading and trailing white space.
pub open spec fn trimmed(s: Seq<char>) -> Seq<char> {
    skip_trailing(skip_leading(s))
}

/// Whether `c` is one of the ten ASCII digits.
pub open spec fn is_digit(c: char) -> bool {
    0x30 <= c as u32 <= 0x39
}

/// The value of the digit `c`.
pub open spec fn digit_value(c: char) -> int {
    c as u32 - 0x30
}

/// Whether `s` holds ASCII digits only.
pub open spec fn all_digits(s: Seq<char>) -> bool {
    forall|i: int| 0 <= i < s.len() ==> is_digit(#[trigger] s[i])
}

/// The number that the digits of `s` write in base ten.
pub open spec fn digits_value(s: Seq<char>) -> int
    decreases s.len(),
{
    if s.len() == 0 {
        0
    } else {
        digits_value(s.drop_last()) * 10 + digit_value(s.last())
    }
}

/// The digits of a signed decimal number: `s` without a leading sign.
pub open spec fn unsigned_part(s: Seq<char>) -> Seq<char> {
    if s.len() > 0 && (s[0] == '-' || s[0] == '+') {
        s.drop_first()
    } else {
        s
    }
}

/// The number that `s` writes: an optional sign, then the digits.
pub open spec fn signed_value(s: Seq<char>) -> int {
    if s.len() > 0 && s[0] == '-' {
        -digits_value(unsigned_part(s))
    } else {
        digits_value(unsigned_part(s))
    }
}

/// The 32-bit signed integer that `s` writes in decimal, if it writes one: an
/// optional `+` or `-`, then at least one digit and nothing else, with a value in
/// range.
pub open spec fn decimal_i32(s: Seq<char>) -> Option<i32> {
    if unsigned_part(s).len() > 0 && all_digits(unsigned_part(s)) && i32::MIN <= signed_value(s)
        <= i32::MAX {
        Some(signed_value(s) as i32)
    } else {
        None
    }
}

/// Whether `s` begins with `prefix`.
pub open spec fn has_prefix(s: Seq<char>, prefix: Seq<char>) -> bool {
    prefix.len() <= s.len() && s.subrange(0, prefix.len() as int) == prefix
}

/// Whether `pattern` stands in `s` at index `at`.
pub open spec fn occurs_at(s: Seq<char>, pattern: Seq<char>, at: int) -> bool {
    0 <= at && at + pattern.len() <= s.len() && s.subrange(at, at + pattern.len()) == pattern
}

/// Whether `pattern` stands somewhere in `s`.
pub open spec fn has_substring(s: Seq<char>, pattern: Seq<char>) -> bool {
    exists|at: int| occurs_at(s, pattern, at)
}

/// Appends one character to a string with `String::push`: afterwards the string
/// holds what it held before, followed by `c`.
#[verifier::external_body]
pub(crate) fn push_char(s: &mut String, c: char)
    ensures
        final(s)@ == old(s)@.push(c),
{
    s.push(c)
}

/// The characters of `s`, in order.
pub fn chars_of(s: &str) -> (v: Vec<char>)
    ensures
        v@ == s@,
{
    let mut v: Vec<char> = Vec::new();
    for c in it: s.chars()
        invariant
            it.seq() == s@,
            v@ == it.seq().subrange(0, it.index() as int),
    {
        v.push(c);
    }
    assert(s@.subrange(0, s@.len() as int) == s@);
    v
}

/// The string made of the characters of `v` from index `from` up to `to`.
pub(crate) fn text_of(v: &Vec<char>, from: usize, to: usize) -> (s: String)
    requires
        from <= to <= v.len(),
    ensures
        s@ == v@.subrange(from as int, to as int),
{
    let mut s = String::new();
    let mut i: usize = from;
    while i < to
        invariant
            from <= i <= to <= v.len(),
            s@ == v@.subrange(from as int, i as int),
        decreases to - i,
    {
        push_char(&mut s, v[i]);
        i = i + 1;
    }
    s
}

/// A copy of `s`.
pub fn copy_text(s: &str) -> (r: String)
    ensures
        r@ == s@,
{
    let v = chars_of(s);
    let r = text_of(&v, 0, v.len());
    assert(v@.subrange(0, v@.len() as int) == v@);
    r
}

/// Whether two strings hold the same characters.
pub fn same_text(a: &str, b: &str) -> (r: bool)
    ensures
        r == (a@ == b@),
{
    let x = chars_of(a);
    let y = chars_of(b);
    if x.len() != y.len() {
        return false;
    }
    let mut i: usize = 0;
    while i < x.len()
        invariant
            x@ == a@,
            y@ == b@,
            x.len() == y.len(),
            i <= x.len(),
            x@.subrange(0, i as int) == y@.subrange(0, i as int),
        decreases x.len() - i,
    {
        if x[i] != y[i] {
            assert(a@[i as int] != b@[i as int]);
            return false;
        }
        assert(x@.subrange(0, i + 1) == x@.subrange(0, i as int).push(x@[i as int]));
        assert(y@.subrange(0, i + 1) == y@.subrange(0, i as int).push(y@[i as int]));
        i = i + 1;
    }
    assert(x@.subrange(0, x@.len() as int) == x@);
    assert(y@.subrange(0, y@.len() as int) == y@);
    true
}

/// Whether `c` is white space.
pub fn char_is_space(c: char) -> (r: bool)
    ensures
        r == is_space(c),
{
    let n: u32 = c as u32;
    (0x09 <= n && n <= 0x0D) || n == 0x20 || n == 0x85 || n == 0xA0 || n == 0x1680 || (0x2000 <= n
        && n <= 0x200A) || n == 0x2028 || n == 0x2029 || n == 0x202F || n == 0x205F || n == 0x3000
}

/// Taking leading white space off a sequence leaves what taking it off its tail
/// leaves, as long as the head is white space.
proof fn lemma_skip_leading_step(s: Seq<char>, a: int)
    requires
        0 <= a < s.len(),
        is_space(s[a]),
    ensures
        skip_leading(s.subrange(a, s.len() as int)) == skip_leading(
            s.subrange(a + 1, s.len() as int),
        ),
{
    let t = s.subrange(a, s.len() as int);
    assert(t[0] == s[a]);
    assert(t.drop_first() == s.subrange(a + 1, s.len() as int));
}

proof fn lemma_skip_trailing_step(s: Seq<char>, a: int, b: int)
    requires
        0 <= a < b <= s.len(),
        is_space(s[b - 1]),
    ensures
        skip_trailing(s.subrange(a, b)) == skip_trailing(s.subrange(a, b - 1)),
{
    let t = s.subrange(a, b);
    assert(t.last() == s[b - 1]);
    assert(t.drop_last() == s.subrange(a, b - 1));
}

/// The bounds of what is left of `v` once leading and trailing white space are
/// taken off.
pub(crate) fn trim_bounds(v: &Vec<char>) -> (r: (usize, usize))
    ensures
        r.0 <= r.1 <= v.len(),
        v@.subrange(r.0 as int, r.1 as int) == trimmed(v@),
{
    let n = v.len();
    let mut a: usize = 0;
    assert(v@.subrange(0, n as int) == v@);
    while a < n && char_is_space(v[a])
        invariant
            n == v.len(),
            a <= n,
            skip_leading(v@) == skip_leading(v@.subrange(a as int, n as int)),
        decreases n - a,
    {
        proof {
            lemma_skip_leading_step(v@, a as int);
        }
        a = a + 1;
    }
    assert(skip_leading(v@) == v@.subrange(a as int, n as int)) by {
        let t = v@.subrange(a as int, n as int);
        if a < n {
            assert(t[0] == v@[a as int]);
        }
    }
    let mut b: usize = n;
    while b > a && char_is_space(v[b - 1])
        invariant
            n == v.len(),
            a <= b <= n,
            skip_trailing(v@.subrange(a as int, n as int)) == skip_trailing(
                v@.subrange(a as int, b as int),
            ),
        decreases b - a,
    {
        proof {
            lemma_skip_trailing_step(v@, a as int, b as int);
        }
        b = b - 1;
    }
    assert(skip_trailing(v@.subrange(a as int, b as int)) == v@.subrange(a as int, b as int)) by {
        let t = v@.subrange(a as int, b as int);
        if b > a {
            assert(t.last() == v@[b - 1]);
        }
    }
    (a, b)
}

/// `s` without leading and trailing white space.
pub fn trim(s: &str) -> (r: String)
    ensures
        r@ == trimmed(s@),
{
    let v = chars_of(s);
    let (a, b) = trim_bounds(&v);
    text_of(&v, a, b)
}

/// The digits of a sequence write a number that is not negative and that is at
/// least the number that any of its prefixes writes.
pub proof fn lemma_digits_value_grows(s: Seq<char>, k: int)
    requires
        all_digits(s),
        0 <= k <= s.len(),
    ensures
        0 <= digits_value(s.subrange(0, k)) <= digits_value(s),
    decreases s.len() - k,
{
    if k == s.len() {
        assert(s.subrange(0, k) == s);
        lemma_digits_value_nonnegative(s);
    } else {
        let t = s.subrange(0, k + 1);
        assert(t.drop_last() == s.subrange(0, k));
        assert(all_digits(t));
        assert(is_digit(t.last()));
        assert(all_digits(s.subrange(0, k)));
        lemma_digits_value_nonnegative(s.subrange(0, k));
        lemma_digits_value_grows(s, k + 1);
    }
}

/// The digits of a sequence write a number that is not negative.
pub proof fn lemma_digits_value_nonnegative(s: Seq<char>)
    requires
        all_digits(s),
    ensures
        0 <= digits_value(s),
    decreases s.len(),
{
    if s.len() > 0 {
        assert(all_digits(s.drop_last()));
        assert(is_digit(s.last()));
        lemma_digits_value_nonnegative(s.drop_last());
    }
}

/// The 32-bit signed integer that the characters of `v` from `from` up to `to`
/// write in decimal, if they write one.
#[verifier::loop_isolation(false)]
pub(crate) fn parse_decimal(v: &Vec<char>, from: usize, to: usize) -> (r: Option<i32>)
    requires
        from <= to <= v.len(),
    ensures
        r == decimal_i32(v@.subrange(from as int, to as int)),
{
    let ghost s = v@.subrange(from as int, to as int);
    if from == to {
        return None;
    }
    let first: char = v[from];
    assert(s[0] == first);
    let negative = first == '-';
    let start: usize = if first == '-' || first == '+' {
        from + 1
    } else {
        from
    };
    let ghost body = unsigned_part(s);
    assert(body == v@.subrange(start as int, to as int));
    if start == to {
        return None;
    }
    let mut acc: i64 = 0;
    let mut i: usize = start;
    assert(body.subrange(0, 0) == Seq::<char>::empty());
    while i < to
        invariant
            start <= i <= to <= v.len(),
            body == v@.subrange(start as int, to as int),
            all_digits(body.subrange(0, i - start)),
            acc == digits_value(body.subrange(0, i - start)),
            0 <= acc <= 2147483648,
        decreases to - i,
    {
        let n: u32 = v[i] as u32;
        assert(body[i - start] == v@[i as int]);
        if n < 48 || n > 57 {
            assert(!is_digit(body[i - start]));
            return None;
        }
        let ghost next = body.subrange(0, i - start + 1);
        assert(next.drop_last() == body.subrange(0, i - start));
        assert(next.last() == v@[i as int]);
        assert(is_digit(next.last()));
        assert forall|j: int| 0 <= j < next.len() implies is_digit(#[trigger] next[j]) by {
            if j < i - start {
                assert(next[j] == body.subrange(0, i - start)[j]);
            }
        }
        acc = acc * 10 + (n - 48) as i64;
        if acc > 2147483648 {
            proof {
                if all_digits(body) {
                    lemma_digits_value_grows(body, i - start + 1);
                }
            }
            return None;
        }
        i = i + 1;
    }
    assert(body.subrange(0, to - start) == body);
    if negative {
        Some((0 - acc) as i32)
    } else if acc <= 2147483647 {
        Some(acc as i32)
    } else {
        None
    }
}

/// The 32-bit signed integer that `s` writes in decimal, if it writes one.
pub fn parse_i32(s: &str) -> (r: Option<i32>)
    ensures
        r == decimal_i32(s@),
{
    let v = chars_of(s);
    assert(v@.subrange(0, v@.len() as int) == v@);
    parse_decimal(&v, 0, v.len())
}

/// The 32-bit signed integer that `s` writes in decimal once the white space
/// around it is taken off, if it writes one.
pub fn parse_trimmed_i32(s: &str) -> (r: Option<i32>)
    ensures
        r == decimal_i32(trimmed(s@)),
{
    let v = chars_of(s);
    let (a, b) = trim_bounds(&v);
    parse_decimal(&v, a, b)
}

/// Whether `pattern` stands in `s` at index `at`.
pub(crate) fn matches_at(s: &Vec<char>, pattern: &Vec<char>, at: usize) -> (r: bool)
    requires
        at + pattern.len() <= s.len(),
    ensures
        r == occurs_at(s@, pattern@, at as int),
{
    let m = pattern.len();
    let ghost window = s@.subrange(at as int, at + m);
    let mut j: usize = 0;
    while j < m
        invariant
            m == pattern.len(),
            at + m <= s.len(),
            j <= m,
            window == s@.subrange(at as int, at + m),
            window.subrange(0, j as int) == pattern@.subrange(0, j as int),
        decreases m - j,
    {
        if s[at + j] != pattern[j] {
            assert(window[j as int] != pattern@[j as int]);
            return false;
        }
        assert(window.subrange(0, j + 1) == window.subrange(0, j as int).push(window[j as int]));
        assert(pattern@.subrange(0, j + 1) == pattern@.subrange(0, j as int).push(
            pattern@[j as int],
        ));
        j = j + 1;
    }
    assert(window.subrange(0, m as int) == window);
    assert(pattern@.subrange(0, m as int) == pattern@);
    true
}

/// Whether `s` begins with `prefix`.
pub fn starts_with(s: &str, prefix: &str) -> (r: bool)
    ensures
        r == has_prefix(s@, prefix@),
{
    let v = chars_of(s);
    let p = chars_of(prefix);
    if p.len() > v.len() {
        return false;
    }
    matches_at(&v, &p, 0)
}

/// Whether `pattern` stands somewhere in `s`.
pub fn contains(s: &str, pattern: &str) -> (r: bool)
    ensures
        r == has_substring(s@, pattern@),
{
    let v = chars_of(s);
    let p = chars_of(pattern);
    if p.len() > v.len() {
        assert(forall|at: int| !occurs_at(s@, pattern@, at));
        return false;
    }
    let last: usize = v.len() - p.len();
    let mut at: usize = 0;
    loop
        invariant
            v@ == s@,
            p@ == pattern@,
            p.len() <= v.len(),
            last == v.len() - p.len(),
            at <= last,
            forall|k: int| 0 <= k < at ==> !occurs_at(s@, pattern@, k),
        decreases last - at,
    {
        if matches_at(&v, &p, at) {
            return true;
        }
        if at == last {
            assert(forall|k: int| !occurs_at(s@, pattern@, k));
            return false;
        }
        at = at + 1;
    }
}

/// `a` followed by `b`.
pub fn join(a: &str, b: &str) -> (r: String)
    ensures
        r@ == a@ + b@,
{
    let mut r = copy_text(a);
    r.append(b);
    r
}


/// The index of the first `c` in `s`, or the length of `s` where it holds none.
pub open spec fn index_of(s: Seq<char>, c: char) -> int
    decreases s.len(),
{
    if s.len() == 0 || s[0] == c {
        0
    } else {
        1 + index_of(s.drop_first(), c)
    }
}

/// The pieces of `s` between the occurrences of `sep`, in order: one more piece
/// than `s` holds separators, empty pieces included.
pub open spec fn split_on(s: Seq<char>, sep: char) -> Seq<Seq<char>>
    decreases s.len(),
{
    let k = index_of(s, sep);
    if 0 <= k < s.len() {
        seq![s.subrange(0, k)] + split_on(s.subrange(k + 1, s.len() as int), sep)
    } else {
        seq![s]
    }
}

/// The views of a sequence of strings.
pub open spec fn texts(v: Seq<String>) -> Seq<Seq<char>> {
    v.map_values(|s: String| s@)
}

/// The lower-case form of a text, as `str::to_lowercase` gives it.
pub uninterp spec fn lowercase_of(s: Seq<char>) -> Seq<char>;

/// Turns a string to lower case with `str::to_lowercase`, which follows the
/// Unicode case mappings; the result is named by `lowercase_of`.
#[verifier::external_body]
pub(crate) fn lowercase(s: &str) -> (r: String)
    ensures
        r@ == lowercase_of(s@),
{
    s.to_lowercase()
}

/// `index_of` is the first index that holds `c`.
pub proof fn lemma_index_of(s: Seq<char>, c: char, k: int)
    requires
        0 <= k <= s.len(),
        forall|j: int| 0 <= j < k ==> s[j] != c,
        k == s.len() || s[k] == c,
    ensures
        index_of(s, c) == k,
    decreases k,
{
    if k > 0 {
        let t = s.drop_first();
        assert forall|j: int| 0 <= j < k - 1 implies t[j] != c by {
            assert(t[j] == s[j + 1]);
        }
        lemma_index_of(t, c, k - 1);
    }
}

/// The pieces of `s` between the occurrences of `sep`.
pub fn split(s: &str, sep: char) -> (parts: Vec<String>)
    ensures
        texts(parts@) == split_on(s@, sep),
{
    let v = chars_of(s);
    let n = v.len();
    let mut parts: Vec<String> = Vec::new();
    let mut start: usize = 0;
    let mut i: usize = 0;
    assert(v@.subrange(0, n as int) == v@);
    assert(texts(parts@) == Seq::<Seq<char>>::empty());
    while i < n
        invariant
            n == v.len(),
            start <= i <= n,
            v@ == s@,
            split_on(s@, sep) == texts(parts@) + split_on(v@.subrange(start as int, n as int), sep),
            forall|j: int| start <= j < i ==> v@[j] != sep,
        decreases n - i,
    {
        if v[i] == sep {
            let part = text_of(&v, start, i);
            proof {
                let rest = v@.subrange(start as int, n as int);
                assert forall|j: int| 0 <= j < i - start implies rest[j] != sep by {
                    assert(rest[j] == v@[start + j]);
                }
                assert(rest[i - start] == v@[i as int]);
                lemma_index_of(rest, sep, i - start);
                assert(rest.subrange(0, i - start) == part@);
                assert(rest.subrange(i - start + 1, rest.len() as int) == v@.subrange(
                    i + 1,
                    n as int,
                ));
                assert(texts(parts@.push(part)) == texts(parts@).push(part@));
                assert(texts(parts@) + (seq![part@] + split_on(v@.subrange(i + 1, n as int), sep))
                    == texts(parts@).push(part@) + split_on(v@.subrange(i + 1, n as int), sep));
            }
            parts.push(part);
            start = i + 1;
        }
        i = i + 1;
    }
    let part = text_of(&v, start, n);
    proof {
        let rest = v@.subrange(start as int, n as int);
        assert forall|j: int| 0 <= j < n - start implies rest[j] != sep by {
            assert(rest[j] == v@[start + j]);
        }
        lemma_index_of(rest, sep, n - start);
        assert(texts(parts@.push(part)) == texts(parts@).push(part@));
        assert(texts(parts@) + seq![rest] == texts(parts@).push(part@));
    }
    parts.push(part);
    parts
}


} // verus!
