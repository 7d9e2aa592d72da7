//! Character-level text helpers shared by the client and the server logic:
//! decimal rendering of integers, substring search, whitespace trimming and
//! splitting at a separator character.
use vstd::prelude::*;

verus! {

/// `String::push` from std: appends one character to the end of the string.
#[verifier::external_body]
pub(crate) fn push_char(s: &mut String, c: char)
    ensures
        final(s)@ == old(s)@.push(c),
{
    s.push(c);
}

/// Builds an owned string with the same characters as `s`.
pub fn owned(s: &str) -> (r: String)
    ensures
        r@ == s@,
{
    s.to_owned()
}

/// Concatenation of two texts.
pub fn join2(a: &str, b: &str) -> (r: String)
    ensures
        r@ == a@ + b@,
{
    let mut r = owned(a);
    r.append(b);
    r
}

// ---------------------------------------------------------------------------
// Decimal rendering
// ---------------------------------------------------------------------------

/// The ASCII digit for `d` (expected in 0..10).
pub open spec fn digit_char(d: int) -> char {
    ((48 + d) as u32) as char
}

/// Decimal digits of a natural number, most significant first, no leading zeros.
pub open spec fn nat_decimal(n: nat) -> Seq<char>
    decreases n,
{
    if n < 10 {
        seq![digit_char(n as int)]
    } else {
        nat_decimal(n / 10).push(digit_char((n % 10) as int))
    }
}

/// Decimal rendering of an integer, with a leading `-` for negative values,
/// as Rust's `Display` for integers writes it.
pub open spec fn int_decimal(i: int) -> Seq<char> {
    if i < 0 {
        seq!['-'] + nat_decimal((-i) as nat)
    } else {
        nat_decimal(i as nat)
    }
}

fn digit(d: u128) -> (c: char)
    requires
        d < 10,
    ensures
        c == digit_char(d as int),
{
    let b: u8 = 48u8 + (d as u8);
    b as char
}

/// Appends the decimal digits of `n` to `s`.
pub fn push_decimal(s: &mut String, n: u128)
    ensures
        final(s)@ == old(s)@ + nat_decimal(n as nat),
    decreases n,
{
    if n >= 10 {
        push_decimal(s, n / 10);
    }
    push_char(s, digit(n % 10));
    assert(final(s)@ =~= old(s)@ + nat_decimal(n as nat));
}

/// Appends the decimal rendering of a signed integer to `s`.
pub fn push_int(s: &mut String, i: i64)
    ensures
        final(s)@ == old(s)@ + int_decimal(i as int),
{
    if i < 0 {
        push_char(s, '-');
        let m: i128 = 0i128 - (i as i128);
        push_decimal(s, m as u128);
        assert(final(s)@ =~= old(s)@ + int_decimal(i as int));
    } else {
        push_decimal(s, i as u128);
    }
}

/// The decimal rendering of a signed integer.
pub fn int_to_string(i: i64) -> (r: String)
    ensures
        r@ == int_decimal(i as int),
{
    let mut r = String::new();
    push_int(&mut r, i);
    assert(r@ =~= int_decimal(i as int));
    r
}

// ---------------------------------------------------------------------------
// Equality and search
// ---------------------------------------------------------------------------

/// Character-wise equality of two texts.
pub fn text_eq(a: &str, b: &str) -> (r: bool)
    ensures
        r == (a@ == b@),
{
    let x = owned(a);
    let y = owned(b);
    x == y
}

/// `needle` occurs in `hay` starting at position `i`.
pub open spec fn occurs_at(hay: Seq<char>, needle: Seq<char>, i: int) -> bool {
    0 <= i && i + needle.len() <= hay.len() && hay.subrange(i, i + needle.len()) == needle
}

/// `needle` occurs somewhere in `hay` (the empty text occurs in every text).
pub open spec fn contains_text(hay: Seq<char>, needle: Seq<char>) -> bool {
    exists|i: int| occurs_at(hay, needle, i)
}

fn matches_at(hay: &str, hlen: usize, needle: &str, nlen: usize, i: usize) -> (r: bool)
    requires
        hlen == hay@.len(),
        nlen == needle@.len(),
        i + nlen <= hlen,
    ensures
        r == occurs_at(hay@, needle@, i as int),
{
    let mut k: usize = 0;
    while k < nlen
        invariant
            hlen == hay@.len(),
            nlen == needle@.len(),
            i + nlen <= hlen,
            k <= nlen,
            forall|j: int| 0 <= j < k ==> hay@[i + j] == needle@[j],
        decreases nlen - k,
    {
        if hay.get_char(i + k) != needle.get_char(k) {
            assert(hay@.subrange(i as int, i + nlen)[k as int] != needle@[k as int]);
            return false;
        }
        k = k + 1;
    }
    assert(hay@.subrange(i as int, i + nlen) =~= needle@);
    true
}

/// Whether `needle` occurs in `hay`, as `str::contains` with a string pattern.
pub fn contains(hay: &str, needle: &str) -> (r: bool)
    ensures
        r == contains_text(hay@, needle@),
{
    let hlen = hay.unicode_len();
    let nlen = needle.unicode_len();
    if nlen > hlen {
        return false;
    }
    let mut i: usize = 0;
    loop
        invariant
            hlen == hay@.len(),
            nlen == needle@.len(),
            nlen <= hlen,
            i <= hlen - nlen,
            forall|j: int| 0 <= j < i ==> !occurs_at(hay@, needle@, j),
        decreases hlen - nlen - i,
    {
        if matches_at(hay, hlen, needle, nlen, i) {
            return true;
        }
        if i == hlen - nlen {
            return false;
        }
        i = i + 1;
    }
}

// ---------------------------------------------------------------------------
// Whitespace trimming
// ---------------------------------------------------------------------------

/// Unicode `White_Space`, the set that `char::is_whitespace` tests.
pub open spec fn is_ws(c: char) -> bool {
    let u = c as u32;
    ||| (0x9 <= u && u <= 0xd)
    ||| u == 0x20
    ||| u == 0x85
    ||| u == 0xa0
    ||| u == 0x1680
    ||| (0x2000 <= u && u <= 0x200a)
    ||| u == 0x2028
    ||| u == 0x2029
    ||| u == 0x202f
    ||| u == 0x205f
    ||| u == 0x3000
}

/// Whether `c` is Unicode whitespace.
pub fn is_whitespace(c: char) -> (r: bool)
    ensures
        r == is_ws(c),
{
    let u = c as u32;
    (0x9 <= u && u <= 0xd) || u == 0x20 || u == 0x85 || u == 0xa0 || u == 0x1680 || (0x2000 <= u
        && u <= 0x200a) || u == 0x2028 || u == 0x2029 || u == 0x202f || u == 0x205f || u == 0x3000
}

/// Drops leading whitespace.
pub open spec fn trim_front(s: Seq<char>) -> Seq<char>
    decreases s.len(),
{
    if s.len() > 0 && is_ws(s[0]) {
        trim_front(s.drop_first())
    } else {
        s
    }
}

/// Drops trailing whitespace.
pub open spec fn trim_back(s: Seq<char>) -> Seq<char>
    decreases s.len(),
{
    if s.len() > 0 && is_ws(s.last()) {
        trim_back(s.drop_last())
    } else {
        s
    }
}

/// Drops leading and trailing whitespace, as `str::trim` does.
pub open spec fn trimmed(s: Seq<char>) -> Seq<char> {
    trim_back(trim_front(s))
}

proof fn lemma_trim_front_skip(s: Seq<char>, i: int)
    requires
        0 <= i <= s.len(),
        forall|k: int| 0 <= k < i ==> is_ws(#[trigger] s[k]),
    ensures
        trim_front(s) == trim_front(s.subrange(i, s.len() as int)),
    decreases i,
{
    if i > 0 {
        assert(s.drop_first() =~= s.subrange(1, s.len() as int));
        lemma_trim_front_skip(s.drop_first(), i - 1);
        assert(s.drop_first().subrange(i - 1, s.drop_first().len() as int) =~= s.subrange(
            i,
            s.len() as int,
        ));
    } else {
        assert(s.subrange(0, s.len() as int) =~= s);
    }
}

proof fn lemma_trim_back_skip(s: Seq<char>, j: int)
    requires
        0 <= j <= s.len(),
        forall|k: int| j <= k < s.len() ==> is_ws(#[trigger] s[k]),
    ensures
        trim_back(s) == trim_back(s.subrange(0, j)),
    decreases s.len() - j,
{
    if j < s.len() {
        assert(s.drop_last() =~= s.subrange(0, s.len() - 1));
        lemma_trim_back_skip(s.drop_last(), j);
        assert(s.drop_last().subrange(0, j) =~= s.subrange(0, j));
    } else {
        assert(s.subrange(0, j) =~= s);
    }
}

/// `s` with leading and trailing whitespace removed.
pub fn trim<'a>(s: &'a str) -> (r: &'a str)
    ensures
        r@ == trimmed(s@),
{
    let n = s.unicode_len();
    let mut i: usize = 0;
    while i < n && is_whitespace(s.get_char(i))
        invariant
            n == s@.len(),
            i <= n,
            forall|k: int| 0 <= k < i ==> is_ws(#[trigger] s@[k]),
        decreases n - i,
    {
        i = i + 1;
    }
    proof {
        lemma_trim_front_skip(s@, i as int);
    }
    let ghost front = s@.subrange(i as int, n as int);
    let mut j: usize = n;
    while j > i && is_whitespace(s.get_char(j - 1))
        invariant
            n == s@.len(),
            i <= j <= n,
            front == s@.subrange(i as int, n as int),
            forall|k: int| j <= k < n ==> is_ws(#[trigger] s@[k]),
        decreases j,
    {
        j = j - 1;
    }
    proof {
        if i < n {
            assert(!is_ws(front[0]));
            assert(trim_front(front) == front);
        } else {
            assert(front.len() == 0);
        }
        assert forall|k: int| (j - i) <= k < front.len() implies is_ws(#[trigger] front[k]) by {
            assert(front[k] == s@[k + i]);
        }
        lemma_trim_back_skip(front, (j - i) as int);
        let fr = front.subrange(0, (j - i) as int);
        assert(fr =~= s@.subrange(i as int, j as int));
        if j > i {
            assert(fr.last() == s@[j - 1]);
        } else {
            assert(fr.len() == 0);
        }
        assert(trim_back(fr) == fr);
    }
    s.substring_char(i, j)
}

/// Whether the text has no characters.
pub fn is_empty_text(s: &str) -> (r: bool)
    ensures
        r == (s@.len() == 0),
{
    s.unicode_len() == 0
}

// ---------------------------------------------------------------------------
// Splitting at a separator
// ---------------------------------------------------------------------------

/// Index of the first occurrence of `c` in `s`, or the length when there is none.
pub open spec fn first_index_of(s: Seq<char>, c: char) -> int
    decreases s.len(),
{
    if s.len() == 0 {
        0
    } else if s[0] == c {
        0
    } else {
        1 + first_index_of(s.drop_first(), c)
    }
}

/// The part of `s` before the first `c`, or all of `s` when it holds no `c`
/// (what `s.split(c).next()` gives).
pub open spec fn before_first(s: Seq<char>, c: char) -> Seq<char> {
    s.subrange(0, first_index_of(s, c))
}

proof fn lemma_first_index_of(s: Seq<char>, c: char, i: int)
    requires
        0 <= i <= s.len(),
        forall|k: int| 0 <= k < i ==> #[trigger] s[k] != c,
        i == s.len() || s[i] == c,
    ensures
        first_index_of(s, c) == i,
    decreases i,
{
    if i > 0 {
        assert forall|k: int| 0 <= k < i - 1 implies #[trigger] s.drop_first()[k] != c by {
            assert(s.drop_first()[k] == s[k + 1]);
        }
        lemma_first_index_of(s.drop_first(), c, i - 1);
    }
}

/// The part of `s` before the first occurrence of `c` (all of `s` without one).
pub fn prefix_before<'a>(s: &'a str, c: char) -> (r: &'a str)
    ensures
        r@ == before_first(s@, c),
{
    let n = s.unicode_len();
    let mut i: usize = 0;
    while i < n && s.get_char(i) != c
        invariant
            n == s@.len(),
            i <= n,
            forall|k: int| 0 <= k < i ==> #[trigger] s@[k] != c,
        decreases n - i,
    {
        i = i + 1;
    }
    proof {
        lemma_first_index_of(s@, c, i as int);
    }
    s.substring_char(0, i)
}

/// The part of `s` after the first `c`, or nothing when `s` holds no `c`.
pub open spec fn after_first(s: Seq<char>, c: char) -> Seq<char> {
    if first_index_of(s, c) < s.len() {
        s.subrange(first_index_of(s, c) + 1, s.len() as int)
    } else {
        Seq::empty()
    }
}

/// The part of `s` after the first occurrence of `c` (nothing without one).
pub fn suffix_after<'a>(s: &'a str, c: char) -> (r: &'a str)
    ensures
        r@ == after_first(s@, c),
{
    let n = s.unicode_len();
    let mut i: usize = 0;
    while i < n && s.get_char(i) != c
        invariant
            n == s@.len(),
            i <= n,
            forall|k: int| 0 <= k < i ==> #[trigger] s@[k] != c,
        decreases n - i,
    {
        i = i + 1;
    }
    proof {
        lemma_first_index_of(s@, c, i as int);
    }
    if i < n {
        s.substring_char(i + 1, n)
    } else {
        s.substring_char(n, n)
    }
}

/// The part of `s` from the first `c` on (nothing when `s` holds no `c`).
pub open spec fn from_first(s: Seq<char>, c: char) -> Seq<char> {
    s.subrange(first_index_of(s, c), s.len() as int)
}

/// The part of `s` that starts at the first occurrence of `c`.
pub fn suffix_from<'a>(s: &'a str, c: char) -> (r: &'a str)
    ensures
        r@ == from_first(s@, c),
{
    let n = s.unicode_len();
    let mut i: usize = 0;
    while i < n && s.get_char(i) != c
        invariant
            n == s@.len(),
            i <= n,
            forall|k: int| 0 <= k < i ==> #[trigger] s@[k] != c,
        decreases n - i,
    {
        i = i + 1;
    }
    proof {
        lemma_first_index_of(s@, c, i as int);
    }
    s.substring_char(i, n)
}

/// `p` is a prefix of `s`.
pub open spec fn has_prefix(s: Seq<char>, p: Seq<char>) -> bool {
    p.len() <= s.len() && s.subrange(0, p.len() as int) == p
}

/// `s` without the leading `p`, when `s` starts with `p` (as `str::strip_prefix`).
pub fn strip_prefix<'a>(s: &'a str, p: &str) -> (r: Option<&'a str>)
    ensures
        r.is_some() == has_prefix(s@, p@),
        r.is_some() ==> r.unwrap()@ == s@.subrange(p@.len() as int, s@.len() as int),
{
    let n = s.unicode_len();
    let m = p.unicode_len();
    if m > n {
        return None;
    }
    if matches_at(s, n, p, m, 0) {
        Some(s.substring_char(m, n))
    } else {
        None
    }
}

// ---------------------------------------------------------------------------
// Integer parsing
// ---------------------------------------------------------------------------

/// An ASCII decimal digit.
pub open spec fn is_digit(c: char) -> bool {
    '0' <= c && c <= '9'
}

/// A non-empty run of ASCII digits.
pub open spec fn all_digits(d: Seq<char>) -> bool {
    d.len() > 0 && forall|i: int| 0 <= i < d.len() ==> is_digit(#[trigger] d[i])
}

/// The number a run of decimal digits denotes.
pub open spec fn digits_value(d: Seq<char>) -> int
    decreases d.len(),
{
    if d.len() == 0 {
        0
    } else {
        digits_value(d.drop_last()) * 10 + (d.last() as int - 48)
    }
}

/// The `i64` that `str::parse::<i64>` reads from `s`: an optional `+` or `-`,
/// then one or more ASCII digits, denoting a value within the range of `i64`;
/// `None` for any other text.
pub open spec fn i64_of_text(s: Seq<char>) -> Option<int> {
    if s.len() > 0 && s[0] == '-' {
        let d = s.drop_first();
        if all_digits(d) && -digits_value(d) >= i64::MIN {
            Some(-digits_value(d))
        } else {
            None
        }
    } else {
        let d = if s.len() > 0 && s[0] == '+' {
            s.drop_first()
        } else {
            s
        };
        if all_digits(d) && digits_value(d) <= i64::MAX {
            Some(digits_value(d))
        } else {
            None
        }
    }
}

proof fn lemma_digits_value_nonneg(d: Seq<char>)
    requires
        forall|i: int| 0 <= i < d.len() ==> is_digit(#[trigger] d[i]),
    ensures
        digits_value(d) >= 0,
    decreases d.len(),
{
    if d.len() > 0 {
        lemma_digits_value_nonneg(d.drop_last());
    }
}

proof fn lemma_digits_prefix_le(d: Seq<char>, k: int)
    requires
        0 <= k <= d.len(),
        forall|i: int| 0 <= i < d.len() ==> is_digit(#[trigger] d[i]),
    ensures
        digits_value(d.subrange(0, k)) <= digits_value(d),
    decreases d.len() - k,
{
    if k < d.len() {
        lemma_digits_prefix_le(d, k + 1);
        let p = d.subrange(0, k + 1);
        assert(p.drop_last() =~= d.subrange(0, k));
        lemma_digits_value_nonneg(d.subrange(0, k));
    } else {
        assert(d.subrange(0, k) =~= d);
    }
}

/// Reads the digits of `s` from position `start`; `None` when there are no
/// digits, a non-digit occurs, or the value exceeds `bound`.
fn parse_digits(s: &str, n: usize, start: usize, bound: i128) -> (r: Option<i128>)
    requires
        n == s@.len(),
        start <= n,
        0 <= bound <= 0x8000_0000_0000_0000,
    ensures
        ({
            let d = s@.subrange(start as int, n as int);
            match r {
                Some(v) => all_digits(d) && v == digits_value(d) && 0 <= v <= bound,
                None => !(all_digits(d) && digits_value(d) <= bound),
            }
        }),
{
    let ghost d = s@.subrange(start as int, n as int);
    if start == n {
        return None;
    }
    let mut acc: i128 = 0;
    let mut i: usize = start;
    while i < n
        invariant
            n == s@.len(),
            start < n,
            start <= i <= n,
            d == s@.subrange(start as int, n as int),
            0 <= bound <= 0x8000_0000_0000_0000,
            0 <= acc <= bound,
            forall|k: int| 0 <= k < i - start ==> is_digit(#[trigger] d[k]),
            acc == digits_value(d.subrange(0, i - start)),
        decreases n - i,
    {
        let c = s.get_char(i);
        assert(c == d[i - start]);
        if c < '0' || c > '9' {
            return None;
        }
        let dv = (c as u32 - 48) as i128;
        let next = acc * 10 + dv;
        proof {
            let p = d.subrange(0, i - start + 1);
            assert(p.drop_last() =~= d.subrange(0, i - start));
            assert(p.last() == c);
        }
        if next > bound {
            proof {
                let j = i - start + 1;
                if all_digits(d) {
                    lemma_digits_prefix_le(d, j);
                }
            }
            return None;
        }
        acc = next;
        i = i + 1;
    }
    assert(d.subrange(0, n - start) =~= d);
    Some(acc)
}

/// Parses a decimal `i64` as `str::parse::<i64>` does.
pub fn parse_i64(s: &str) -> (r: Option<i64>)
    ensures
        match r {
            Some(v) => i64_of_text(s@) == Some(v as int),
            None => i64_of_text(s@) is None,
        },
{
    let n = s.unicode_len();
    if n > 0 && s.get_char(0) == '-' {
        assert(s@.drop_first() =~= s@.subrange(1, n as int));
        match parse_digits(s, n, 1, 0x8000_0000_0000_0000) {
            Some(v) => Some((0i128 - v) as i64),
            None => None,
        }
    } else if n > 0 && s.get_char(0) == '+' {
        assert(s@.drop_first() =~= s@.subrange(1, n as int));
        match parse_digits(s, n, 1, 0x7fff_ffff_ffff_ffff) {
            Some(v) => Some(v as i64),
            None => None,
        }
    } else {
        assert(s@ =~= s@.subrange(0, n as int));
        match parse_digits(s, n, 0, 0x7fff_ffff_ffff_ffff) {
            Some(v) => Some(v as i64),
            None => None,
        }
    }
}

proof fn lemma_digit_char_value(d: int)
    requires
        0 <= d < 10,
    ensures
        digit_char(d) as int == 48 + d,
        is_digit(digit_char(d)),
{
    let u = (48 + d) as u32;
    assert(u as int == 48 + d);
    assert((u as char) as u32 == u);
}

proof fn lemma_nat_decimal_digits(n: nat)
    ensures
        all_digits(nat_decimal(n)),
        digits_value(nat_decimal(n)) == n,
    decreases n,
{
    let s = nat_decimal(n);
    lemma_digit_char_value((n % 10) as int);
    if n < 10 {
        assert(s.drop_last() =~= Seq::<char>::empty());
        assert(digits_value(s.drop_last()) == 0);
        assert(s.last() == digit_char(n as int));
    } else {
        lemma_nat_decimal_digits(n / 10);
        assert(s.drop_last() =~= nat_decimal(n / 10));
        assert(s.last() == digit_char((n % 10) as int));
        assert((n / 10) * 10 + n % 10 == n);
        assert forall|i: int| 0 <= i < s.len() implies is_digit(#[trigger] s[i]) by {
            if i < s.len() - 1 {
                assert(s[i] == nat_decimal(n / 10)[i]);
            }
        }
    }
}

/// Reading back a rendered integer gives the integer: the decimal text the
/// server sends for a new id is parsed by the client into that same id.
pub proof fn law_decimal_round_trip(i: i64)
    ensures
        i64_of_text(int_decimal(i as int)) == Some(i as int),
{
    if i < 0 {
        let m = (-(i as int)) as nat;
        lemma_nat_decimal_digits(m);
        let t = int_decimal(i as int);
        assert(t[0] == '-');
        assert(t.drop_first() =~= nat_decimal(m));
    } else {
        lemma_nat_decimal_digits(i as nat);
        let t = int_decimal(i as int);
        assert(is_digit(t[0]));
    }
}

} // verus!
