//! Text as sequences of characters: cutting at a separator, comparing, and
//! writing and reading decimal numbers.

use vstd::prelude::*;

verus! {

/// The index of the first `c` in `s`, or the length of `s` when it holds none.
pub open spec fn position(s: Seq<char>, c: char) -> int
    decreases s.len(),
{
    if s.len() == 0 {
        0
    } else if s[0] == c {
        0
    } else {
        1 + position(s.drop_first(), c)
    }
}

/// `position` is the one index that has no `c` before it and either ends `s`
/// or holds `c`.
pub proof fn lemma_position(s: Seq<char>, c: char)
    ensures
        0 <= position(s, c) <= s.len(),
        forall|j: int| 0 <= j < position(s, c) ==> s[j] != c,
        position(s, c) < s.len() ==> s[position(s, c)] == c,
    decreases s.len(),
{
    if s.len() > 0 && s[0] != c {
        let t = s.drop_first();
        lemma_position(t, c);
        assert forall|j: int| 0 <= j < position(s, c) implies s[j] != c by {
            if j > 0 {
                assert(s[j] == t[j - 1]);
            }
        }
    }
}

/// Any index with the two properties of `position` is `position`.
pub proof fn lemma_position_unique(s: Seq<char>, c: char, p: int)
    requires
        0 <= p <= s.len(),
        forall|j: int| 0 <= j < p ==> s[j] != c,
        p < s.len() ==> s[p] == c,
    ensures
        position(s, c) == p,
{
    lemma_position(s, c);
    let q = position(s, c);
    if q < p {
        assert(s[q] != c);
    } else if p < q {
        assert(s[p] != c);
    }
}

/// Whether `s` holds `c` anywhere.
pub open spec fn occurs(s: Seq<char>, c: char) -> bool {
    position(s, c) < s.len()
}

/// What stands before the first `c`; all of `s` when it holds none.
pub open spec fn before(s: Seq<char>, c: char) -> Seq<char> {
    s.subrange(0, position(s, c))
}

/// What stands after the first `c`; nothing when `s` holds none.
pub open spec fn after(s: Seq<char>, c: char) -> Seq<char> {
    if occurs(s, c) {
        s.subrange(position(s, c) + 1, s.len() as int)
    } else {
        Seq::empty()
    }
}

/// The characters of `s`, one by one.
pub fn chars_of(s: &str) -> (v: Vec<char>)
    ensures
        v@ == s@,
{
    let mut v: Vec<char> = Vec::new();
    for c in it: s.chars()
        invariant
            it.seq() == s@,
            v@ == s@.take(it.index() as int),
    {
        assert(s@.take(it.index() + 1) == s@.take(it.index() as int).push(c));
        v.push(c);
    }
    assert(s@.take(s@.len() as int) == s@);
    v
}

/// Whether two texts hold the same characters.
pub fn same(a: &str, b: &str) -> (r: bool)
    ensures
        r == (a@ == b@),
{
    let x = a.to_owned();
    let y = b.to_owned();
    x == y
}

/// The index of the first `c` in `v` from `from` on, or the length of `v`
/// when none follows.
pub fn find(v: &Vec<char>, from: usize, c: char) -> (p: usize)
    requires
        from <= v.len(),
    ensures
        p == from + position(v@.subrange(from as int, v.len() as int), c),
        from <= p <= v.len(),
{
    let ghost tail = v@.subrange(from as int, v.len() as int);
    let mut i: usize = from;
    while i < v.len() && v[i] != c
        invariant
            from <= i <= v.len(),
            tail == v@.subrange(from as int, v.len() as int),
            forall|j: int| 0 <= j < i - from ==> tail[j] != c,
        decreases v.len() - i,
    {
        i += 1;
    }
    proof {
        lemma_position_unique(tail, c, i - from);
    }
    i
}

/// A text made of a head without `c`, then `c`, then a tail is cut into that
/// head and that tail.
pub proof fn lemma_cut(head: Seq<char>, c: char, tail: Seq<char>)
    requires
        !occurs(head, c),
    ensures
        occurs(head + seq![c] + tail, c),
        before(head + seq![c] + tail, c) == head,
        after(head + seq![c] + tail, c) == tail,
{
    let s = head + seq![c] + tail;
    let p = head.len() as int;
    lemma_position(head, c);
    assert forall|j: int| 0 <= j < p implies s[j] != c by {
        assert(s[j] == head[j]);
    }
    assert(s[p] == c);
    lemma_position_unique(s, c, p);
    assert(s.subrange(0, p) =~= head);
    assert(s.subrange(p + 1, s.len() as int) =~= tail);
}

/// A text in which `c` stands nowhere does not hold it.
pub proof fn lemma_absent(s: Seq<char>, c: char)
    requires
        forall|j: int| 0 <= j < s.len() ==> s[j] != c,
    ensures
        !occurs(s, c),
{
    lemma_position_unique(s, c, s.len() as int);
}

/// Cuts `t` at its first `c`: what stands before it, what stands after it,
/// and whether `t` holds `c` at all.
pub fn cut(t: &str, c: char) -> (r: (&str, &str, bool))
    ensures
        r.0@ == before(t@, c),
        r.1@ == after(t@, c),
        r.2 == occurs(t@, c),
{
    let cs = chars_of(t);
    let n = cs.len();
    assert(cs@.subrange(0, n as int) == t@);
    let p = find(&cs, 0, c);
    let head = t.substring_char(0, p);
    if p == n {
        let tail = t.substring_char(n, n);
        assert(tail@ =~= after(t@, c));
        (head, tail, false)
    } else {
        (head, t.substring_char(p + 1, n), true)
    }
}

/// The character that writes the digit `d`.
pub open spec fn digit(d: int) -> char {
    if d == 0 {
        '0'
    } else if d == 1 {
        '1'
    } else if d == 2 {
        '2'
    } else if d == 3 {
        '3'
    } else if d == 4 {
        '4'
    } else if d == 5 {
        '5'
    } else if d == 6 {
        '6'
    } else if d == 7 {
        '7'
    } else if d == 8 {
        '8'
    } else {
        '9'
    }
}

/// The decimal writing of `n`: no sign, no leading zero but for zero itself.
pub open spec fn decimal(n: nat) -> Seq<char>
    decreases n,
{
    if n < 10 {
        seq![digit(n as int)]
    } else {
        decimal(n / 10).push(digit((n % 10) as int))
    }
}

fn digit_text(d: u64) -> (t: &'static str)
    requires
        d < 10,
    ensures
        t@ == seq![digit(d as int)],
{
    proof {
        reveal_strlit("0");
        reveal_strlit("1");
        reveal_strlit("2");
        reveal_strlit("3");
        reveal_strlit("4");
        reveal_strlit("5");
        reveal_strlit("6");
        reveal_strlit("7");
        reveal_strlit("8");
        reveal_strlit("9");
    }
    let t = if d == 0 {
        "0"
    } else if d == 1 {
        "1"
    } else if d == 2 {
        "2"
    } else if d == 3 {
        "3"
    } else if d == 4 {
        "4"
    } else if d == 5 {
        "5"
    } else if d == 6 {
        "6"
    } else if d == 7 {
        "7"
    } else if d == 8 {
        "8"
    } else {
        "9"
    };
    assert(t@ =~= seq![digit(d as int)]);
    t
}

/// Appends the decimal writing of `n` to `out`.
pub fn push_decimal(out: &mut String, n: u64)
    ensures
        final(out)@ == old(out)@ + decimal(n as nat),
    decreases n,
{
    if n >= 10 {
        push_decimal(out, n / 10);
    }
    out.append(digit_text(n % 10));
    assert(final(out)@ =~= old(out)@ + decimal(n as nat));
}

/// The digit that `c` writes, or -1 when `c` is no decimal digit.
pub open spec fn digit_value(c: char) -> int {
    if c == '0' {
        0
    } else if c == '1' {
        1
    } else if c == '2' {
        2
    } else if c == '3' {
        3
    } else if c == '4' {
        4
    } else if c == '5' {
        5
    } else if c == '6' {
        6
    } else if c == '7' {
        7
    } else if c == '8' {
        8
    } else if c == '9' {
        9
    } else {
        -1
    }
}

/// Whether `s` holds decimal digits only.
pub open spec fn all_digits(s: Seq<char>) -> bool {
    forall|i: int| 0 <= i < s.len() ==> digit_value(#[trigger] s[i]) >= 0
}

/// The number that the digits of `s` write, the first digit weighing most.
pub open spec fn digits_value(s: Seq<char>) -> nat
    decreases s.len(),
{
    if s.len() == 0 {
        0
    } else {
        (digits_value(s.drop_last()) * 10 + digit_value(s.last())) as nat
    }
}

/// The number that `s` writes, if it writes one: a plus sign may lead, and at
/// least one digit follows, and nothing else.
pub open spec fn unsigned(s: Seq<char>) -> Option<nat> {
    let digits = if s.len() > 0 && s[0] == '+' {
        s.drop_first()
    } else {
        s
    };
    if digits.len() > 0 && all_digits(digits) {
        Some(digits_value(digits))
    } else {
        None
    }
}

/// `ParseIntError` of std: why a text was refused as an integer. Nothing of
/// what it holds is known to the contracts.
#[verifier::external_type_specification]
#[verifier::external_body]
pub struct ExParseIntError(std::num::ParseIntError);

/// `Clone::clone` of std on its `ParseIntError`: a copy of the error.
pub assume_specification[ <std::num::ParseIntError as Clone>::clone ](
    e: &std::num::ParseIntError,
) -> (r: std::num::ParseIntError)
    ensures
        r == *e,
;

/// The error with which std refuses to read `s` as a `u8`.
pub uninterp spec fn u8_failure(s: Seq<char>) -> std::num::ParseIntError;

/// The error with which std refuses to read `s` as a `u16`.
pub uninterp spec fn u16_failure(s: Seq<char>) -> std::num::ParseIntError;

/// What reading `s` as a `u8` gives.
pub open spec fn u8_read(s: Seq<char>) -> Result<u8, std::num::ParseIntError> {
    if unsigned(s) is Some && unsigned(s)->Some_0 <= u8::MAX {
        Ok(unsigned(s)->Some_0 as u8)
    } else {
        Err(u8_failure(s))
    }
}

/// What reading `s` as a `u16` gives.
pub open spec fn u16_read(s: Seq<char>) -> Result<u16, std::num::ParseIntError> {
    if unsigned(s) is Some && unsigned(s)->Some_0 <= u16::MAX {
        Ok(unsigned(s)->Some_0 as u16)
    } else {
        Err(u16_failure(s))
    }
}

/// `str::parse` of std to a `u8`: the text is read as an optional plus sign
/// followed by decimal digits only, and the number they write is returned
/// when it fits. Any other text is refused, with an error that depends on
/// the text alone.
#[verifier::external_body]
pub(crate) fn read_u8(s: &str) -> (r: Result<u8, std::num::ParseIntError>)
    ensures
        r == (if unsigned(s@) is Some && unsigned(s@)->Some_0 <= u8::MAX {
            Ok::<u8, std::num::ParseIntError>(unsigned(s@)->Some_0 as u8)
        } else {
            Err(u8_failure(s@))
        }),
{
    s.parse::<u8>()
}

/// `str::parse` of std to a `u16`: the text is read as an optional plus sign
/// followed by decimal digits only, and the number they write is returned
/// when it fits. Any other text is refused, with an error that depends on
/// the text alone.
#[verifier::external_body]
pub(crate) fn read_u16(s: &str) -> (r: Result<u16, std::num::ParseIntError>)
    ensures
        r == (if unsigned(s@) is Some && unsigned(s@)->Some_0 <= u16::MAX {
            Ok::<u16, std::num::ParseIntError>(unsigned(s@)->Some_0 as u16)
        } else {
            Err(u16_failure(s@))
        }),
{
    s.parse::<u16>()
}

/// Whether `s` begins with all of `prefix`.
pub open spec fn begins(s: Seq<char>, prefix: Seq<char>) -> bool {
    prefix.len() <= s.len() && s.subrange(0, prefix.len() as int) == prefix
}

/// Whether `v` begins with all of `prefix`.
pub fn starts_with(v: &Vec<char>, prefix: &str) -> (r: bool)
    ensures
        r == begins(v@, prefix@),
{
    let p = chars_of(prefix);
    if p.len() > v.len() {
        return false;
    }
    let mut i: usize = 0;
    while i < p.len()
        invariant
            i <= p.len() <= v.len(),
            p@ == prefix@,
            forall|j: int| 0 <= j < i ==> v@[j] == p@[j],
        decreases p.len() - i,
    {
        if v[i] != p[i] {
            assert(v@.subrange(0, p.len() as int)[i as int] != p@[i as int]);
            return false;
        }
        i += 1;
    }
    assert(v@.subrange(0, p.len() as int) =~= p@);
    true
}

/// The digit that `c` writes, if it writes one.
pub fn digit_of(c: char) -> (d: Option<u64>)
    ensures
        d is Some <==> digit_value(c) >= 0,
        d is Some ==> d->Some_0 == digit_value(c),
{
    if c == '0' {
        Some(0)
    } else if c == '1' {
        Some(1)
    } else if c == '2' {
        Some(2)
    } else if c == '3' {
        Some(3)
    } else if c == '4' {
        Some(4)
    } else if c == '5' {
        Some(5)
    } else if c == '6' {
        Some(6)
    } else if c == '7' {
        Some(7)
    } else if c == '8' {
        Some(8)
    } else if c == '9' {
        Some(9)
    } else {
        None
    }
}

/// Digits that continue a number do not make it smaller.
pub proof fn lemma_digits_grow(s: Seq<char>, k: int)
    requires
        all_digits(s),
        0 <= k <= s.len(),
    ensures
        digits_value(s.take(k)) <= digits_value(s),
    decreases s.len() - k,
{
    if k < s.len() {
        let t = s.drop_last();
        assert(t.take(k) =~= s.take(k));
        assert(digit_value(s[s.len() - 1]) >= 0);
        assert forall|i: int| 0 <= i < t.len() implies digit_value(#[trigger] t[i]) >= 0 by {
            assert(t[i] == s[i]);
        }
        lemma_digits_grow(t, k);
    } else {
        assert(s.take(k) =~= s);
    }
}

/// What reading `s` as a `u64` gives: the number it writes, when it writes
/// one that fits.
pub open spec fn u64_read(s: Seq<char>) -> Option<u64> {
    if unsigned(s) is Some && unsigned(s)->Some_0 <= u64::MAX {
        Some(unsigned(s)->Some_0 as u64)
    } else {
        None
    }
}

/// Reads a number from its decimal writing.
pub fn read_u64(s: &str) -> (r: Option<u64>)
    ensures
        r == u64_read(s@),
{
    let cs = chars_of(s);
    let n = cs.len();
    let start: usize = if n > 0 && cs[0] == '+' {
        1
    } else {
        0
    };
    let ghost digits = cs@.subrange(start as int, n as int);
    assert(digits =~= if s@.len() > 0 && s@[0] == '+' {
        s@.drop_first()
    } else {
        s@
    });
    if start == n {
        return None;
    }
    let mut value: u64 = 0;
    let mut i: usize = start;
    while i < n
        invariant
            start <= i <= n,
            n == cs.len(),
            digits == cs@.subrange(start as int, n as int),
            digits == if s@.len() > 0 && s@[0] == '+' {
                s@.drop_first()
            } else {
                s@
            },
            all_digits(digits.take(i - start)),
            value == digits_value(digits.take(i - start)),
        decreases n - i,
    {
        let ghost read = digits.take(i - start);
        let ghost more = digits.take(i - start + 1);
        proof {
            assert(more.drop_last() =~= read);
            assert(more.last() == cs@[i as int]);
        }
        let d = match digit_of(cs[i]) {
            Some(d) => d,
            None => {
                assert(digits[i - start] == cs@[i as int]);
                assert(!all_digits(digits));
                return None;
            },
        };
        assert(all_digits(more)) by {
            assert forall|j: int| 0 <= j < more.len() implies digit_value(#[trigger] more[j])
                >= 0 by {
                if j < read.len() {
                    assert(more[j] == read[j]);
                }
            }
        }
        let next = match value.checked_mul(10) {
            Some(v) => v.checked_add(d),
            None => None,
        };
        match next {
            Some(v) => {
                value = v;
            },
            None => {
                proof {
                    assert(digits_value(more) == value * 10 + d);
                    assert(digits_value(more) > u64::MAX);
                    if all_digits(digits) {
                        lemma_digits_grow(digits, i - start + 1);
                        assert(digits_value(digits) > u64::MAX);
                    }
                }
                return None;
            },
        }
        i += 1;
    }
    assert(digits.take(n - start) =~= digits);
    Some(value)
}

/// What is written as a decimal number is read as that number: the writing
/// holds digits only, at least one, and they weigh what the number is.
pub proof fn lemma_decimal_read_back(n: nat)
    ensures
        decimal(n).len() > 0,
        all_digits(decimal(n)),
        digits_value(decimal(n)) == n,
        unsigned(decimal(n)) == Some(n),
    decreases n,
{
    if n < 10 {
        assert(decimal(n).drop_last() =~= Seq::<char>::empty());
        assert(digits_value(decimal(n).drop_last()) == 0);
    } else {
        lemma_decimal_read_back(n / 10);
        let head = decimal(n / 10);
        let last = digit((n % 10) as int);
        assert(decimal(n).drop_last() =~= head);
        assert(decimal(n).last() == last);
        assert(digit_value(last) == n % 10);
        assert forall|i: int| 0 <= i < decimal(n).len() implies digit_value(
            #[trigger] decimal(n)[i],
        ) >= 0 by {
            if i < head.len() {
                assert(decimal(n)[i] == head[i]);
            }
        }
        assert(decimal(n)[0] == head[0]);
    }
    assert(digit_value(decimal(n)[0]) >= 0);
}

} // verus!
