//! Texts: integers written and read in decimal, as they appear inside
//! record identifiers, addresses and settings, and the counting of
//! characters.

use vstd::prelude::*;
use vstd::string::StringExecFns;
use vstd::std_specs::iter::IteratorSpec;

verus! {

/// The character that stands for one decimal digit.
pub open spec fn digit_char(d: int) -> char {
    if d == 0 {
        '0'
    } else if d == 1 {
        '1'
    } else if d == 2 {
        '2'
    } else if d == 3 {
        '3'
    } else if d == 4 {
        '4'
    } else if d == 5 {
        '5'
    } else if d == 6 {
        '6'
    } else if d == 7 {
        '7'
    } else if d == 8 {
        '8'
    } else {
        '9'
    }
}

/// The decimal digits of a natural number, most significant first, without
/// leading zeros; zero is the single digit `0`.
pub open spec fn nat_digits(n: nat) -> Seq<char>
    decreases n,
{
    if n < 10 {
        seq![digit_char(n as int)]
    } else {
        nat_digits(n / 10).push(digit_char((n % 10) as int))
    }
}

/// The decimal text of an integer: a minus sign for negative numbers, then
/// the digits of the magnitude.
pub open spec fn decimal(n: int) -> Seq<char> {
    if n < 0 {
        seq!['-'] + nat_digits((-n) as nat)
    } else {
        nat_digits(n as nat)
    }
}

/// Whether `c` does not occur in `s`.
pub open spec fn free_of(s: Seq<char>, c: char) -> bool {
    forall|i: int| 0 <= i < s.len() ==> s[i] != c
}

/// The digits of a natural number are at least one, and each is a decimal
/// digit.
pub proof fn lemma_nat_digits_are_digits(n: nat)
    ensures
        nat_digits(n).len() >= 1,
        n >= 10 ==> nat_digits(n).len() >= 2,
        forall|i: int|
            0 <= i < nat_digits(n).len() ==> '0' <= #[trigger] nat_digits(n)[i] <= '9',
    decreases n,
{
    if n >= 10 {
        lemma_nat_digits_are_digits(n / 10);
    }
}

/// Different natural numbers have different digits.
pub proof fn lemma_nat_digits_injective(a: nat, b: nat)
    requires
        nat_digits(a) == nat_digits(b),
    ensures
        a == b,
    decreases a,
{
    lemma_nat_digits_are_digits(a);
    lemma_nat_digits_are_digits(b);
    if a < 10 {
        assert(nat_digits(a).len() == 1);
        assert(nat_digits(a)[0] == digit_char(a as int));
        assert(nat_digits(b)[0] == digit_char(b as int));
    } else {
        assert(b >= 10) by {
            if b < 10 {
                assert(nat_digits(b).len() == 1);
            }
        }
        let da = digit_char((a % 10) as int);
        let db = digit_char((b % 10) as int);
        assert(nat_digits(a / 10).push(da).drop_last() =~= nat_digits(a / 10));
        assert(nat_digits(b / 10).push(db).drop_last() =~= nat_digits(b / 10));
        assert(nat_digits(a / 10).push(da).last() == da);
        assert(nat_digits(b / 10).push(db).last() == db);
        lemma_nat_digits_injective(a / 10, b / 10);
    }
}

/// The decimal text of an integer holds no character but digits and a
/// leading minus sign; in particular it is free of `_`.
pub proof fn lemma_decimal_free_of_underscore(n: int)
    ensures
        decimal(n).len() >= 1,
        free_of(decimal(n), '_'),
{
    if n < 0 {
        lemma_nat_digits_are_digits((-n) as nat);
    } else {
        lemma_nat_digits_are_digits(n as nat);
    }
}

/// Different integers have different decimal texts.
pub proof fn lemma_decimal_injective(a: int, b: int)
    requires
        decimal(a) == decimal(b),
    ensures
        a == b,
{
    let ma = (if a < 0 { -a } else { a }) as nat;
    let mb = (if b < 0 { -b } else { b }) as nat;
    lemma_nat_digits_are_digits(ma);
    lemma_nat_digits_are_digits(mb);
    if a < 0 && b < 0 {
        let x = seq!['-'] + nat_digits(ma);
        let y = seq!['-'] + nat_digits(mb);
        assert(x.subrange(1, x.len() as int) =~= nat_digits(ma));
        assert(y.subrange(1, y.len() as int) =~= nat_digits(mb));
        lemma_nat_digits_injective(ma, mb);
    } else if a >= 0 && b >= 0 {
        lemma_nat_digits_injective(ma, mb);
    } else if a < 0 {
        assert(decimal(a)[0] == '-');
        assert(decimal(b)[0] == nat_digits(mb)[0]);
    } else {
        assert(decimal(b)[0] == '-');
        assert(decimal(a)[0] == nat_digits(ma)[0]);
    }
}

/// A text is split at its first `c` in one way only: if two heads are free
/// of `c`, and each followed by `c` and a tail gives the same text, then the
/// heads are the same and so are the tails.
pub proof fn lemma_split_at_first(
    head_a: Seq<char>,
    tail_a: Seq<char>,
    head_b: Seq<char>,
    tail_b: Seq<char>,
    c: char,
)
    requires
        free_of(head_a, c),
        free_of(head_b, c),
        head_a + seq![c] + tail_a == head_b + seq![c] + tail_b,
    ensures
        head_a == head_b,
        tail_a == tail_b,
{
    let a = head_a + seq![c] + tail_a;
    let b = head_b + seq![c] + tail_b;
    let la = head_a.len() as int;
    let lb = head_b.len() as int;
    assert(a[la] == c);
    assert(b[lb] == c);
    if la < lb {
        assert(b[la] == head_b[la]);
    }
    if lb < la {
        assert(a[lb] == head_a[lb]);
    }
    assert(la == lb);
    assert forall|i: int| 0 <= i < la implies head_a[i] == head_b[i] by {
        assert(a[i] == head_a[i]);
        assert(b[i] == head_b[i]);
    }
    assert(head_a =~= head_b);
    assert(a.subrange(la + 1, a.len() as int) =~= tail_a);
    assert(b.subrange(lb + 1, b.len() as int) =~= tail_b);
}

/// One decimal digit as a string slice.
fn digit_str(d: u8) -> (s: &'static str)
    requires
        d < 10,
    ensures
        s@ == seq![digit_char(d as int)],
{
    proof {
        reveal_strlit("0");
        reveal_strlit("1");
        reveal_strlit("2");
        reveal_strlit("3");
        reveal_strlit("4");
        reveal_strlit("5");
        reveal_strlit("6");
        reveal_strlit("7");
        reveal_strlit("8");
        reveal_strlit("9");
    }
    let s = match d {
        0 => "0",
        1 => "1",
        2 => "2",
        3 => "3",
        4 => "4",
        5 => "5",
        6 => "6",
        7 => "7",
        8 => "8",
        _ => "9",
    };
    assert(s@ =~= seq![digit_char(d as int)]);
    s
}

/// Appends the decimal digits of `n` to `out`.
pub fn push_nat_digits(out: &mut String, n: u64)
    ensures
        final(out)@ == old(out)@ + nat_digits(n as nat),
    decreases n,
{
    if n >= 10 {
        push_nat_digits(out, n / 10);
    }
    let d: u8 = (n % 10) as u8;
    out.append(digit_str(d));
    assert(out@ =~= old(out)@ + nat_digits(n as nat));
}

/// Appends the decimal text of `n` to `out`.
pub fn push_decimal(out: &mut String, n: i64)
    ensures
        final(out)@ == old(out)@ + decimal(n as int),
{
    if n < 0 {
        proof {
            reveal_strlit("-");
        }
        out.append("-");
        let magnitude: u64 = ((-(n + 1)) as u64) + 1;
        push_nat_digits(out, magnitude);
        assert(out@ =~= old(out)@ + decimal(n as int));
    } else {
        push_nat_digits(out, n as u64);
    }
}

/// The decimal text of `n` as an owned string.
pub fn decimal_string(n: i64) -> (s: String)
    ensures
        s@ == decimal(n as int),
{
    let mut s = String::new();
    push_decimal(&mut s, n);
    assert(s@ =~= decimal(n as int));
    s
}

/// How often `c` occurs in `s`.
pub open spec fn occurrences(s: Seq<char>, c: char) -> nat
    decreases s.len(),
{
    if s.len() == 0 {
        0
    } else {
        occurrences(s.drop_last(), c) + if s.last() == c {
            1nat
        } else {
            0nat
        }
    }
}

/// Counts how often `c` occurs in `s`.
pub fn count_char(s: &str, c: char) -> (n: usize)
    ensures
        n == occurrences(s@, c),
{
    let length = s.unicode_len();
    let mut n: usize = 0;
    let mut i: usize = 0;
    let mut chars = s.chars();
    loop
        invariant
            chars.obeys_prophetic_iter_laws(),
            s@.len() == length,
            i <= s@.len(),
            chars.remaining() == s@.skip(i as int),
            n == occurrences(s@.take(i as int), c),
            n <= i,
        ensures
            n == occurrences(s@, c),
        decreases s@.len() - i,
    {
        let ghost before = chars;
        match chars.next() {
            Some(ch) => {
                proof {
                    vstd::string::next_postcondition(&before, &chars, Some(ch));
                    assert(s@.take(i + 1).drop_last() =~= s@.take(i as int));
                    assert(s@.skip(i as int).drop_first() =~= s@.skip(i + 1));
                }
                if ch == c {
                    n = n + 1;
                }
                i = i + 1;
            },
            None => {
                proof {
                    vstd::string::next_postcondition(&before, &chars, None);
                    assert(s@.take(i as int) =~= s@);
                }
                break ;
            },
        }
    }
    n
}

/// The value of a decimal digit; `None` for any other character.
pub open spec fn digit_value(c: char) -> Option<nat> {
    if '0' <= c <= '9' {
        Some((c as nat - '0' as nat) as nat)
    } else {
        None
    }
}

/// The number that a text of decimal digits stands for; `None` if the text
/// is empty or holds anything but digits. Leading zeros are allowed.
pub open spec fn digits_value(s: Seq<char>) -> Option<nat>
    decreases s.len(),
{
    if s.len() == 0 {
        None
    } else if s.len() == 1 {
        digit_value(s[0])
    } else {
        match (digits_value(s.drop_last()), digit_value(s.last())) {
            (Some(high), Some(low)) => Some(high * 10 + low),
            _ => None,
        }
    }
}

/// The integer that a text stands for: decimal digits, with `+` or `-` in
/// front if signed. `None` for any other text.
pub open spec fn integer_value(s: Seq<char>) -> Option<int> {
    if s.len() > 0 && s[0] == '-' {
        match digits_value(s.skip(1)) {
            Some(v) => Some(-(v as int)),
            None => None,
        }
    } else if s.len() > 0 && s[0] == '+' {
        match digits_value(s.skip(1)) {
            Some(v) => Some(v as int),
            None => None,
        }
    } else {
        match digits_value(s) {
            Some(v) => Some(v as int),
            None => None,
        }
    }
}

/// The natural number that a text stands for: decimal digits, with `+` in
/// front if any sign. `None` for any other text.
pub open spec fn natural_value(s: Seq<char>) -> Option<nat> {
    if s.len() > 0 && s[0] == '+' {
        digits_value(s.skip(1))
    } else {
        digits_value(s)
    }
}

/// A text of digits stands for a number that is at least as large as the
/// number that any of its beginnings stands for.
pub proof fn lemma_digits_value_grows(s: Seq<char>, k: int)
    requires
        0 < k <= s.len(),
        digits_value(s) is Some,
    ensures
        digits_value(s.take(k)) is Some,
        digits_value(s.take(k))->0 <= digits_value(s)->0,
    decreases s.len(),
{
    if k == s.len() {
        assert(s.take(k) =~= s);
    } else {
        assert(s.drop_last().take(k) =~= s.take(k));
        lemma_digits_value_grows(s.drop_last(), k);
    }
}

/// The digits of a natural number stand for that number.
pub proof fn lemma_digits_round_trip(n: nat)
    ensures
        digits_value(nat_digits(n)) == Some(n),
    decreases n,
{
    lemma_nat_digits_are_digits(n);
    if n >= 10 {
        lemma_digits_round_trip(n / 10);
        lemma_nat_digits_are_digits(n / 10);
        let d = digit_char((n % 10) as int);
        assert(nat_digits(n).drop_last() =~= nat_digits(n / 10));
        assert(nat_digits(n).last() == d);
        assert(digit_value(d) == Some((n % 10) as nat));
    } else {
        assert(digit_value(digit_char(n as int)) == Some(n));
    }
}

/// The decimal text of an integer stands for that integer.
pub proof fn lemma_decimal_round_trip(n: int)
    ensures
        integer_value(decimal(n)) == Some(n),
{
    if n < 0 {
        let m = (-n) as nat;
        lemma_digits_round_trip(m);
        assert(decimal(n).skip(1) =~= nat_digits(m));
    } else {
        lemma_digits_round_trip(n as nat);
        lemma_nat_digits_are_digits(n as nat);
        assert(decimal(n)[0] != '-' && decimal(n)[0] != '+');
    }
}

/// Reads a text of decimal digits as a number, starting at character number
/// `from`. `None` if there is no digit from there on, if any character from
/// there on is no digit, or if the number does not fit.
fn read_digits(text: &str, from: usize) -> (r: Option<u64>)
    requires
        from <= text@.len(),
    ensures
        r == match digits_value(text@.skip(from as int)) {
            Some(v) => if v <= u64::MAX {
                Some(v as u64)
            } else {
                None
            },
            None => None,
        },
{
    let length = text.unicode_len();
    let ghost body = text@.skip(from as int);
    if from >= length {
        assert(body.len() == 0);
        return None;
    }
    let mut value: u64 = 0;
    let mut i: usize = from;
    while i < length
        invariant
            from <= i <= length,
            length == text@.len(),
            body == text@.skip(from as int),
            i > from ==> digits_value(body.take(i - from)) == Some(value as nat),
            i == from ==> value == 0,
        decreases length - i,
    {
        let c = text.get_char(i);
        let ghost k = i - from;
        proof {
            assert(body[k] == c);
            assert(body.take(k + 1).drop_last() =~= body.take(k));
            assert(body.take(k + 1).last() == c);
        }
        if c < '0' || c > '9' {
            proof {
                assert(digits_value(body.take(k + 1)) is None);
                if digits_value(body) is Some {
                    lemma_digits_value_grows(body, k + 1);
                }
            }
            return None;
        }
        let d: u64 = (c as u64) - ('0' as u64);
        if value > (u64::MAX - d) / 10 {
            proof {
                let v = if k == 0 {
                    d as nat
                } else {
                    (value * 10 + d) as nat
                };
                assert(value * 10 + d > u64::MAX);
                assert(digits_value(body.take(k + 1)) == Some(v));
                if digits_value(body) is Some {
                    lemma_digits_value_grows(body, k + 1);
                }
            }
            return None;
        }
        value = value * 10 + d;
        i = i + 1;
    }
    proof {
        assert(body.take(length - from) =~= body);
    }
    Some(value)
}

/// Reads a text as a natural number: decimal digits, with `+` in front if
/// any sign. `None` if the text is anything else, or the number does not fit.
pub fn parse_u64(text: &str) -> (r: Option<u64>)
    ensures
        r == match natural_value(text@) {
            Some(v) => if v <= u64::MAX {
                Some(v as u64)
            } else {
                None
            },
            None => None,
        },
{
    let length = text.unicode_len();
    if length > 0 && text.get_char(0) == '+' {
        read_digits(text, 1)
    } else {
        assert(text@.skip(0) =~= text@);
        read_digits(text, 0)
    }
}

/// Reads a text as an integer: decimal digits, with `+` or `-` in front if
/// signed. `None` if the text is anything else, or the number does not fit.
pub fn parse_i64(text: &str) -> (r: Option<i64>)
    ensures
        r == match integer_value(text@) {
            Some(v) => if i64::MIN <= v <= i64::MAX {
                Some(v as i64)
            } else {
                None
            },
            None => None,
        },
{
    let length = text.unicode_len();
    if length > 0 && text.get_char(0) == '-' {
        match read_digits(text, 1) {
            Some(v) => if v <= 0x7fff_ffff_ffff_ffff {
                Some(-(v as i64))
            } else if v == 0x8000_0000_0000_0000 {
                Some(i64::MIN)
            } else {
                None
            },
            None => None,
        }
    } else if length > 0 && text.get_char(0) == '+' {
        match read_digits(text, 1) {
            Some(v) => if v <= 0x7fff_ffff_ffff_ffff {
                Some(v as i64)
            } else {
                None
            },
            None => None,
        }
    } else {
        assert(text@.skip(0) =~= text@);
        match read_digits(text, 0) {
            Some(v) => if v <= 0x7fff_ffff_ffff_ffff {
                Some(v as i64)
            } else {
                None
            },
            None => None,
        }
    }
}

/// A character occurs in two texts put together as often as in the one and
/// in the other taken together.
pub proof fn lemma_occurrences_concat(a: Seq<char>, b: Seq<char>, c: char)
    ensures
        occurrences(a + b, c) == occurrences(a, c) + occurrences(b, c),
    decreases b.len(),
{
    if b.len() == 0 {
        assert(a + b =~= a);
    } else {
        assert((a + b).drop_last() =~= a + b.drop_last());
        assert((a + b).last() == b.last());
        lemma_occurrences_concat(a, b.drop_last(), c);
    }
}

/// A character does not occur in a text that is free of it.
pub proof fn lemma_free_of_means_none(s: Seq<char>, c: char)
    requires
        free_of(s, c),
    ensures
        occurrences(s, c) == 0,
    decreases s.len(),
{
    if s.len() > 0 {
        assert(s.drop_last() =~= s.take(s.len() - 1));
        assert forall|i: int| 0 <= i < s.drop_last().len() implies s.drop_last()[i] != c by {
            assert(s.drop_last()[i] == s[i]);
        }
        lemma_free_of_means_none(s.drop_last(), c);
    }
}

/// The texts of a list put together, with `sep` between each two of them.
pub open spec fn joined(parts: Seq<Seq<char>>, sep: Seq<char>) -> Seq<char>
    decreases parts.len(),
{
    if parts.len() == 0 {
        Seq::<char>::empty()
    } else if parts.len() == 1 {
        parts[0]
    } else {
        joined(parts.drop_last(), sep) + sep + parts.last()
    }
}

/// How often a character occurs in all the texts of a list together.
pub open spec fn occurrences_in_all(parts: Seq<Seq<char>>, c: char) -> nat
    decreases parts.len(),
{
    if parts.len() == 0 {
        0
    } else {
        occurrences_in_all(parts.drop_last(), c) + occurrences(parts.last(), c)
    }
}

/// A character that the separator is free of occurs in a joined text as
/// often as in its parts.
pub proof fn lemma_occurrences_joined(parts: Seq<Seq<char>>, sep: Seq<char>, c: char)
    requires
        free_of(sep, c),
    ensures
        occurrences(joined(parts, sep), c) == occurrences_in_all(parts, c),
    decreases parts.len(),
{
    if parts.len() == 1 {
        assert(parts.drop_last().len() == 0);
        assert(occurrences_in_all(parts.drop_last(), c) == 0);
    } else if parts.len() > 1 {
        let front = joined(parts.drop_last(), sep);
        lemma_occurrences_joined(parts.drop_last(), sep, c);
        lemma_free_of_means_none(sep, c);
        lemma_occurrences_concat(front, sep, c);
        lemma_occurrences_concat(front + sep, parts.last(), c);
    }
}

/// Appends the texts of a list to `out`, with `sep` between each two of
/// them.
pub fn push_joined(out: &mut String, parts: &Vec<&'static str>, sep: &str)
    ensures
        final(out)@ == old(out)@ + joined(parts@.map_values(|p: &'static str| p@), sep@),
{
    let ghost texts = parts@.map_values(|p: &'static str| p@);
    let mut i: usize = 0;
    assert(texts.take(0) =~= Seq::<Seq<char>>::empty());
    assert(out@ =~= old(out)@ + joined(texts.take(0), sep@));
    while i < parts.len()
        invariant
            i <= parts@.len(),
            texts == parts@.map_values(|p: &'static str| p@),
            out@ == old(out)@ + joined(texts.take(i as int), sep@),
        decreases parts@.len() - i,
    {
        proof {
            assert(texts.take(i + 1).drop_last() =~= texts.take(i as int));
            assert(texts.take(i + 1).last() == parts@[i as int]@);
        }
        if i > 0 {
            out.append(sep);
        }
        out.append(parts[i]);
        i = i + 1;
        assert(out@ =~= old(out)@ + joined(texts.take(i as int), sep@));
    }
    assert(texts.take(parts@.len() as int) =~= texts);
}

} // verus!
