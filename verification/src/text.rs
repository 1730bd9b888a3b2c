//! Text: the characters of a string, decimal numbers and regular
//! expressions.
use vstd::prelude::*;
use regex::Regex;

verus! {

/// The characters of a string, one by one.
pub fn chars_of(s: &str) -> (v: Vec<char>)
    ensures
        v@ == s@,
{
    let mut v: Vec<char> = Vec::new();
    for c in it: s.chars()
        invariant
            it.seq() == s@,
            v@ == it.seq().take(it.index() as int),
    {
        v.push(c);
    }
    v
}

/// Whether two strings hold the same characters.
pub fn same_text(a: &str, b: &str) -> (r: bool)
    ensures
        r == (a@ == b@),
{
    let x = chars_of(a);
    let y = chars_of(b);
    if x.len() != y.len() {
        return false;
    }
    let mut i: usize = 0;
    while i < x.len()
        invariant
            i <= x.len(),
            x.len() == y.len(),
            x@ == a@,
            y@ == b@,
            forall|j: int| 0 <= j < i ==> x[j] == y[j],
        decreases x.len() - i,
    {
        if x[i] != y[i] {
            return false;
        }
        i += 1;
    }
    assert(x@ =~= y@);
    true
}

/// What a regular expression captures in a text.
///
/// This is the value of `Regex::captures` for the expression that
/// `Regex::new` compiles from `pattern`: nothing where the pattern does not
/// compile or the expression matches nowhere in `haystack`; otherwise, for
/// the leftmost match, the text of each group in the order of the opening
/// brackets, group 0 being the whole match, and nothing for a group that
/// took no part in the match.
pub uninterp spec fn regex_captures(pattern: Seq<char>, haystack: Seq<char>) -> Option<
    Seq<Option<Seq<char>>>,
>;

/// The groups of a match as plain values.
pub open spec fn groups_of(r: Option<Vec<Option<String>>>) -> Option<Seq<Option<Seq<char>>>> {
    match r {
        Some(v) => Some(
            Seq::new(
                v@.len(),
                |i: int|
                    match v@[i] {
                        Some(s) => Some(s@),
                        None => None,
                    },
            ),
        ),
        None => None,
    }
}

/// Calls `regex::Regex::new` on `pattern` and `regex::Regex::captures` on
/// the outcome and `haystack`.  The contract claims only that the groups
/// handed back are those that the two calls yield, which depend on the two
/// texts alone: `regex_captures` is their name.
#[verifier::external_body]
pub(crate) fn captures(pattern: &str, haystack: &str) -> (r: Option<Vec<Option<String>>>)
    ensures
        groups_of(r) == regex_captures(pattern@, haystack@),
{
    let re = match Regex::new(pattern) {
        Ok(re) => re,
        Err(_) => return None,
    };
    let caps = re.captures(haystack)?;
    Some(caps.iter().map(|m| m.map(|x| x.as_str().to_string())).collect())
}

/// The views of a list of strings.
pub open spec fn texts(v: Seq<String>) -> Seq<Seq<char>> {
    Seq::new(v.len(), |i: int| v[i]@)
}

/// The views of a list of string slices.
pub open spec fn slices(v: Seq<&str>) -> Seq<Seq<char>> {
    Seq::new(v.len(), |i: int| v[i]@)
}

/// The `n` fields among the groups of a match: the texts of the groups 1
/// to `n`, where there is a match, it has exactly these groups besides the
/// whole, and all of them took part in it.
pub open spec fn fields_in(groups: Option<Seq<Option<Seq<char>>>>, n: nat) -> Option<
    Seq<Seq<char>>,
> {
    match groups {
        Some(g) => if g.len() == n + 1 && (forall|i: int| 1 <= i <= n ==> (#[trigger] g[i]) is Some) {
            Some(Seq::new(n, |i: int| g[i + 1]->0))
        } else {
            None
        },
        None => None,
    }
}

/// The `n` fields of a text that has the form of `pattern`.
pub open spec fn fields(pattern: Seq<char>, haystack: Seq<char>, n: nat) -> Option<
    Seq<Seq<char>>,
> {
    fields_in(regex_captures(pattern, haystack), n)
}

/// The `n` fields among the groups `caps` of a match; none where there is
/// no match, where it has other groups than the whole and `n` more, or
/// where one of them took no part.
pub fn fields_of(caps: &Option<Vec<Option<String>>>, n: usize) -> (r: Option<Vec<String>>)
    ensures
        match r {
            Some(v) => v.len() == n && fields_in(groups_of(*caps), n as nat) == Some(texts(v@)),
            None => fields_in(groups_of(*caps), n as nat) is None,
        },
{
    let ghost g0 = groups_of(*caps);
    match caps {
        Some(v) => {
            let ghost g = g0->0;
            let len = v.len();
            assert(g.len() == len);
            if n == usize::MAX || len != n + 1 {
                return None;
            }
            let mut out: Vec<String> = Vec::new();
            let mut i: usize = 1;
            while i <= n
                invariant
                    1 <= i <= n + 1,
                    n < usize::MAX,
                    groups_of(*caps) == Some(g),
                    v.len() == n + 1,
                    g.len() == n + 1,
                    forall|j: int| 0 <= j <= n ==> g[j] == (match #[trigger] v@[j] {
                        Some(s) => Some(s@),
                        None => None,
                    }),
                    out.len() == i - 1,
                    forall|j: int| 1 <= j < i ==> (#[trigger] g[j]) is Some,
                    forall|j: int| 0 <= j < i - 1 ==> (#[trigger] out[j])@ == g[j + 1]->0,
                decreases n + 1 - i,
            {
                match &v[i] {
                    Some(s) => {
                        out.push(s.clone());
                    },
                    None => {
                        assert(g[i as int] is None);
                        return None;
                    },
                }
                i += 1;
            }
            assert(texts(out@) =~= Seq::new(n as nat, |i: int| g[i + 1]->0));
            Some(out)
        },
        None => None,
    }
}

/// The `n` fields that `pattern` frames in `haystack`; none where the text
/// has not the form of the pattern.
pub fn framed(pattern: &str, haystack: &str, n: usize) -> (r: Option<Vec<String>>)
    ensures
        match r {
            Some(v) => v.len() == n && fields(pattern@, haystack@, n as nat) == Some(texts(v@)),
            None => fields(pattern@, haystack@, n as nat) is None,
        },
{
    let caps = captures(pattern, haystack);
    fields_of(&caps, n)
}

/// The pieces of a text between the occurrences of a separator: one more
/// piece than there are separators, empty where two separators meet or one
/// stands at an end.
pub open spec fn split(s: Seq<char>, sep: char) -> Seq<Seq<char>>
    decreases s.len(),
{
    if s.len() == 0 {
        seq![Seq::empty()]
    } else {
        let before = split(s.drop_last(), sep);
        if s.last() == sep {
            before.push(Seq::empty())
        } else {
            before.drop_last().push(before.last().push(s.last()))
        }
    }
}

/// A split has a last piece.
pub proof fn lemma_split_len(s: Seq<char>, sep: char)
    ensures
        split(s, sep).len() >= 1,
    decreases s.len(),
{
    if s.len() > 0 {
        lemma_split_len(s.drop_last(), sep);
    }
}

/// The pieces of `line` between the occurrences of `sep`.
pub fn split_on<'a>(line: &'a str, sep: char) -> (r: Vec<&'a str>)
    ensures
        slices(r@) == split(line@, sep),
{
    let cs = chars_of(line);
    let n = cs.len();
    let mut out: Vec<&'a str> = Vec::new();
    let mut start: usize = 0;
    let mut i: usize = 0;
    proof {
        assert(line@.take(0) =~= Seq::<char>::empty());
        assert(slices(out@).push(line@.subrange(0, 0)) =~= seq![Seq::<char>::empty()]);
    }
    while i < n
        invariant
            cs@ == line@,
            n == cs.len(),
            start <= i <= n,
            slices(out@).push(line@.subrange(start as int, i as int)) == split(
                line@.take(i as int),
                sep,
            ),
        decreases n - i,
    {
        proof {
            assert(line@.take(i + 1).drop_last() =~= line@.take(i as int));
            assert(line@.take(i + 1).last() == cs[i as int]);
        }
        let ghost before = slices(out@);
        if cs[i] == sep {
            let piece = line.substring_char(start, i);
            out.push(piece);
            start = i + 1;
            proof {
                assert(slices(out@) =~= before.push(piece@));
                assert(line@.subrange(start as int, i + 1) =~= Seq::<char>::empty());
            }
        } else {
            proof {
                let cur = line@.subrange(start as int, i as int);
                assert(before.push(cur).drop_last() =~= before);
                assert(line@.subrange(start as int, i + 1) =~= cur.push(cs[i as int]));
            }
        }
        i += 1;
    }
    let ghost before = slices(out@);
    let piece = line.substring_char(start, n);
    out.push(piece);
    proof {
        assert(slices(out@) =~= before.push(piece@));
        assert(line@.take(n as int) =~= line@);
    }
    out
}

/// The character of a decimal digit.
pub open spec fn digit(d: int) -> char {
    if d == 0 {
        '0'
    } else if d == 1 {
        '1'
    } else if d == 2 {
        '2'
    } else if d == 3 {
        '3'
    } else if d == 4 {
        '4'
    } else if d == 5 {
        '5'
    } else if d == 6 {
        '6'
    } else if d == 7 {
        '7'
    } else if d == 8 {
        '8'
    } else {
        '9'
    }
}

/// The value of a decimal digit, and nothing for another character.
pub open spec fn digit_value(c: char) -> Option<int> {
    if c == '0' {
        Some(0)
    } else if c == '1' {
        Some(1)
    } else if c == '2' {
        Some(2)
    } else if c == '3' {
        Some(3)
    } else if c == '4' {
        Some(4)
    } else if c == '5' {
        Some(5)
    } else if c == '6' {
        Some(6)
    } else if c == '7' {
        Some(7)
    } else if c == '8' {
        Some(8)
    } else if c == '9' {
        Some(9)
    } else {
        None
    }
}

/// A natural number in decimal digits, without leading zeros.
pub open spec fn natural(n: nat) -> Seq<char>
    decreases n,
{
    if n < 10 {
        seq![digit(n as int)]
    } else {
        natural(n / 10).push(digit((n % 10) as int))
    }
}

/// An integer in decimal digits, with a minus sign where it is negative.
pub open spec fn decimal(n: int) -> Seq<char> {
    if n < 0 {
        seq!['-'] + natural((-n) as nat)
    } else {
        natural(n as nat)
    }
}

/// Every character is a decimal digit.
pub open spec fn all_digits(s: Seq<char>) -> bool {
    forall|i: int| 0 <= i < s.len() ==> digit_value(#[trigger] s[i]) is Some
}

/// The number that a row of decimal digits stands for.
pub open spec fn natural_value(s: Seq<char>) -> int
    decreases s.len(),
{
    if s.len() == 0 {
        0
    } else {
        natural_value(s.drop_last()) * 10 + digit_value(s.last()).unwrap_or(0)
    }
}

/// The integer that a text stands for: an optional sign, `+` or `-`, and
/// then one decimal digit or more; nothing for any other text.
pub open spec fn integer_value(s: Seq<char>) -> Option<int> {
    if s.len() > 0 && (s[0] == '-' || s[0] == '+') {
        let digits = s.subrange(1, s.len() as int);
        if digits.len() > 0 && all_digits(digits) {
            if s[0] == '-' {
                Some(-natural_value(digits))
            } else {
                Some(natural_value(digits))
            }
        } else {
            None
        }
    } else if s.len() > 0 && all_digits(s) {
        Some(natural_value(s))
    } else {
        None
    }
}

/// The integer that a text stands for, where it fits in 32 bits.
pub open spec fn i32_value(s: Seq<char>) -> Option<i32> {
    match integer_value(s) {
        Some(v) => if i32::MIN <= v <= i32::MAX {
            Some(v as i32)
        } else {
            None
        },
        None => None,
    }
}

fn digit_text(d: u32) -> (r: &'static str)
    requires
        d < 10,
    ensures
        r@ == seq![digit(d as int)],
{
    proof {
        reveal_strlit("0");
        reveal_strlit("1");
        reveal_strlit("2");
        reveal_strlit("3");
        reveal_strlit("4");
        reveal_strlit("5");
        reveal_strlit("6");
        reveal_strlit("7");
        reveal_strlit("8");
        reveal_strlit("9");
    }
    let r = if d == 0 {
        "0"
    } else if d == 1 {
        "1"
    } else if d == 2 {
        "2"
    } else if d == 3 {
        "3"
    } else if d == 4 {
        "4"
    } else if d == 5 {
        "5"
    } else if d == 6 {
        "6"
    } else if d == 7 {
        "7"
    } else if d == 8 {
        "8"
    } else {
        "9"
    };
    assert(r@ =~= seq![digit(d as int)]);
    r
}

fn natural_to_string(n: u32) -> (r: String)
    ensures
        r@ == natural(n as nat),
    decreases n,
{
    if n < 10 {
        String::from_str(digit_text(n))
    } else {
        let mut s = natural_to_string(n / 10);
        s.append(digit_text(n % 10));
        assert(s@ =~= natural((n / 10) as nat).push(digit((n % 10) as int)));
        s
    }
}

/// A 32-bit integer in decimal digits.
pub fn i32_to_string(n: i32) -> (r: String)
    ensures
        r@ == decimal(n as int),
{
    if n < 0 {
        let m: u32 = (-(n as i64)) as u32;
        proof {
            reveal_strlit("-");
        }
        let mut s = String::from_str("-");
        let digits = natural_to_string(m);
        s.append(digits.as_str());
        assert(s@ =~= seq!['-'] + natural((-n) as nat));
        s
    } else {
        natural_to_string(n as u32)
    }
}

fn digit_of(c: char) -> (r: Option<i64>)
    ensures
        match r {
            Some(d) => digit_value(c) == Some(d as int) && 0 <= d <= 9,
            None => digit_value(c) is None,
        },
{
    if c == '0' {
        Some(0)
    } else if c == '1' {
        Some(1)
    } else if c == '2' {
        Some(2)
    } else if c == '3' {
        Some(3)
    } else if c == '4' {
        Some(4)
    } else if c == '5' {
        Some(5)
    } else if c == '6' {
        Some(6)
    } else if c == '7' {
        Some(7)
    } else if c == '8' {
        Some(8)
    } else if c == '9' {
        Some(9)
    } else {
        None
    }
}

/// The digits of a natural number are digits, and stand for it.
pub proof fn lemma_natural_round_trip(n: nat)
    ensures
        natural(n).len() > 0,
        all_digits(natural(n)),
        natural_value(natural(n)) == n,
    decreases n,
{
    if n < 10 {
        assert(natural(n).drop_last() =~= Seq::<char>::empty());
        assert(natural_value(natural(n).drop_last()) == 0);
    } else {
        lemma_natural_round_trip(n / 10);
        assert(natural(n).drop_last() =~= natural(n / 10));
    }
}

/// Reading what was written gives the number back: the decimal digits of an
/// integer stand for that integer.
pub proof fn lemma_decimal_round_trip(n: int)
    ensures
        integer_value(decimal(n)) == Some(n),
{
    if n < 0 {
        lemma_natural_round_trip((-n) as nat);
        assert(decimal(n).subrange(1, decimal(n).len() as int) =~= natural((-n) as nat));
    } else {
        lemma_natural_round_trip(n as nat);
        assert(digit_value(natural(n as nat)[0]) is Some);
    }
}

/// Reads a 32-bit integer as `i32`'s `FromStr` does: an optional sign, then
/// decimal digits; nothing for any other text and for a number out of range.
pub fn parse_i32(s: &str) -> (r: Option<i32>)
    ensures
        r == i32_value(s@),
{
    let cs = chars_of(s);
    let n = cs.len();
    if n == 0 {
        return None;
    }
    let signed = cs[0] == '-' || cs[0] == '+';
    let negative = cs[0] == '-';
    let first: usize = if signed { 1 } else { 0 };
    if first == n {
        assert(s@.subrange(1, s@.len() as int).len() == 0);
        return None;
    }
    let ghost digits = s@.subrange(first as int, n as int);
    let mut acc: i64 = 0;
    let mut over = false;
    let mut i: usize = first;
    while i < n
        invariant
            first <= i <= n,
            n == cs.len(),
            n > 0,
            cs@ == s@,
            signed == (s@[0] == '-' || s@[0] == '+'),
            negative == (s@[0] == '-'),
            first == if signed { 1usize } else { 0usize },
            digits == s@.subrange(first as int, n as int),
            all_digits(digits.take(i - first)),
            !over ==> acc == natural_value(digits.take(i - first)),
            !over ==> 0 <= acc <= 0x8000_0000,
            over ==> natural_value(digits.take(i - first)) > 0x8000_0000,
        decreases n - i,
    {
        proof {
            assert(digits.take(i - first + 1).drop_last() =~= digits.take(i - first));
            assert(digits.take(i - first + 1).last() == cs[i as int]);
        }
        match digit_of(cs[i]) {
            Some(d) => {
                if !over {
                    acc = acc * 10 + d;
                    if acc > 0x8000_0000 {
                        over = true;
                    }
                } else {
                    assert(natural_value(digits.take(i - first + 1)) > 0x8000_0000);
                }
            },
            None => {
                assert(digit_value(digits[i - first]) is None);
                assert(!all_digits(digits));
                assert(s@.subrange(0, n as int) =~= s@);
                return None;
            },
        }
        i += 1;
    }
    proof {
        assert(digits.take(n - first) =~= digits);
        assert(s@.subrange(0, n as int) =~= s@);
    }
    if over {
        None
    } else if negative {
        Some((-acc) as i32)
    } else if acc <= 0x7FFF_FFFF {
        Some(acc as i32)
    } else {
        None
    }
}

/// Reads a truth value as `bool`'s `FromStr` does: `true` or `false`, and
/// nothing for any other text.
pub open spec fn bool_value(s: Seq<char>) -> Option<bool> {
    if s == "true"@ {
        Some(true)
    } else if s == "false"@ {
        Some(false)
    } else {
        None
    }
}

pub fn parse_bool(s: &str) -> (r: Option<bool>)
    ensures
        r == bool_value(s@),
{
    if same_text(s, "true") {
        Some(true)
    } else if same_text(s, "false") {
        Some(false)
    } else {
        None
    }
}

} // verus!
