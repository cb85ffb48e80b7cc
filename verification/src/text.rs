//! Text helpers: whitespace-separated tokens, decimal numbers, string lists.

use vstd::prelude::*;
use vstd::string::*;

verus! {

/// Characters that separate tokens on a protocol line.
pub open spec fn is_space(c: char) -> bool {
    c == ' ' || c == '\t' || c == '\r' || c == '\n'
}

/// Token scanner state: characters of `s` from `i` on are consumed one by one,
/// `cur` is the token being formed and `acc` the tokens already closed.
pub open spec fn tokens_from(s: Seq<char>, i: int, cur: Seq<char>, acc: Seq<Seq<char>>) -> Seq<
    Seq<char>,
>
    decreases s.len() - i,
{
    if i < 0 || i >= s.len() {
        if cur.len() > 0 {
            acc.push(cur)
        } else {
            acc
        }
    } else if is_space(s[i]) {
        if cur.len() > 0 {
            tokens_from(s, i + 1, Seq::empty(), acc.push(cur))
        } else {
            tokens_from(s, i + 1, cur, acc)
        }
    } else {
        tokens_from(s, i + 1, cur.push(s[i]), acc)
    }
}

/// The maximal runs of non-space characters of `s`, in order.
pub open spec fn tokens(s: Seq<char>) -> Seq<Seq<char>> {
    tokens_from(s, 0, Seq::empty(), Seq::empty())
}

/// The views of a list of strings.
pub open spec fn views(v: Seq<String>) -> Seq<Seq<char>> {
    Seq::new(v.len(), |i: int| v[i]@)
}

pub fn is_space_char(c: char) -> (r: bool)
    ensures
        r == is_space(c),
{
    c == ' ' || c == '\t' || c == '\r' || c == '\n'
}

/// Splits a line into its tokens.
pub fn split_tokens(line: &str) -> (out: Vec<String>)
    ensures
        views(out@) == tokens(line@),
{
    let n: usize = line.unicode_len();
    let mut out: Vec<String> = Vec::new();
    let mut start: usize = 0;
    let mut i: usize = 0;
    proof {
        assert(line@.subrange(0, 0) =~= Seq::<char>::empty());
        assert(views(out@) =~= Seq::<Seq<char>>::empty());
    }
    while i < n
        invariant
            n == line@.len(),
            start <= i <= n,
            tokens_from(line@, i as int, line@.subrange(start as int, i as int), views(out@))
                == tokens(line@),
        decreases n - i,
    {
        let c: char = line.get_char(i);
        let ghost cur = line@.subrange(start as int, i as int);
        let ghost before = views(out@);
        assert(cur.len() == i - start);
        if is_space_char(c) {
            if start < i {
                let tok: String = String::from_str(line.substring_char(start, i));
                out.push(tok);
                proof {
                    assert(views(out@) =~= before.push(cur));
                }
            } else {
                proof {
                    assert(cur =~= Seq::<char>::empty());
                }
            }
            start = i + 1;
            proof {
                assert(line@.subrange(start as int, start as int) =~= Seq::<char>::empty());
            }
        } else {
            proof {
                assert(line@.subrange(start as int, i + 1) =~= cur.push(line@[i as int]));
            }
        }
        i = i + 1;
    }
    let ghost cur = line@.subrange(start as int, n as int);
    let ghost before = views(out@);
    assert(cur.len() == n - start);
    if start < n {
        let tok: String = String::from_str(line.substring_char(start, n));
        out.push(tok);
        proof {
            assert(views(out@) =~= before.push(cur));
        }
    }
    out
}


/// The character that writes the digit `d`.
pub open spec fn digit_char(d: nat) -> char {
    if d == 0 {
        '0'
    } else if d == 1 {
        '1'
    } else if d == 2 {
        '2'
    } else if d == 3 {
        '3'
    } else if d == 4 {
        '4'
    } else if d == 5 {
        '5'
    } else if d == 6 {
        '6'
    } else if d == 7 {
        '7'
    } else if d == 8 {
        '8'
    } else {
        '9'
    }
}

/// The decimal numeral of `n`, without leading zeros.
pub open spec fn decimal(n: nat) -> Seq<char>
    decreases n,
{
    if n < 10 {
        seq![digit_char(n)]
    } else {
        decimal(n / 10).push(digit_char(n % 10))
    }
}

/// The value of a decimal digit, `None` for any other character.
pub open spec fn digit_value(c: char) -> Option<nat> {
    if 48 <= (c as u32) && (c as u32) <= 57 {
        Some(((c as u32) - 48) as nat)
    } else {
        None
    }
}

/// Reads the digits of `s` from `i` on, with `acc` the value read so far.
pub open spec fn number_from(s: Seq<char>, i: int, acc: nat) -> Option<nat>
    decreases s.len() - i,
{
    if i < 0 || i >= s.len() {
        Some(acc)
    } else {
        match digit_value(s[i]) {
            Some(d) => number_from(s, i + 1, acc * 10 + d),
            None => None,
        }
    }
}

/// The number that `s` writes in decimal: `s` is one digit or more and nothing else.
pub open spec fn parse_number(s: Seq<char>) -> Option<nat> {
    if s.len() == 0 {
        None
    } else {
        number_from(s, 0, 0)
    }
}

/// The integer that `s` writes: a decimal number, with `-` in front for a negative one.
pub open spec fn parse_integer(s: Seq<char>) -> Option<int> {
    if s.len() > 0 && s[0] == '-' {
        match parse_number(s.subrange(1, s.len() as int)) {
            Some(v) => Some(-(v as int)),
            None => None,
        }
    } else {
        match parse_number(s) {
            Some(v) => Some(v as int),
            None => None,
        }
    }
}

/// The number that `s` writes, where it is at most `max`.
pub open spec fn parse_bounded(s: Seq<char>, max: nat) -> Option<nat> {
    match parse_number(s) {
        Some(v) => if v <= max {
            Some(v)
        } else {
            None
        },
        None => None,
    }
}

/// A number read from more digits is no smaller than what was read before them.
pub proof fn lemma_number_from_grows(s: Seq<char>, i: int, acc: nat)
    ensures
        match number_from(s, i, acc) {
            Some(v) => v >= acc,
            None => true,
        },
    decreases s.len() - i,
{
    if i < 0 || i >= s.len() {
    } else {
        match digit_value(s[i]) {
            Some(d) => {
                lemma_number_from_grows(s, i + 1, acc * 10 + d);
            },
            None => {},
        }
    }
}

proof fn lemma_digit_round_trip(d: nat)
    requires
        d < 10,
    ensures
        digit_value(digit_char(d)) == Some(d),
{
}

proof fn lemma_number_push(s: Seq<char>, i: int, acc: nat, d: nat)
    requires
        0 <= i <= s.len(),
        d < 10,
        number_from(s, i, acc).is_some(),
    ensures
        number_from(s.push(digit_char(d)), i, acc) == Some(number_from(s, i, acc).unwrap() * 10 + d),
    decreases s.len() - i,
{
    let t = s.push(digit_char(d));
    lemma_digit_round_trip(d);
    if i < s.len() {
        assert(t[i] == s[i]);
        match digit_value(s[i]) {
            Some(v) => {
                lemma_number_push(s, i + 1, acc * 10 + v, d);
            },
            None => {},
        }
    } else {
        assert(t[i] == digit_char(d));
        assert(number_from(t, i + 1, acc * 10 + d) == Some(acc * 10 + d));
    }
}

/// What is written is read back: the numeral of a number writes that number.
pub proof fn lemma_decimal_round_trip(n: nat)
    ensures
        decimal(n).len() >= 1,
        parse_number(decimal(n)) == Some(n),
    decreases n,
{
    if n < 10 {
        lemma_digit_round_trip(n);
        let s = seq![digit_char(n)];
        assert(number_from(s, 1, n) == Some(n));
        assert(number_from(s, 0, 0) == Some(n));
    } else {
        lemma_decimal_round_trip(n / 10);
        lemma_number_push(decimal(n / 10), 0, 0, n % 10);
    }
}

fn digit_text(d: u64) -> (r: &'static str)
    requires
        d < 10,
    ensures
        r@ == seq![digit_char(d as nat)],
{
    proof {
        reveal_strlit("0");
        reveal_strlit("1");
        reveal_strlit("2");
        reveal_strlit("3");
        reveal_strlit("4");
        reveal_strlit("5");
        reveal_strlit("6");
        reveal_strlit("7");
        reveal_strlit("8");
        reveal_strlit("9");
    }
    let r: &'static str = if d == 0 {
        "0"
    } else if d == 1 {
        "1"
    } else if d == 2 {
        "2"
    } else if d == 3 {
        "3"
    } else if d == 4 {
        "4"
    } else if d == 5 {
        "5"
    } else if d == 6 {
        "6"
    } else if d == 7 {
        "7"
    } else if d == 8 {
        "8"
    } else {
        "9"
    };
    assert(r@ =~= seq![digit_char(d as nat)]);
    r
}

/// Appends the decimal numeral of `n` to `out`.
pub fn append_decimal(out: &mut String, n: u64)
    ensures
        final(out)@ == old(out)@ + decimal(n as nat),
    decreases n,
{
    if n >= 10 {
        append_decimal(out, n / 10);
    }
    let ghost mid = out@;
    out.append(digit_text(n % 10));
    proof {
        if n >= 10 {
            assert(out@ =~= old(out)@ + decimal(n as nat));
        } else {
            assert(out@ =~= old(out)@ + decimal(n as nat));
        }
    }
}

/// Reads a decimal number that fits in 64 bits.
pub fn read_u64(s: &str) -> (r: Option<u64>)
    ensures
        r == match parse_bounded(s@, u64::MAX as nat) {
            Some(v) => Some(v as u64),
            None => None,
        },
{
    let n: usize = s.unicode_len();
    if n == 0 {
        return None;
    }
    let mut acc: u64 = 0;
    let mut i: usize = 0;
    while i < n
        invariant
            n == s@.len(),
            n > 0,
            i <= n,
            number_from(s@, i as int, acc as nat) == parse_number(s@),
        decreases n - i,
    {
        let c: char = s.get_char(i);
        let code: u32 = c as u32;
        if code < 48 || code > 57 {
            return None;
        }
        let d: u64 = (code - 48) as u64;
        if acc > (u64::MAX - d) / 10 {
            proof {
                lemma_number_from_grows(s@, i + 1, (acc as nat) * 10 + (d as nat));
            }
            return None;
        }
        acc = acc * 10 + d;
        i = i + 1;
    }
    Some(acc)
}

/// Reads a decimal number that fits in 32 bits.
pub fn read_u32(s: &str) -> (r: Option<u32>)
    ensures
        r == match parse_bounded(s@, u32::MAX as nat) {
            Some(v) => Some(v as u32),
            None => None,
        },
{
    match read_u64(s) {
        Some(v) => if v <= 0xffff_ffff {
            Some(v as u32)
        } else {
            None
        },
        None => None,
    }
}

/// Reads a decimal number that fits in 16 bits.
pub fn read_u16(s: &str) -> (r: Option<u16>)
    ensures
        r == match parse_bounded(s@, u16::MAX as nat) {
            Some(v) => Some(v as u16),
            None => None,
        },
{
    match read_u64(s) {
        Some(v) => if v <= 0xffff {
            Some(v as u16)
        } else {
            None
        },
        None => None,
    }
}

/// The integer that `s` writes, where it fits in 32 bits with a sign.
pub open spec fn parse_i32(s: Seq<char>) -> Option<int> {
    match parse_integer(s) {
        Some(v) => if -0x8000_0000 <= v <= 0x7fff_ffff {
            Some(v)
        } else {
            None
        },
        None => None,
    }
}

/// Reads a decimal integer that fits in 32 bits with a sign.
pub fn read_i32(s: &str) -> (r: Option<i32>)
    ensures
        r == match parse_i32(s@) {
            Some(v) => Some(v as i32),
            None => None,
        },
{
    let n: usize = s.unicode_len();
    if n > 0 && s.get_char(0) == '-' {
        match read_u64(s.substring_char(1, n)) {
            Some(v) => if v <= 0x8000_0000 {
                Some((0 - (v as i64)) as i32)
            } else {
                None
            },
            None => None,
        }
    } else {
        match read_u64(s) {
            Some(v) => if v <= 0x7fff_ffff {
                Some(v as i32)
            } else {
                None
            },
            None => None,
        }
    }
}


/// Whether two lists hold the same texts in the same order.
pub fn same_strings(a: &Vec<String>, b: &Vec<String>) -> (r: bool)
    ensures
        r == (views(a@) == views(b@)),
{
    if a.len() != b.len() {
        assert(views(a@).len() != views(b@).len());
        return false;
    }
    let mut i: usize = 0;
    while i < a.len()
        invariant
            a.len() == b.len(),
            i <= a.len(),
            forall|j: int| 0 <= j < i ==> a@[j]@ == b@[j]@,
        decreases a.len() - i,
    {
        if a[i] != b[i] {
            assert(views(a@)[i as int] != views(b@)[i as int]);
            return false;
        }
        i = i + 1;
    }
    assert(views(a@) =~= views(b@));
    true
}

/// A copy of a list of texts.
pub fn copy_strings(a: &Vec<String>) -> (r: Vec<String>)
    ensures
        views(r@) == views(a@),
        r@.len() == a@.len(),
{
    let mut r: Vec<String> = Vec::new();
    let mut i: usize = 0;
    while i < a.len()
        invariant
            i <= a.len(),
            r@.len() == i,
            forall|j: int| 0 <= j < i ==> r@[j]@ == a@[j]@,
        decreases a.len() - i,
    {
        r.push(a[i].clone());
        i = i + 1;
    }
    assert(views(r@) =~= views(a@));
    r
}

/// The texts of `v` written one after another, a space between neighbours.
pub open spec fn joined(v: Seq<Seq<char>>) -> Seq<char>
    decreases v.len(),
{
    if v.len() == 0 {
        Seq::empty()
    } else if v.len() == 1 {
        v[0]
    } else {
        joined(v.drop_last()) + seq![' '] + v.last()
    }
}

/// Writes the texts of `v` one after another, a space between neighbours.
pub fn join_strings(v: &Vec<String>) -> (r: String)
    ensures
        r@ == joined(views(v@)),
{
    let mut r: String = String::new();
    let mut i: usize = 0;
    while i < v.len()
        invariant
            i <= v.len(),
            r@ == joined(views(v@).take(i as int)),
        decreases v.len() - i,
    {
        let ghost before = views(v@).take(i as int);
        let ghost after = views(v@).take(i + 1);
        proof {
            assert(after.drop_last() =~= before);
            assert(after.last() == v@[i as int]@);
        }
        if i > 0 {
            proof {
                reveal_strlit(" ");
                assert(" "@ =~= seq![' ']);
            }
            r.append(" ");
        }
        r.append(v[i].as_str());
        proof {
            if i == 0 {
                assert(before =~= Seq::<Seq<char>>::empty());
                assert(r@ =~= after[0]);
            }
        }
        i = i + 1;
    }
    proof {
        assert(views(v@).take(v@.len() as int) =~= views(v@));
    }
    r
}


/// Whether a text is exactly the given word.
pub fn is_word(tok: &String, word: &str) -> (r: bool)
    ensures
        r == (tok@ == word@),
{
    let w: String = String::from_str(word);
    *tok == w
}

/// A copy of the texts of `v` from index `from` up to, not including, index `to`.
pub(crate) fn copy_range(v: &Vec<String>, from: usize, to: usize) -> (r: Vec<String>)
    requires
        from <= to <= v@.len(),
    ensures
        views(r@) == views(v@).subrange(from as int, to as int),
{
    let mut r: Vec<String> = Vec::new();
    let mut i: usize = from;
    while i < to
        invariant
            from <= i <= to <= v@.len(),
            r@.len() == i - from,
            forall|j: int| 0 <= j < i - from ==> r@[j]@ == v@[from + j]@,
        decreases to - i,
    {
        r.push(v[i].clone());
        i = i + 1;
    }
    assert(views(r@) =~= views(v@).subrange(from as int, to as int));
    r
}

} // verus!
