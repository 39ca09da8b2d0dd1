//! Decimal formatting and parsing of unsigned integers.

use vstd::prelude::*;

verus! {

/// The character of a decimal digit.
pub open spec fn digit_char(d: nat) -> char {
    if d == 0 { '0' } else if d == 1 { '1' } else if d == 2 { '2' } else if d == 3 { '3' }
    else if d == 4 { '4' } else if d == 5 { '5' } else if d == 6 { '6' } else if d == 7 { '7' }
    else if d == 8 { '8' } else { '9' }
}

/// The shortest decimal representation of `n`.
pub open spec fn decimal(n: nat) -> Seq<char>
    decreases n,
{
    if n < 10 {
        seq![digit_char(n)]
    } else {
        decimal(n / 10).push(digit_char(n % 10))
    }
}

fn digit_str(d: u32) -> (s: &'static str)
    requires
        d < 10,
    ensures
        s@ == seq![digit_char(d as nat)],
{
    let s = "0123456789";
    proof {
        reveal_strlit("0123456789");
    }
    assert(s.is_ascii());
    let r = s.substring_ascii(d as usize, d as usize + 1);
    assert(r@ =~= seq![digit_char(d as nat)]);
    r
}

/// Formats `n` in decimal.
pub fn u32_to_decimal(n: u32) -> (s: String)
    ensures
        s@ == decimal(n as nat),
    decreases n,
{
    if n < 10 {
        let mut s = String::new();
        s.append(digit_str(n));
        assert(s@ =~= decimal(n as nat));
        s
    } else {
        let mut s = u32_to_decimal(n / 10);
        s.append(digit_str(n % 10));
        s
    }
}

} // verus!

verus! {

/// Whether `c` is an ASCII decimal digit.
pub open spec fn is_digit(c: char) -> bool {
    '0' <= c && c <= '9'
}

/// The value of an ASCII decimal digit.
pub open spec fn digit_value(c: char) -> nat {
    ((c as int) - ('0' as int)) as nat
}

/// The value of a sequence of decimal digits, most significant first.
pub open spec fn digits_value(s: Seq<char>) -> nat
    decreases s.len(),
{
    if s.len() == 0 {
        0
    } else {
        digits_value(s.drop_last()) * 10 + digit_value(s.last())
    }
}

/// Whether every character of `s` is a decimal digit.
pub open spec fn all_digits(s: Seq<char>) -> bool {
    forall|i: int| 0 <= i < s.len() ==> is_digit(#[trigger] s[i])
}

/// The digits of `s` once an optional leading `+` is taken off.
pub open spec fn unsigned_digits(s: Seq<char>) -> Seq<char> {
    if s.len() > 0 && s[0] == '+' {
        s.drop_first()
    } else {
        s
    }
}

/// What reading `s` as a `u32` gives: an optional `+`, then at least one
/// decimal digit and nothing else, of a value that fits in 32 bits.
pub open spec fn parse_u32_spec(s: Seq<char>) -> Option<u32> {
    let d = unsigned_digits(s);
    if d.len() > 0 && all_digits(d) && digits_value(d) <= u32::MAX {
        Some(digits_value(d) as u32)
    } else {
        None
    }
}

/// Reads `s` as an unsigned 32-bit decimal number.
pub fn parse_u32(s: &str) -> (r: Option<u32>)
    ensures
        r == parse_u32_spec(s@),
{
    let len = s.unicode_len();
    let start: usize = if len > 0 && s.get_char(0) == '+' { 1 } else { 0 };
    let ghost d = unsigned_digits(s@);
    assert(d =~= s@.subrange(start as int, len as int));
    if start == len {
        return None;
    }
    let mut acc: u64 = 0;
    let mut overflow = false;
    let mut i: usize = start;
    while i < len
        invariant
            start <= i <= len,
            len == s@.len(),
            d =~= s@.subrange(start as int, len as int),
            d == unsigned_digits(s@),
            all_digits(d.take(i - start)),
            !overflow ==> acc == digits_value(d.take(i - start)) && acc <= u32::MAX,
            overflow ==> digits_value(d.take(i - start)) > u32::MAX,
        decreases len - i,
    {
        let c = s.get_char(i);
        if !('0' <= c && c <= '9') {
            assert(d[i - start] == c);
            assert(!is_digit(d[i - start]));
            assert(!all_digits(d));
            return None;
        }
        let ghost k = (i - start) as int;
        assert(d.take(k + 1).drop_last() =~= d.take(k));
        assert(d.take(k + 1).last() == c);
        if !overflow {
            let dv = (c as u32 - '0' as u32) as u64;
            acc = acc * 10 + dv;
            if acc > u32::MAX as u64 {
                overflow = true;
            }
        }
        i = i + 1;
    }
    assert(d.take(len - start) =~= d);
    if overflow {
        None
    } else {
        Some(acc as u32)
    }
}

proof fn lemma_digit_char(d: nat)
    requires
        d < 10,
    ensures
        is_digit(digit_char(d)),
        digit_value(digit_char(d)) == d,
        digit_char(d) != '+',
        digit_char(d) != ',',
{
}

/// The decimal representation of a number is made of digits only, and
/// reads back as that number.
pub proof fn lemma_decimal_digits(n: nat)
    ensures
        decimal(n).len() > 0,
        all_digits(decimal(n)),
        digits_value(decimal(n)) == n,
        decimal(n)[0] != '+',
    decreases n,
{
    if n < 10 {
        lemma_digit_char(n);
        assert(decimal(n).drop_last() =~= Seq::<char>::empty());
        assert(digits_value(Seq::<char>::empty()) == 0);
    } else {
        lemma_decimal_digits(n / 10);
        lemma_digit_char(n % 10);
        let s = decimal(n);
        assert(s.drop_last() =~= decimal(n / 10));
        assert(s.last() == digit_char(n % 10));
        assert(digits_value(s) == (n / 10) * 10 + n % 10);
        assert forall|i: int| 0 <= i < s.len() implies is_digit(#[trigger] s[i]) by {
            if i < s.len() - 1 {
                assert(s[i] == decimal(n / 10)[i]);
            }
        }
    }
}

/// Formatting a number in decimal and reading it back gives the number.
pub proof fn lemma_parse_decimal(n: u32)
    ensures
        parse_u32_spec(decimal(n as nat)) == Some(n),
{
    lemma_decimal_digits(n as nat);
    assert(unsigned_digits(decimal(n as nat)) == decimal(n as nat));
}

} // verus!

verus! {

/// Whether `c` has the Unicode `White_Space` property, which is what
/// trimming a string removes.
pub open spec fn is_whitespace(c: char) -> bool {
    ||| ('\t' <= c && c <= '\r')
    ||| c == ' '
    ||| c == '\u{85}'
    ||| c == '\u{a0}'
    ||| c == '\u{1680}'
    ||| ('\u{2000}' <= c && c <= '\u{200a}')
    ||| c == '\u{2028}'
    ||| c == '\u{2029}'
    ||| c == '\u{202f}'
    ||| c == '\u{205f}'
    ||| c == '\u{3000}'
}

fn is_whitespace_char(c: char) -> (b: bool)
    ensures
        b == is_whitespace(c),
{
    ('\t' <= c && c <= '\r') || c == ' ' || c == '\u{85}' || c == '\u{a0}' || c == '\u{1680}'
        || ('\u{2000}' <= c && c <= '\u{200a}') || c == '\u{2028}' || c == '\u{2029}'
        || c == '\u{202f}' || c == '\u{205f}' || c == '\u{3000}'
}

/// `s` without its leading whitespace.
pub open spec fn trim_start(s: Seq<char>) -> Seq<char>
    decreases s.len(),
{
    if s.len() > 0 && is_whitespace(s[0]) {
        trim_start(s.drop_first())
    } else {
        s
    }
}

/// `s` without its trailing whitespace.
pub open spec fn trim_end(s: Seq<char>) -> Seq<char>
    decreases s.len(),
{
    if s.len() > 0 && is_whitespace(s.last()) {
        trim_end(s.drop_last())
    } else {
        s
    }
}

/// `s` without leading and trailing whitespace.
pub open spec fn trim_spec(s: Seq<char>) -> Seq<char> {
    trim_end(trim_start(s))
}

/// Removes leading and trailing whitespace.
pub fn trim(s: &str) -> (t: &str)
    ensures
        t@ == trim_spec(s@),
{
    let len = s.unicode_len();
    let mut lo: usize = 0;
    assert(s@.subrange(0, len as int) =~= s@);
    while lo < len && is_whitespace_char(s.get_char(lo))
        invariant
            lo <= len,
            len == s@.len(),
            trim_start(s@) == trim_start(s@.subrange(lo as int, len as int)),
        decreases len - lo,
    {
        assert(s@.subrange(lo as int, len as int).drop_first() =~= s@.subrange(
            lo + 1,
            len as int,
        ));
        lo = lo + 1;
    }
    let ghost front = s@.subrange(lo as int, len as int);
    assert(trim_start(front) == front);
    let mut hi: usize = len;
    while hi > lo && is_whitespace_char(s.get_char(hi - 1))
        invariant
            lo <= hi <= len,
            len == s@.len(),
            front == s@.subrange(lo as int, len as int),
            trim_end(front) == trim_end(s@.subrange(lo as int, hi as int)),
        decreases hi,
    {
        assert(s@.subrange(lo as int, hi as int).drop_last() =~= s@.subrange(
            lo as int,
            hi - 1,
        ));
        hi = hi - 1;
    }
    let t = s.substring_char(lo, hi);
    assert(trim_end(t@) == t@);
    t
}

/// The pieces of `s` between commas, as splitting at every comma gives
/// them (a string without commas is one piece; empty pieces count).
pub open spec fn split_commas(s: Seq<char>) -> Seq<Seq<char>>
    decreases s.len(),
{
    if s.len() == 0 {
        seq![Seq::empty()]
    } else {
        let p = split_commas(s.drop_last());
        if s.last() == ',' {
            p.push(Seq::empty())
        } else {
            p.update(p.len() - 1, p.last().push(s.last()))
        }
    }
}

/// The numbers among `pieces`, in order: each piece, trimmed, that reads as
/// a `u32`; the others are skipped.
pub open spec fn parse_pieces(pieces: Seq<Seq<char>>) -> Seq<u32>
    decreases pieces.len(),
{
    if pieces.len() == 0 {
        seq![]
    } else {
        let r = parse_pieces(pieces.drop_last());
        match parse_u32_spec(trim_spec(pieces.last())) {
            Some(v) => r.push(v),
            None => r,
        }
    }
}

/// What reading a comma-separated list of indices gives.
pub open spec fn index_list_spec(s: Seq<char>) -> Seq<u32> {
    parse_pieces(split_commas(s))
}

/// Reads a comma-separated list of indices; pieces that are not numbers
/// once trimmed are skipped.
pub fn parse_index_list(s: &str) -> (v: Vec<u32>)
    ensures
        v@ == index_list_spec(s@),
{
    let len = s.unicode_len();
    let mut out: Vec<u32> = Vec::new();
    let mut start: usize = 0;
    let mut i: usize = 0;
    let ghost mut done: Seq<Seq<char>> = seq![];
    assert(s@.take(0) =~= Seq::<char>::empty());
    assert(seq![Seq::<char>::empty()] =~= done.push(s@.subrange(0, 0)));
    while i < len
        invariant
            start <= i <= len,
            len == s@.len(),
            split_commas(s@.take(i as int)) == done.push(s@.subrange(start as int, i as int)),
            out@ == parse_pieces(done),
        decreases len - i,
    {
        let c = s.get_char(i);
        assert(s@.take(i + 1).drop_last() =~= s@.take(i as int));
        assert(s@.take(i + 1).last() == c);
        if c == ',' {
            let piece = s.substring_char(start, i);
            let r = parse_u32(trim(piece));
            proof {
                let old_done = done;
                done = done.push(s@.subrange(start as int, i as int));
                assert(done.drop_last() =~= old_done);
                assert(s@.subrange(i + 1, i + 1) =~= Seq::<char>::empty());
            }
            match r {
                Some(x) => out.push(x),
                None => {},
            }
            start = i + 1;
        } else {
            assert(s@.subrange(start as int, i + 1) =~= s@.subrange(start as int, i as int).push(c));
            assert(done.push(s@.subrange(start as int, i as int)).update(
                done.len() as int,
                s@.subrange(start as int, i + 1),
            ) =~= done.push(s@.subrange(start as int, i + 1)));
        }
        i = i + 1;
    }
    let piece = s.substring_char(start, len);
    let r = parse_u32(trim(piece));
    proof {
        let old_done = done;
        done = done.push(s@.subrange(start as int, len as int));
        assert(done.drop_last() =~= old_done);
        assert(s@.take(len as int) =~= s@);
    }
    match r {
        Some(x) => out.push(x),
        None => {},
    }
    out
}

} // verus!

verus! {

/// The decimal representations of `v`, in order, with `sep` between
/// neighbours.
pub open spec fn join_decimal_spec(v: Seq<u32>, sep: Seq<char>) -> Seq<char>
    decreases v.len(),
{
    if v.len() == 0 {
        seq![]
    } else if v.len() == 1 {
        decimal(v[0] as nat)
    } else {
        join_decimal_spec(v.drop_last(), sep) + sep + decimal(v.last() as nat)
    }
}

/// Formats each number of `v` in decimal, with `sep` between neighbours.
pub fn join_decimal(v: &Vec<u32>, sep: &str) -> (s: String)
    ensures
        s@ == join_decimal_spec(v@, sep@),
{
    let mut s = String::new();
    let mut i: usize = 0;
    assert(v@.take(0) =~= Seq::<u32>::empty());
    while i < v.len()
        invariant
            i <= v.len(),
            s@ == join_decimal_spec(v@.take(i as int), sep@),
        decreases v.len() - i,
    {
        let ghost before = s@;
        if i > 0 {
            s.append(sep);
        }
        let d = u32_to_decimal(v[i]);
        s.append(d.as_str());
        assert(v@.take(i + 1).drop_last() =~= v@.take(i as int));
        assert(v@.take(i + 1).last() == v@[i as int]);
        if i == 0 {
            assert(before =~= Seq::<char>::empty());
            assert(s@ =~= decimal(v@[0] as nat));
        } else {
            assert(s@ =~= before + sep@ + decimal(v@[i as int] as nat));
        }
        i = i + 1;
    }
    assert(v@.take(v.len() as int) =~= v@);
    s
}

/// The way a list of numbers is shown for debugging: `[1, 2, 3]`.
pub open spec fn debug_list_spec(v: Seq<u32>) -> Seq<char> {
    seq!['['] + join_decimal_spec(v, seq![',', ' ']) + seq![']']
}

/// Shows a list of numbers as `[1, 2, 3]`.
pub fn debug_list(v: &Vec<u32>) -> (s: String)
    ensures
        s@ == debug_list_spec(v@),
{
    proof {
        reveal_strlit("[");
        reveal_strlit(", ");
        reveal_strlit("]");
    }
    let mut s = String::from_str("[");
    let inner = join_decimal(v, ", ");
    s.append(inner.as_str());
    s.append("]");
    assert(", "@ =~= seq![',', ' ']);
    assert(s@ =~= debug_list_spec(v@));
    s
}

/// The decimal representation of a signed number.
pub open spec fn signed_decimal(n: int) -> Seq<char> {
    if n < 0 {
        seq!['-'] + decimal((-n) as nat)
    } else {
        decimal(n as nat)
    }
}

/// Formats a signed number in decimal.
pub fn i32_to_decimal(n: i32) -> (s: String)
    ensures
        s@ == signed_decimal(n as int),
{
    if n < 0 {
        proof {
            reveal_strlit("-");
        }
        let magnitude: u32 = if n == i32::MIN { 2147483648u32 } else { (-n) as u32 };
        let mut s = String::from_str("-");
        let d = u32_to_decimal(magnitude);
        s.append(d.as_str());
        assert(s@ =~= signed_decimal(n as int));
        s
    } else {
        u32_to_decimal(n as u32)
    }
}

proof fn lemma_split_commas_nonempty(s: Seq<char>)
    ensures
        split_commas(s).len() >= 1,
    decreases s.len(),
{
    if s.len() > 0 {
        lemma_split_commas_nonempty(s.drop_last());
    }
}

/// Appending text without commas only extends the last piece.
proof fn lemma_split_commas_extend(p: Seq<char>, y: Seq<char>)
    requires
        forall|i: int| 0 <= i < y.len() ==> #[trigger] y[i] != ',',
    ensures
        split_commas(p + y) == split_commas(p).update(
            split_commas(p).len() - 1,
            split_commas(p).last() + y,
        ),
    decreases y.len(),
{
    lemma_split_commas_nonempty(p);
    let sp = split_commas(p);
    if y.len() == 0 {
        assert(p + y =~= p);
        assert(sp.last() + y =~= sp.last());
        assert(sp.update(sp.len() - 1, sp.last()) =~= sp);
    } else {
        let y0 = y.drop_last();
        assert forall|i: int| 0 <= i < y0.len() implies #[trigger] y0[i] != ',' by {
            assert(y0[i] == y[i]);
        }
        lemma_split_commas_extend(p, y0);
        assert((p + y).drop_last() =~= p + y0);
        assert((p + y).last() == y.last());
        assert(y[y.len() - 1] != ',');
        let q = split_commas(p + y0);
        assert(q.len() == sp.len());
        assert(q.last() =~= sp.last() + y0);
        assert(q.last().push(y.last()) =~= sp.last() + y);
        assert(q.update(q.len() - 1, q.last().push(y.last())) =~= sp.update(
            sp.len() - 1,
            sp.last() + y,
        ));
    }
}

proof fn lemma_decimal_no_comma(n: nat)
    ensures
        forall|i: int| 0 <= i < decimal(n).len() ==> #[trigger] decimal(n)[i] != ',',
        trim_spec(decimal(n)) == decimal(n),
{
    lemma_decimal_digits(n);
    let d = decimal(n);
    assert forall|i: int| 0 <= i < d.len() implies #[trigger] d[i] != ',' by {
        assert(is_digit(d[i]));
    }
    assert(is_digit(d[0]));
    assert(is_digit(d[d.len() - 1]));
    assert(trim_start(d) == d);
    assert(trim_end(d) == d);
}

proof fn lemma_split_join(v: Seq<u32>)
    requires
        v.len() >= 1,
    ensures
        split_commas(join_decimal_spec(v, seq![','])) == v.map_values(|x: u32| decimal(x as nat)),
    decreases v.len(),
{
    let f = |x: u32| decimal(x as nat);
    let last = decimal(v.last() as nat);
    lemma_decimal_no_comma(v.last() as nat);
    if v.len() == 1 {
        assert(Seq::<char>::empty() + last =~= last);
        lemma_split_commas_extend(Seq::<char>::empty(), last);
        assert(split_commas(Seq::<char>::empty()) =~= seq![Seq::<char>::empty()]);
        assert(v[0] == v.last());
        assert(split_commas(last) =~= v.map_values(f));
    } else {
        let v0 = v.drop_last();
        lemma_split_join(v0);
        let j0 = join_decimal_spec(v0, seq![',']);
        let pre = j0 + seq![','];
        assert(join_decimal_spec(v, seq![',']) =~= pre + last);
        assert(pre.drop_last() =~= j0);
        assert(split_commas(pre) == split_commas(j0).push(Seq::<char>::empty()));
        lemma_split_commas_extend(pre, last);
        assert(Seq::<char>::empty() + last =~= last);
        assert(split_commas(pre + last) =~= split_commas(j0).push(last));
        assert(v.map_values(f) =~= v0.map_values(f).push(last));
    }
}

proof fn lemma_parse_decimals(v: Seq<u32>)
    ensures
        parse_pieces(v.map_values(|x: u32| decimal(x as nat))) == v,
    decreases v.len(),
{
    let f = |x: u32| decimal(x as nat);
    if v.len() > 0 {
        let v0 = v.drop_last();
        lemma_parse_decimals(v0);
        assert(v.map_values(f).drop_last() =~= v0.map_values(f));
        assert(v.map_values(f).last() == decimal(v.last() as nat));
        lemma_decimal_no_comma(v.last() as nat);
        lemma_parse_decimal(v.last());
        assert(v0.push(v.last()) =~= v);
    } else {
        assert(v.map_values(f) =~= Seq::<Seq<char>>::empty());
    }
}

/// A list of indices written with commas between them reads back as the
/// same list.
pub proof fn lemma_index_list_round_trip(v: Seq<u32>)
    ensures
        index_list_spec(join_decimal_spec(v, seq![','])) == v,
{
    if v.len() == 0 {
        assert(split_commas(Seq::<char>::empty()) =~= seq![Seq::<char>::empty()]);
        assert(seq![Seq::<char>::empty()].drop_last() =~= Seq::<Seq<char>>::empty());
        assert(trim_start(Seq::<char>::empty()) == Seq::<char>::empty());
        assert(trim_end(Seq::<char>::empty()) == Seq::<char>::empty());
        assert(parse_u32_spec(Seq::<char>::empty()) is None);
        assert(v =~= Seq::<u32>::empty());
        assert(join_decimal_spec(v, seq![',']) =~= Seq::<char>::empty());
        let ps = seq![Seq::<char>::empty()];
        assert(parse_pieces(ps.drop_last()) =~= Seq::<u32>::empty());
        assert(parse_pieces(ps) =~= Seq::<u32>::empty());
    } else {
        lemma_split_join(v);
        lemma_parse_decimals(v);
    }
}

} // verus!
