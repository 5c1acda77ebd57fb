use vstd::prelude::*;

verus! {

/// Value of a hexadecimal digit (`0-9`, `a-f`, `A-F`); 16 for any other character.
pub open spec fn digit_value(c: char) -> nat {
    if '0' <= c && c <= '9' {
        (c as u32 - '0' as u32) as nat
    } else if 'a' <= c && c <= 'f' {
        (c as u32 - 'a' as u32 + 10) as nat
    } else if 'A' <= c && c <= 'F' {
        (c as u32 - 'A' as u32 + 10) as nat
    } else {
        16
    }
}

/// Every character of `s` is a digit in `radix`.
pub open spec fn all_digits(s: Seq<char>, radix: nat) -> bool {
    forall|i: int| 0 <= i < s.len() ==> #[trigger] digit_value(s[i]) < radix
}

/// The number that the digits of `s` denote in `radix`, most significant first.
pub open spec fn digits_value(s: Seq<char>, radix: nat) -> nat
    decreases s.len(),
{
    if s.len() == 0 {
        0
    } else {
        digits_value(s.drop_last(), radix) * radix + digit_value(s.last())
    }
}

/// The digits of `s`, past one optional leading `+`.
pub open spec fn unsigned_digits(s: Seq<char>) -> Seq<char> {
    if s.len() > 0 && s[0] == '+' {
        s.drop_first()
    } else {
        s
    }
}

/// An unsigned machine integer written in `radix`: an optional leading `+`, then at
/// least one digit, the whole value fitting in `usize`.
pub open spec fn radix_value(s: Seq<char>, radix: nat) -> Option<nat> {
    let body = unsigned_digits(s);
    if body.len() > 0 && all_digits(body, radix) && digits_value(body, radix) <= usize::MAX {
        Some(digits_value(body, radix))
    } else {
        None
    }
}

/// `s` starts with the hexadecimal marker `0x`.
pub open spec fn has_hex_prefix(s: Seq<char>) -> bool {
    s.len() >= 2 && s[0] == '0' && s[1] == 'x'
}

/// A number written in hexadecimal after a `0x` prefix, or else in decimal.
pub open spec fn number_value(s: Seq<char>) -> Option<nat> {
    if has_hex_prefix(s) {
        radix_value(s.skip(2), 16)
    } else {
        radix_value(s, 10)
    }
}

/// The character of a decimal digit.
pub open spec fn digit_char(d: nat) -> char {
    if d == 0 { '0' }
    else if d == 1 { '1' }
    else if d == 2 { '2' }
    else if d == 3 { '3' }
    else if d == 4 { '4' }
    else if d == 5 { '5' }
    else if d == 6 { '6' }
    else if d == 7 { '7' }
    else if d == 8 { '8' }
    else { '9' }
}

/// The decimal notation of `n`, without leading zeros.
pub open spec fn decimal_text(n: nat) -> Seq<char>
    decreases n,
{
    if n < 10 {
        seq![digit_char(n)]
    } else {
        decimal_text(n / 10).push(digit_char(n % 10))
    }
}

proof fn lemma_prefix_value_le(s: Seq<char>, k: int, radix: nat)
    requires
        0 <= k <= s.len(),
        radix >= 1,
    ensures
        digits_value(s.take(k), radix) <= digits_value(s, radix),
    decreases s.len(),
{
    if k == s.len() {
        assert(s.take(k) =~= s);
    } else {
        let p = s.drop_last();
        lemma_prefix_value_le(p, k, radix);
        assert(p.take(k) =~= s.take(k));
        let v = digits_value(p, radix);
        assert(v * radix >= v) by (nonlinear_arith)
            requires
                radix >= 1,
        ;
    }
}

fn digit_of(c: char) -> (r: u32)
    ensures
        r as nat == digit_value(c),
{
    if '0' <= c && c <= '9' {
        c as u32 - '0' as u32
    } else if 'a' <= c && c <= 'f' {
        c as u32 - 'a' as u32 + 10
    } else if 'A' <= c && c <= 'F' {
        c as u32 - 'A' as u32 + 10
    } else {
        16
    }
}

/// Parses an unsigned integer written in `radix`, as the standard library's
/// `from_str_radix` does for `usize`.
pub fn parse_radix(s: &str, radix: usize) -> (r: Option<usize>)
    requires
        2 <= radix <= 16,
    ensures
        r is Some <==> radix_value(s@, radix as nat) is Some,
        r is Some ==> radix_value(s@, radix as nat) == Some(r->0 as nat),
{
    let n = s.unicode_len();
    let mut start: usize = 0;
    if n > 0 && s.get_char(0) == '+' {
        start = 1;
    }
    let ghost body = s@.subrange(start as int, n as int);
    assert(body =~= unsigned_digits(s@));
    if start >= n {
        return None;
    }
    let mut acc: usize = 0;
    let mut i: usize = start;
    while i < n
        invariant
            n == s@.len(),
            start <= i <= n,
            body == s@.subrange(start as int, n as int),
            body == unsigned_digits(s@),
            2 <= radix <= 16,
            all_digits(s@.subrange(start as int, i as int), radix as nat),
            acc as nat == digits_value(s@.subrange(start as int, i as int), radix as nat),
        decreases n - i,
    {
        let c = s.get_char(i);
        let d = digit_of(c);
        let ghost prev = s@.subrange(start as int, i as int);
        let ghost next = s@.subrange(start as int, i as int + 1);
        assert(next.drop_last() =~= prev);
        assert(next.last() == c);
        assert(body.take(i - start + 1) =~= next);
        assert(digits_value(next, radix as nat) == acc as nat * radix as nat + d as nat);
        if d as usize >= radix {
            assert(body[i - start] == c);
            assert(digit_value(body[i - start]) >= radix as nat);
            assert(!all_digits(body, radix as nat));
            assert(radix_value(s@, radix as nat) is None);
            return None;
        }
        match acc.checked_mul(radix) {
            None => {
                proof {
                    lemma_prefix_value_le(body, i - start + 1, radix as nat);
                    assert(acc as nat * radix as nat + d as nat >= acc as nat * radix as nat);
                    assert(radix_value(s@, radix as nat) is None);
                }
                return None;
            },
            Some(m) => match m.checked_add(d as usize) {
                None => {
                    proof {
                        lemma_prefix_value_le(body, i - start + 1, radix as nat);
                        assert(radix_value(s@, radix as nat) is None);
                    }
                    return None;
                },
                Some(v) => {
                    acc = v;
                },
            },
        }
        assert(all_digits(next, radix as nat)) by {
            assert forall|j: int| 0 <= j < next.len() implies #[trigger] digit_value(next[j])
                < radix as nat by {
                if j < prev.len() {
                    assert(next[j] == prev[j]);
                }
            }
        }
        i = i + 1;
    }
    assert(s@.subrange(start as int, n as int) =~= body);
    Some(acc)
}

/// Parses a number written in hexadecimal after a `0x` prefix, or else in decimal.
pub fn parse_number(s: &str) -> (r: Option<usize>)
    ensures
        r is Some <==> number_value(s@) is Some,
        r is Some ==> number_value(s@) == Some(r->0 as nat),
{
    let n = s.unicode_len();
    if n >= 2 && s.get_char(0) == '0' && s.get_char(1) == 'x' {
        let rest = s.substring_char(2, n);
        assert(rest@ =~= s@.skip(2));
        parse_radix(rest, 16)
    } else {
        parse_radix(s, 10)
    }
}

fn digit_str(d: usize) -> (r: &'static str)
    requires
        d < 10,
    ensures
        r@ == seq![digit_char(d as nat)],
{
    proof {
        reveal_strlit("0");
        reveal_strlit("1");
        reveal_strlit("2");
        reveal_strlit("3");
        reveal_strlit("4");
        reveal_strlit("5");
        reveal_strlit("6");
        reveal_strlit("7");
        reveal_strlit("8");
        reveal_strlit("9");
    }
    let r = if d == 0 { "0" }
    else if d == 1 { "1" }
    else if d == 2 { "2" }
    else if d == 3 { "3" }
    else if d == 4 { "4" }
    else if d == 5 { "5" }
    else if d == 6 { "6" }
    else if d == 7 { "7" }
    else if d == 8 { "8" }
    else { "9" };
    assert(r@ =~= seq![digit_char(d as nat)]);
    r
}

/// Writes `n` in decimal notation.
pub fn decimal_string(n: usize) -> (r: String)
    ensures
        r@ == decimal_text(n as nat),
    decreases n,
{
    if n < 10 {
        String::from_str(digit_str(n))
    } else {
        let mut s = decimal_string(n / 10);
        s.append(digit_str(n % 10));
        assert(s@ =~= decimal_text(n as nat));
        s
    }
}

} // verus!
