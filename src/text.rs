use vstd::prelude::*;

verus! {

/// The character of a digit below sixteen, lowercase for the letters.
pub open spec fn digit_char(d: nat) -> char {
    if d == 0 {
        '0'
    } else if d == 1 {
        '1'
    } else if d == 2 {
        '2'
    } else if d == 3 {
        '3'
    } else if d == 4 {
        '4'
    } else if d == 5 {
        '5'
    } else if d == 6 {
        '6'
    } else if d == 7 {
        '7'
    } else if d == 8 {
        '8'
    } else if d == 9 {
        '9'
    } else if d == 10 {
        'a'
    } else if d == 11 {
        'b'
    } else if d == 12 {
        'c'
    } else if d == 13 {
        'd'
    } else if d == 14 {
        'e'
    } else {
        'f'
    }
}

/// `n` written in `base` (ten or sixteen), zero-padded on the left to at
/// least `width` digits.
pub open spec fn digits(n: nat, width: nat, base: nat) -> Seq<char>
    decreases n + width,
{
    if !(base == 10 || base == 16) {
        Seq::empty()
    } else if n < base && width <= 1 {
        seq![digit_char(n)]
    } else {
        digits(
            n / base,
            if width > 0 {
                (width - 1) as nat
            } else {
                0
            },
            base,
        ).push(digit_char(n % base))
    }
}

/// `a` comes before `b` in the order of strings, and position `i` is where
/// they first differ.
pub open spec fn differs_first_at(a: Seq<char>, b: Seq<char>, i: int) -> bool {
    &&& 0 <= i < a.len()
    &&& i < b.len()
    &&& a.subrange(0, i) == b.subrange(0, i)
    &&& (a[i] as u32) < (b[i] as u32)
}

/// Lexicographic order of strings, character by character, as `String`'s
/// `Ord` compares them.
pub open spec fn lex_lt(a: Seq<char>, b: Seq<char>) -> bool {
    ||| exists|i: int| differs_first_at(a, b, i)
    ||| (a.len() < b.len() && a == b.subrange(0, a.len() as int))
}

pub proof fn lemma_digit_char_order(d: nat, e: nat)
    requires
        d < e < 16,
    ensures
        (digit_char(d) as u32) < (digit_char(e) as u32),
{
}

pub proof fn lemma_digits_len(n: nat, width: nat, base: nat)
    requires
        base == 10 || base == 16,
        width >= 1,
        n < vstd::arithmetic::power::pow(base as int, width),
    ensures
        digits(n, width, base).len() == width,
    decreases width,
{
    reveal(vstd::arithmetic::power::pow);
    if n < base && width <= 1 {
    } else {
        let p = vstd::arithmetic::power::pow(base as int, (width - 1) as nat);
        assert(width >= 2) by {
            if width == 1 {
                assert(p == 1);
            }
        }
        assert(n / base < p) by (nonlinear_arith)
            requires
                n < base * p,
                base > 0,
        ;
        lemma_digits_len(n / base, (width - 1) as nat, base);
    }
}

/// Equal prefixes keep the order of what follows them.
pub proof fn lemma_prefix_keeps_order(c: Seq<char>, a: Seq<char>, b: Seq<char>, i: int)
    requires
        differs_first_at(a, b, i),
    ensures
        differs_first_at(c + a, c + b, c.len() + i),
{
    assert((c + a).subrange(0, c.len() + i) =~= c + a.subrange(0, i));
    assert((c + b).subrange(0, c.len() + i) =~= c + b.subrange(0, i));
}

/// Of two strings of one length, the first that differs decides, whatever
/// follows.
pub proof fn lemma_head_decides(a1: Seq<char>, a2: Seq<char>, b1: Seq<char>, b2: Seq<char>, i: int)
    requires
        a1.len() == b1.len(),
        differs_first_at(a1, b1, i),
    ensures
        differs_first_at(a1 + a2, b1 + b2, i),
{
    assert((a1 + a2).subrange(0, i) =~= a1.subrange(0, i));
    assert((b1 + b2).subrange(0, i) =~= b1.subrange(0, i));
}

proof fn lemma_single_char_order(c: char, d: char)
    requires
        (c as u32) < (d as u32),
    ensures
        differs_first_at(seq![c], seq![d], 0),
{
    assert(seq![c].subrange(0, 0) =~= seq![d].subrange(0, 0));
}

/// Zero-padded numbers of one width are in the order of their values.
pub proof fn lemma_digits_order(n: nat, m: nat, width: nat, base: nat) -> (i: int)
    requires
        base == 10 || base == 16,
        width >= 1,
        n < m < vstd::arithmetic::power::pow(base as int, width),
    ensures
        differs_first_at(digits(n, width, base), digits(m, width, base), i),
    decreases width,
{
    reveal(vstd::arithmetic::power::pow);
    let p = vstd::arithmetic::power::pow(base as int, (width - 1) as nat);
    if width == 1 {
        assert(p == 1);
        assert(m < base);
        lemma_digit_char_order(n, m);
        lemma_single_char_order(digit_char(n), digit_char(m));
        assert(digits(n, width, base) == seq![digit_char(n)]);
        assert(digits(m, width, base) == seq![digit_char(m)]);
        0
    } else {
        assert(n / base < p && m / base < p) by (nonlinear_arith)
            requires
                n < base * p,
                m < base * p,
                base > 0,
        ;
        assert(n / base <= m / base) by (nonlinear_arith)
            requires
                n < m,
                base > 0,
        ;
        let w1 = (width - 1) as nat;
        lemma_digits_len(n / base, w1, base);
        lemma_digits_len(m / base, w1, base);
        let dn = digits(n / base, w1, base);
        let dm = digits(m / base, w1, base);
        assert(digits(n, width, base) == dn.push(digit_char(n % base)));
        assert(digits(m, width, base) == dm.push(digit_char(m % base)));
        assert(dn.push(digit_char(n % base)) =~= dn + seq![digit_char(n % base)]);
        assert(dm.push(digit_char(m % base)) =~= dm + seq![digit_char(m % base)]);
        if n / base < m / base {
            let j = lemma_digits_order(n / base, m / base, w1, base);
            lemma_head_decides(dn, seq![digit_char(n % base)], dm, seq![digit_char(m % base)], j);
            j
        } else {
            assert(n % base < m % base) by (nonlinear_arith)
                requires
                    n < m,
                    n / base == m / base,
                    base > 0,
            ;
            lemma_digit_char_order(n % base, m % base);
            lemma_single_char_order(digit_char(n % base), digit_char(m % base));
            lemma_prefix_keeps_order(dn, seq![digit_char(n % base)], seq![digit_char(m % base)], 0);
            w1 as int
        }
    }
}

/// The string of one decimal digit.
fn digit_str(d: u32) -> (r: &'static str)
    requires
        d < 10,
    ensures
        r@ == seq![digit_char(d as nat)],
{
    proof {
        reveal_strlit("0");
        reveal_strlit("1");
        reveal_strlit("2");
        reveal_strlit("3");
        reveal_strlit("4");
        reveal_strlit("5");
        reveal_strlit("6");
        reveal_strlit("7");
        reveal_strlit("8");
        reveal_strlit("9");
    }
    let r = if d == 0 {
        "0"
    } else if d == 1 {
        "1"
    } else if d == 2 {
        "2"
    } else if d == 3 {
        "3"
    } else if d == 4 {
        "4"
    } else if d == 5 {
        "5"
    } else if d == 6 {
        "6"
    } else if d == 7 {
        "7"
    } else if d == 8 {
        "8"
    } else {
        "9"
    };
    assert(r@ =~= seq![digit_char(d as nat)]);
    r
}

/// Appends `n` in decimal, zero-padded on the left to at least `width`
/// digits.
pub fn push_decimal(s: &mut String, n: u32, width: usize)
    ensures
        final(s)@ == old(s)@ + digits(n as nat, width as nat, 10),
    decreases n as nat + width as nat,
{
    if n < 10 && width <= 1 {
        s.append(digit_str(n));
    } else {
        let w = if width > 0 {
            width - 1
        } else {
            0
        };
        push_decimal(s, n / 10, w);
        s.append(digit_str(n % 10));
        assert(old(s)@ + digits(n as nat, width as nat, 10) =~= old(s)@ + digits((n / 10) as nat, w as nat, 10)
            + seq![digit_char((n % 10) as nat)]);
    }
}

} // verus!
