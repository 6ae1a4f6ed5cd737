//! Decimal rendering of numbers, `MM:SS` duration formatting, and repeated
//! text, all with exact contracts over sequences of characters.

use vstd::prelude::*;
use vstd::utf8::is_ascii_chars;

verus! {

/// The decimal digit character for `d`, which must be below ten.
pub open spec fn digit_char(d: nat) -> char {
    if d == 0 {
        '0'
    } else if d == 1 {
        '1'
    } else if d == 2 {
        '2'
    } else if d == 3 {
        '3'
    } else if d == 4 {
        '4'
    } else if d == 5 {
        '5'
    } else if d == 6 {
        '6'
    } else if d == 7 {
        '7'
    } else if d == 8 {
        '8'
    } else {
        '9'
    }
}

/// The decimal digits of `n`, most significant first, with no leading
/// zeros (a single `'0'` for zero).
pub open spec fn dec_spec(n: nat) -> Seq<char>
    decreases n,
{
    if n < 10 {
        seq![digit_char(n)]
    } else {
        dec_spec(n / 10).push(digit_char(n % 10))
    }
}

/// `n` in decimal, padded on the left with one `'0'` when it has a single
/// digit, as the minute and second fields of a duration are written.
pub open spec fn two_digit_spec(n: nat) -> Seq<char> {
    if n < 10 {
        "0"@ + dec_spec(n)
    } else {
        dec_spec(n)
    }
}

/// A duration of `secs` seconds written as `MM:SS`: whole minutes and the
/// remaining seconds, each zero-padded to at least two digits.  Minutes are
/// not wrapped at sixty, so long durations keep their full minute count.
pub open spec fn duration_spec(secs: nat) -> Seq<char> {
    two_digit_spec(secs / 60) + ":"@ + two_digit_spec(secs % 60)
}

/// `unit` repeated `n` times.
pub open spec fn repeat_seq(unit: Seq<char>, n: nat) -> Seq<char>
    decreases n,
{
    if n == 0 {
        Seq::empty()
    } else {
        repeat_seq(unit, (n - 1) as nat) + unit
    }
}

/// Powers of ten, the bound on how many digits a number can have.
pub open spec fn pow10(k: nat) -> nat
    decreases k,
{
    if k == 0 {
        1
    } else {
        10 * pow10((k - 1) as nat)
    }
}

/// A number below the `k`-th power of ten has at most `k` decimal digits.
pub proof fn lemma_dec_len_at_most(n: nat, k: nat)
    requires
        n < pow10(k),
        1 <= k,
    ensures
        dec_spec(n).len() <= k,
    decreases n,
{
    if n < 10 {
    } else {
        if k == 1 {
            assert(pow10(0) == 1);
            assert(pow10(1) == 10);
            assert(false);
        }
        assert(pow10(k) == 10 * pow10((k - 1) as nat));
        lemma_pow10_pos((k - 1) as nat);
        assert(n / 10 < pow10((k - 1) as nat)) by (nonlinear_arith)
            requires
                n < 10 * pow10((k - 1) as nat),
                pow10((k - 1) as nat) >= 1,
        ;
        lemma_dec_len_at_most(n / 10, (k - 1) as nat);
    }
}

proof fn lemma_pow10_pos(k: nat)
    ensures
        pow10(k) >= 1,
    decreases k,
{
    if k > 0 {
        lemma_pow10_pos((k - 1) as nat);
    }
}

/// A machine word has at most twenty decimal digits.
pub proof fn lemma_dec_len_u64(n: nat)
    requires
        n <= u64::MAX,
    ensures
        dec_spec(n).len() <= 20,
{
    assert(pow10(0) == 1);
    assert(pow10(1) == 10);
    assert(pow10(2) == 100);
    assert(pow10(3) == 1000);
    assert(pow10(4) == 10000);
    assert(pow10(5) == 100000);
    assert(pow10(6) == 1000000);
    assert(pow10(7) == 10000000);
    assert(pow10(8) == 100000000);
    assert(pow10(9) == 1000000000);
    assert(pow10(10) == 10000000000);
    assert(pow10(11) == 100000000000);
    assert(pow10(12) == 1000000000000);
    assert(pow10(13) == 10000000000000);
    assert(pow10(14) == 100000000000000);
    assert(pow10(15) == 1000000000000000);
    assert(pow10(16) == 10000000000000000);
    assert(pow10(17) == 100000000000000000);
    assert(pow10(18) == 1000000000000000000);
    assert(pow10(19) == 10000000000000000000);
    assert(pow10(20) == 100000000000000000000);
    lemma_dec_len_at_most(n, 20);
}

/// A rendered duration is at most forty-one characters, whatever the
/// input: each field has at most twenty digits.
pub proof fn lemma_duration_len_le(secs: nat)
    requires
        secs <= u64::MAX,
    ensures
        duration_spec(secs).len() <= 41,
{
    reveal_strlit("0");
    reveal_strlit(":");
    lemma_dec_len_u64(secs / 60);
    lemma_dec_len_u64(secs % 60);
}

/// Decimal digits are ASCII, so the byte length of a rendered number is
/// its character count.
pub proof fn lemma_dec_ascii(n: nat)
    ensures
        vstd::utf8::is_ascii_chars(dec_spec(n)),
    decreases n,
{
    if n < 10 {
        assert forall|i: int| 0 <= i < dec_spec(n).len() implies '\0' <= #[trigger] dec_spec(n)[i]
            <= '\u{7f}' by {
            assert(dec_spec(n)[i] == digit_char(n));
        }
    } else {
        lemma_dec_ascii(n / 10);
        let s = dec_spec(n / 10);
        let c = digit_char(n % 10);
        assert forall|i: int| 0 <= i < s.push(c).len() implies '\0' <= #[trigger] s.push(c)[i]
            <= '\u{7f}' by {
            if i < s.len() {
                assert(s.push(c)[i] == s[i]);
            } else {
                assert(s.push(c)[i] == c);
            }
        }
        assert(is_ascii_chars(dec_spec(n)));
    }
}

/// A duration rendering is ASCII throughout.
pub proof fn lemma_duration_ascii(secs: nat)
    ensures
        vstd::utf8::is_ascii_chars(duration_spec(secs)),
{
    broadcast use vstd::utf8::is_ascii_chars_concat;

    reveal_strlit("0");
    reveal_strlit(":");
    lemma_dec_ascii(secs / 60);
    lemma_dec_ascii(secs % 60);
    assert(is_ascii_chars("0"@));
    assert(is_ascii_chars(":"@));
    assert(duration_spec(secs) =~= (two_digit_spec(secs / 60) + ":"@) + two_digit_spec(secs % 60));
}

/// A one-digit number has one decimal character and a two-digit number two.
pub proof fn lemma_dec_len_small(n: nat)
    ensures
        n < 10 ==> dec_spec(n).len() == 1,
        (10 <= n && n < 100) ==> dec_spec(n).len() == 2,
{
    if 10 <= n && n < 100 {
        assert(dec_spec(n / 10).len() == 1);
    }
}

/// Both duration fields are exactly two characters wide for values below
/// one hundred.
pub proof fn lemma_two_digit_len(n: nat)
    ensures
        n < 100 ==> two_digit_spec(n).len() == 2,
{
    reveal_strlit("0");
    lemma_dec_len_small(n);
}

fn digit_str(d: u64) -> (r: &'static str)
    requires
        d < 10,
    ensures
        r@ == seq![digit_char(d as nat)],
{
    let r: &'static str = if d == 0 {
        "0"
    } else if d == 1 {
        "1"
    } else if d == 2 {
        "2"
    } else if d == 3 {
        "3"
    } else if d == 4 {
        "4"
    } else if d == 5 {
        "5"
    } else if d == 6 {
        "6"
    } else if d == 7 {
        "7"
    } else if d == 8 {
        "8"
    } else {
        "9"
    };
    proof {
        reveal_strlit("0");
        reveal_strlit("1");
        reveal_strlit("2");
        reveal_strlit("3");
        reveal_strlit("4");
        reveal_strlit("5");
        reveal_strlit("6");
        reveal_strlit("7");
        reveal_strlit("8");
        reveal_strlit("9");
        assert(r@ =~= seq![digit_char(d as nat)]);
    }
    r
}

/// `n` in decimal with no leading zeros.
pub fn u64_to_dec_string(n: u64) -> (r: String)
    ensures
        r@ == dec_spec(n as nat),
    decreases n,
{
    if n < 10 {
        digit_str(n).to_owned()
    } else {
        let mut s = u64_to_dec_string(n / 10);
        s.append(digit_str(n % 10));
        proof {
            assert(s@ =~= dec_spec(n as nat));
        }
        s
    }
}

/// `n` in decimal, zero-padded on the left to at least two digits.
pub fn two_digit_string(n: u64) -> (r: String)
    ensures
        r@ == two_digit_spec(n as nat),
{
    if n < 10 {
        let mut s = "0".to_owned();
        s.append(digit_str(n));
        s
    } else {
        u64_to_dec_string(n)
    }
}

/// A duration of `ms` milliseconds written as `MM:SS`, whole seconds only.
/// For durations under ten minutes the result is exactly five characters.
pub fn get_duration_string(ms: u64) -> (r: String)
    ensures
        r@ == duration_spec((ms / 1000) as nat),
        ms / 1000 < 600 ==> r@.len() == 5,
{
    let secs = ms / 1000;
    let mut s = two_digit_string(secs / 60);
    s.append(":");
    let tail = two_digit_string(secs % 60);
    s.append(tail.as_str());
    proof {
        reveal_strlit(":");
        let sn = (ms / 1000) as nat;
        lemma_two_digit_len(sn / 60);
        lemma_two_digit_len(sn % 60);
        assert(s@ =~= duration_spec(sn));
    }
    s
}

/// `unit` repeated `n` times as a string.
pub fn repeat_str(unit: &str, n: usize) -> (r: String)
    ensures
        r@ == repeat_seq(unit@, n as nat),
{
    let mut s = String::new();
    let mut i: usize = 0;
    while i < n
        invariant
            i <= n,
            s@ == repeat_seq(unit@, i as nat),
        decreases n - i,
    {
        s.append(unit);
        i = i + 1;
        proof {
            assert(s@ =~= repeat_seq(unit@, i as nat));
        }
    }
    s
}

} // verus!
