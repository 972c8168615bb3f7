//! Verified text helpers: character-wise string equality, decimal
//! rendering of signed integers, and case-folded substring search over the
//! ASCII letters — what command matching and chat-id comparison need.

use vstd::prelude::*;

verus! {

/// Relies on String::push: appends one character to the string.
pub assume_specification[ String::push ](s: &mut String, ch: char)
    ensures
        final(s)@ == old(s)@.push(ch),
;

/// Character-wise equality of two string slices.
pub fn str_eq(a: &str, b: &str) -> (r: bool)
    ensures
        r == (a@ == b@),
{
    let n = a.unicode_len();
    let m = b.unicode_len();
    if n != m {
        proof {
            assert(a@.len() != b@.len());
        }
        return false;
    }
    let mut i: usize = 0;
    while i < n
        invariant
            0 <= i <= n,
            n == a@.len(),
            n == b@.len(),
            forall|j: int| 0 <= j < i ==> a@[j] == b@[j],
        decreases n - i,
    {
        if a.get_char(i) != b.get_char(i) {
            return false;
        }
        i += 1;
    }
    proof {
        assert(a@ =~= b@);
    }
    true
}

/// The decimal digits of `n`, most significant first.
pub open spec fn dec_digits(n: nat) -> Seq<char>
    decreases n,
{
    if n < 10 {
        seq![digit_char(n)]
    } else {
        dec_digits(n / 10).push(digit_char(n % 10))
    }
}

pub open spec fn digit_char(d: nat) -> char {
    if d == 0 {
        '0'
    } else if d == 1 {
        '1'
    } else if d == 2 {
        '2'
    } else if d == 3 {
        '3'
    } else if d == 4 {
        '4'
    } else if d == 5 {
        '5'
    } else if d == 6 {
        '6'
    } else if d == 7 {
        '7'
    } else if d == 8 {
        '8'
    } else {
        '9'
    }
}

/// The decimal rendering of a signed integer, as std's formatter writes it.
pub open spec fn dec_model(n: int) -> Seq<char> {
    if n < 0 {
        seq!['-'] + dec_digits((-n) as nat)
    } else {
        dec_digits(n as nat)
    }
}

fn digit_str(d: u64) -> (r: &'static str)
    requires
        d < 10,
    ensures
        r@ == seq![digit_char(d as nat)],
{
    let r: &'static str = if d == 0 {
        "0"
    } else if d == 1 {
        "1"
    } else if d == 2 {
        "2"
    } else if d == 3 {
        "3"
    } else if d == 4 {
        "4"
    } else if d == 5 {
        "5"
    } else if d == 6 {
        "6"
    } else if d == 7 {
        "7"
    } else if d == 8 {
        "8"
    } else {
        "9"
    };
    proof {
        reveal_strlit("0");
        reveal_strlit("1");
        reveal_strlit("2");
        reveal_strlit("3");
        reveal_strlit("4");
        reveal_strlit("5");
        reveal_strlit("6");
        reveal_strlit("7");
        reveal_strlit("8");
        reveal_strlit("9");
        assert(r@ =~= seq![digit_char(d as nat)]);
    }
    r
}

fn u64_to_dec(m: u64) -> (r: String)
    ensures
        r@ == dec_digits(m as nat),
    decreases m,
{
    if m < 10 {
        digit_str(m).to_owned()
    } else {
        let r = u64_to_dec(m / 10).concat(digit_str(m % 10));
        proof {
            assert((m / 10) as nat == (m as nat) / 10);
            assert((m % 10) as nat == (m as nat) % 10);
            assert(dec_digits((m as nat) / 10).push(digit_char((m as nat) % 10)) =~= dec_digits(
                (m as nat) / 10,
            ) + seq![digit_char((m as nat) % 10)]);
        }
        r
    }
}

/// Renders a signed integer in decimal.
pub fn i64_to_dec(n: i64) -> (r: String)
    ensures
        r@ == dec_model(n as int),
{
    if n >= 0 {
        u64_to_dec(n as u64)
    } else {
        let mag: u64 = if n == i64::MIN {
            9223372036854775808u64
        } else {
            (-n) as u64
        };
        proof {
            assert(mag as nat == (-(n as int)) as nat);
            reveal_strlit("-");
            assert("-"@ =~= seq!['-']);
        }
        String::from_str("-").concat(u64_to_dec(mag).as_str())
    }
}

/// ASCII lower-casing of one character; other characters pass unchanged.
pub open spec fn lower_char(c: char) -> char {
    if 'A' <= c && c <= 'Z' {
        ((c as u8) + 32) as char
    } else {
        c
    }
}

/// A string lowered character by character over the ASCII letters.
pub open spec fn lower_model(s: Seq<char>) -> Seq<char> {
    s.map_values(|c: char| lower_char(c))
}

/// `p` occurs in `s` starting at position `i`.
pub open spec fn occurs_at(s: Seq<char>, p: Seq<char>, i: int) -> bool {
    forall|j: int| 0 <= j < p.len() ==> s[i + j] == p[j]
}

/// `p` occurs somewhere in `s`.
pub open spec fn occurs_in(s: Seq<char>, p: Seq<char>) -> bool {
    exists|i: int| 0 <= i && i + p.len() <= s.len() && #[trigger] occurs_at(s, p, i)
}

fn lower_char_exec(c: char) -> (r: char)
    ensures
        r == lower_char(c),
{
    if 'A' <= c && c <= 'Z' {
        proof {
            assert(c as u32 <= 90);
        }
        ((c as u8) + 32) as char
    } else {
        c
    }
}

/// The suffix of `s` after its last slash; `s` itself when it has none.
pub open spec fn after_last_slash_model(s: Seq<char>) -> Seq<char>
    decreases s.len(),
{
    if s.len() == 0 {
        Seq::empty()
    } else if s.last() == '/' {
        Seq::empty()
    } else {
        after_last_slash_model(s.drop_last()).push(s.last())
    }
}

/// Takes the suffix after the last slash.
pub fn after_last_slash(s: &str) -> (r: String)
    ensures
        r@ == after_last_slash_model(s@),
    decreases s@.len(),
{
    let n = s.unicode_len();
    if n == 0 {
        String::new()
    } else {
        let c = s.get_char(n - 1);
        if c == '/' {
            String::new()
        } else {
            let head = s.substring_char(0, n - 1);
            proof {
                assert(head@ =~= s@.drop_last());
            }
            let mut r = after_last_slash(head);
            r.push(c);
            r
        }
    }
}

/// Every dash replaced by a space.
pub open spec fn replace_dashes_model(s: Seq<char>) -> Seq<char> {
    s.map_values(|c: char| if c == '-' { ' ' } else { c })
}

/// Replaces each dash with a space.
pub fn replace_dashes(s: &str) -> (r: String)
    ensures
        r@ == replace_dashes_model(s@),
{
    let n = s.unicode_len();
    let mut out = String::new();
    let mut i: usize = 0;
    while i < n
        invariant
            0 <= i <= n,
            n == s@.len(),
            out@ == replace_dashes_model(s@.take(i as int)),
        decreases n - i,
    {
        let ghost pre = out@;
        let c = s.get_char(i);
        if c == '-' {
            out.push(' ');
        } else {
            out.push(c);
        }
        proof {
            assert(out@ =~= replace_dashes_model(s@.take(i + 1)));
        }
        i += 1;
    }
    proof {
        assert(s@.take(n as int) =~= s@);
    }
    out
}

fn match_at(s: &str, p: &str, i: usize) -> (r: bool)
    requires
        i + p@.len() <= s@.len(),
    ensures
        r == occurs_at(lower_model(s@), p@, i as int),
{
    let ghost ls = lower_model(s@);
    let n = s.unicode_len();
    let m = p.unicode_len();
    let mut j: usize = 0;
    while j < m
        invariant
            0 <= j <= m,
            i + m <= n,
            n == s@.len(),
            m == p@.len(),
            ls == lower_model(s@),
            forall|jj: int| 0 <= jj < j ==> ls[i + jj] == p@[jj],
        decreases m - j,
    {
        let c = lower_char_exec(s.get_char(i + j));
        proof {
            assert(ls[i + j] == lower_char(s@[i + j]));
        }
        if c != p.get_char(j) {
            proof {
                assert(ls[i + j] != p@[j as int]);
                assert(!occurs_at(ls, p@, i as int));
            }
            return false;
        }
        j += 1;
    }
    proof {
        assert(occurs_at(ls, p@, i as int));
    }
    true
}

/// Whether the ASCII-lowered text contains the pattern `p` (given already
/// in lower case).
pub fn contains_lowered(s: &str, p: &str) -> (r: bool)
    ensures
        r == occurs_in(lower_model(s@), p@),
{
    let n = s.unicode_len();
    let m = p.unicode_len();
    let ghost ls = lower_model(s@);
    if m > n {
        proof {
            assert(forall|i: int|
                !(0 <= i && i + p@.len() <= ls.len() && #[trigger] occurs_at(ls, p@, i)));
        }
        return false;
    }
    let mut i: usize = 0;
    while i <= n - m
        invariant
            0 <= i <= n - m + 1,
            m <= n,
            n == s@.len(),
            m == p@.len(),
            ls == lower_model(s@),
            ls.len() == n,
            forall|ii: int| 0 <= ii < i ==> !#[trigger] occurs_at(ls, p@, ii),
        decreases n - m + 1 - i,
    {
        if match_at(s, p, i) {
            return true;
        }
        i += 1;
    }
    proof {
        assert(forall|ii: int|
            0 <= ii && ii + p@.len() <= ls.len() ==> !#[trigger] occurs_at(ls, p@, ii));
    }
    false
}

/// Whether the ASCII-lowered text equals the pattern `p` (given already in
/// lower case).
pub fn eq_lowered(s: &str, p: &str) -> (r: bool)
    ensures
        r == (lower_model(s@) == p@),
{
    let ghost ls = lower_model(s@);
    let n = s.unicode_len();
    let m = p.unicode_len();
    if n != m {
        proof {
            assert(ls.len() == n);
        }
        return false;
    }
    let r = match_at(s, p, 0);
    proof {
        if occurs_at(ls, p@, 0) {
            assert forall|j: int| 0 <= j < ls.len() implies ls[j] == p@[j] by {
                assert(ls[0 + j] == p@[j]);
            }
            assert(ls =~= p@);
        } else {
            if ls == p@ {
                assert forall|j: int| 0 <= j < p@.len() implies ls[0 + j] == p@[j] by {
                    assert(ls[j] == p@[j]);
                }
                assert(occurs_at(ls, p@, 0));
            }
        }
    }
    r
}

} // verus!
