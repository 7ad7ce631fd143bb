//! Text helpers shared by the registry: decimal rendering of surface ids and
//! lexicographic comparison of names, each specified over sequences of chars.

use vstd::prelude::*;
use vstd::string::*;

verus! {

/// The char for one decimal digit value.
pub open spec fn digit_char(d: int) -> char {
    if d == 0 {
        '0'
    } else if d == 1 {
        '1'
    } else if d == 2 {
        '2'
    } else if d == 3 {
        '3'
    } else if d == 4 {
        '4'
    } else if d == 5 {
        '5'
    } else if d == 6 {
        '6'
    } else if d == 7 {
        '7'
    } else if d == 8 {
        '8'
    } else {
        '9'
    }
}

/// The decimal rendering of a number, most significant digit first,
/// without leading zeros (a single zero for zero itself).
pub open spec fn dec_digits(n: nat) -> Seq<char>
    decreases n,
{
    if n < 10 {
        seq![digit_char(n as int)]
    } else {
        dec_digits(n / 10).push(digit_char((n % 10) as int))
    }
}

fn digit_str(d: u32) -> (r: &'static str)
    requires
        d < 10,
    ensures
        r@ == seq![digit_char(d as int)],
{
    proof {
        reveal_strlit("0");
        reveal_strlit("1");
        reveal_strlit("2");
        reveal_strlit("3");
        reveal_strlit("4");
        reveal_strlit("5");
        reveal_strlit("6");
        reveal_strlit("7");
        reveal_strlit("8");
        reveal_strlit("9");
    }
    let r: &'static str = match d {
        0 => "0",
        1 => "1",
        2 => "2",
        3 => "3",
        4 => "4",
        5 => "5",
        6 => "6",
        7 => "7",
        8 => "8",
        _ => "9",
    };
    proof {
        assert(r@ =~= seq![digit_char(d as int)]);
    }
    r
}

/// Render a number in decimal, matching `dec_digits`.
pub fn u32_to_dec(n: u32) -> (r: String)
    ensures
        r@ == dec_digits(n as nat),
    decreases n,
{
    if n < 10 {
        let s = digit_str(n);
        s.to_owned()
    } else {
        let prefix = u32_to_dec(n / 10);
        let d = digit_str(n % 10);
        let r = prefix.concat(d);
        proof {
            assert(r@ =~= dec_digits(n as nat));
        }
        r
    }
}

/// Three-way comparison of two char sequences from position `i` on:
/// negative when `a` sorts first, positive when `b` does, zero on a tie.
/// Chars compare by their scalar values, shorter sequences sort first.
pub open spec fn seq_cmp_from(a: Seq<char>, b: Seq<char>, i: int) -> int
    decreases a.len() - i,
{
    if i >= a.len() && i >= b.len() {
        0
    } else if i >= a.len() {
        -1
    } else if i >= b.len() {
        1
    } else if (a[i] as u32) < (b[i] as u32) {
        -1
    } else if (a[i] as u32) > (b[i] as u32) {
        1
    } else {
        seq_cmp_from(a, b, i + 1)
    }
}

/// Three-way lexicographic comparison of two char sequences.
pub open spec fn seq_cmp(a: Seq<char>, b: Seq<char>) -> int {
    seq_cmp_from(a, b, 0)
}

pub proof fn lemma_seq_cmp_from_antisym(a: Seq<char>, b: Seq<char>, i: int)
    ensures
        seq_cmp_from(a, b, i) == -seq_cmp_from(b, a, i),
    decreases a.len() - i,
{
    if i < a.len() && i < b.len() && (a[i] as u32) == (b[i] as u32) {
        lemma_seq_cmp_from_antisym(a, b, i + 1);
    }
}

/// Comparison swaps its sign when the arguments swap.
pub proof fn lemma_seq_cmp_antisym(a: Seq<char>, b: Seq<char>)
    ensures
        seq_cmp(a, b) == -seq_cmp(b, a),
{
    lemma_seq_cmp_from_antisym(a, b, 0);
}

pub proof fn lemma_seq_cmp_from_trans(a: Seq<char>, b: Seq<char>, c: Seq<char>, i: int)
    ensures
        seq_cmp_from(a, b, i) <= 0 && seq_cmp_from(b, c, i) <= 0 ==> seq_cmp_from(a, c, i) <= 0,
        seq_cmp_from(a, b, i) == 0 && seq_cmp_from(b, c, i) == 0 ==> seq_cmp_from(a, c, i) == 0,
        seq_cmp_from(a, b, i) < 0 && seq_cmp_from(b, c, i) <= 0 ==> seq_cmp_from(a, c, i) < 0,
        seq_cmp_from(a, b, i) <= 0 && seq_cmp_from(b, c, i) < 0 ==> seq_cmp_from(a, c, i) < 0,
    decreases a.len() - i,
{
    if i < a.len() {
        lemma_seq_cmp_from_trans(a, b, c, i + 1);
    }
}

/// Comparison is transitive, both in the weak order and on exact ties.
pub proof fn lemma_seq_cmp_trans(a: Seq<char>, b: Seq<char>, c: Seq<char>)
    ensures
        seq_cmp(a, b) <= 0 && seq_cmp(b, c) <= 0 ==> seq_cmp(a, c) <= 0,
        seq_cmp(a, b) == 0 && seq_cmp(b, c) == 0 ==> seq_cmp(a, c) == 0,
        seq_cmp(a, b) < 0 && seq_cmp(b, c) <= 0 ==> seq_cmp(a, c) < 0,
        seq_cmp(a, b) <= 0 && seq_cmp(b, c) < 0 ==> seq_cmp(a, c) < 0,
{
    lemma_seq_cmp_from_trans(a, b, c, 0);
}

/// Three-way comparison of two strings by their char sequences.
pub fn str_cmp(a: &str, b: &str) -> (r: i8)
    ensures
        r as int == seq_cmp(a@, b@),
{
    let alen = a.unicode_len();
    let blen = b.unicode_len();
    let mut i: usize = 0;
    loop
        invariant
            alen == a@.len(),
            blen == b@.len(),
            i <= alen,
            i <= blen,
            seq_cmp(a@, b@) == seq_cmp_from(a@, b@, i as int),
        decreases alen - i,
    {
        if i >= alen {
            if blen > i {
                return -1;
            }
            return 0;
        }
        if i >= blen {
            return 1;
        }
        let ca = a.get_char(i);
        let cb = b.get_char(i);
        let x = ca as u32;
        let y = cb as u32;
        if x < y {
            return -1;
        }
        if x > y {
            return 1;
        }
        i = i + 1;
    }
}

/// Whether two strings hold the same chars.
pub fn str_eq(a: &str, b: &str) -> (r: bool)
    ensures
        r == (a@ == b@),
{
    let sa = a.to_owned();
    let sb = b.to_owned();
    sa == sb
}

} // verus!
