use vstd::prelude::*;

verus! {

/// Compare two string slices character by character.
pub fn str_eq(a: &str, b: &str) -> (r: bool)
    ensures
        r == (a@ == b@),
{
    let a_len = a.unicode_len();
    let b_len = b.unicode_len();
    if a_len != b_len {
        return false;
    }
    let mut i: usize = 0;
    while i < a_len
        invariant
            a_len == a@.len(),
            b_len == b@.len(),
            a_len == b_len,
            i <= a_len,
            forall|j: int| 0 <= j < i ==> a@[j] == b@[j],
        decreases a_len - i,
    {
        if a.get_char(i) != b.get_char(i) {
            return false;
        }
        i += 1;
    }
    assert(a@ =~= b@);
    true
}

/// The decimal digit characters, in order of value.
pub open spec fn digit_char(d: int) -> char {
    if d == 0 {
        '0'
    } else if d == 1 {
        '1'
    } else if d == 2 {
        '2'
    } else if d == 3 {
        '3'
    } else if d == 4 {
        '4'
    } else if d == 5 {
        '5'
    } else if d == 6 {
        '6'
    } else if d == 7 {
        '7'
    } else if d == 8 {
        '8'
    } else {
        '9'
    }
}

/// The decimal rendering of a non-negative integer, without sign or padding.
pub open spec fn dec_str(n: int) -> Seq<char>
    decreases n,
{
    if n < 10 {
        seq![digit_char(n)]
    } else {
        dec_str(n / 10).push(digit_char(n % 10))
    }
}

/// The digits of `s`, taken in reverse order, as characters.
spec fn rev_digit_chars(s: Seq<u64>) -> Seq<char> {
    Seq::new(s.len(), |i: int| digit_char(s[s.len() - 1 - i] as int))
}

proof fn lemma_rev_digit_chars_push(s: Seq<u64>, x: u64)
    ensures
        rev_digit_chars(s.push(x)) =~= seq![digit_char(x as int)] + rev_digit_chars(s),
{
}

/// Render a number in decimal.
#[verifier::loop_isolation(false)]
pub fn u64_to_string(n: u64) -> (r: String)
    ensures
        r@ == dec_str(n as int),
{
    let digits = "0123456789";
    proof {
        reveal_strlit("0123456789");
        assert(digits.is_ascii());
    }
    let mut rev: Vec<u64> = Vec::new();
    let mut m = n;
    while m >= 10
        invariant
            dec_str(n as int) =~= dec_str(m as int) + rev_digit_chars(rev@),
            forall|j: int| 0 <= j < rev@.len() ==> rev@[j] < 10,
        decreases m,
    {
        proof {
            lemma_rev_digit_chars_push(rev@, m % 10);
        }
        rev.push(m % 10);
        m = m / 10;
    }
    proof {
        lemma_rev_digit_chars_push(rev@, m);
    }
    rev.push(m);
    assert(dec_str(n as int) =~= rev_digit_chars(rev@));

    let count = rev.len();
    let mut s = String::new();
    let mut i = count;
    while i > 0
        invariant
            count == rev@.len(),
            i <= count,
            forall|j: int| 0 <= j < count ==> rev@[j] < 10,
            s@ =~= rev_digit_chars(rev@).subrange(0, count - i),
        decreases i,
    {
        i -= 1;
        let d = rev[i] as usize;
        let digit = digits.substring_ascii(d, d + 1);
        assert(digit@ =~= seq![digit_char(d as int)]);
        s.append(digit);
        assert(s@ =~= rev_digit_chars(rev@).subrange(0, count - i));
    }
    assert(s@ =~= rev_digit_chars(rev@));
    s
}

} // verus!
