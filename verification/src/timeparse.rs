use vstd::prelude::*;
use vstd::string::StrSliceExecFns;

verus! {

/// Whether `c` is a decimal digit.
pub open spec fn is_digit(c: char) -> bool {
    48 <= c as u32 && c as u32 <= 57
}

/// The numeric value of the digit `c`.
pub open spec fn digit_val(c: char) -> nat
    recommends
        is_digit(c),
{
    (c as u32 - 48) as nat
}

/// The value of a sequence of decimal digits, most significant first.
pub open spec fn dec_val(s: Seq<char>) -> nat
    decreases s.len(),
{
    if s.len() == 0 {
        0
    } else {
        dec_val(s.drop_last()) * 10 + digit_val(s.last())
    }
}

/// Ten to the `n`th power.
pub open spec fn pow10(n: nat) -> nat
    decreases n,
{
    if n == 0 {
        1
    } else {
        10 * pow10((n - 1) as nat)
    }
}

/// The index of the first `'.'` in `s`, or `s.len()` if there is none.
pub open spec fn dot_pos(s: Seq<char>) -> int
    decreases s.len(),
{
    if s.len() == 0 {
        0
    } else if s[0] == '.' {
        0
    } else {
        1 + dot_pos(s.drop_first())
    }
}

/// Whether `s` is a timestamp this library reads: one to fifteen integer
/// digits, optionally followed by `'.'` and any number of fraction digits.
pub open spec fn valid_time(s: Seq<char>) -> bool {
    let p = dot_pos(s);
    &&& 1 <= p <= 15
    &&& forall|i: int| 0 <= i < p ==> is_digit(#[trigger] s[i])
    &&& forall|i: int| p < i < s.len() ==> is_digit(#[trigger] s[i])
}

/// The value of up to the first three fraction digits, in milliseconds.
pub open spec fn frac_millis(f: Seq<char>) -> nat {
    if f.len() == 0 {
        0
    } else if f.len() == 1 {
        digit_val(f[0]) * 100
    } else if f.len() == 2 {
        digit_val(f[0]) * 100 + digit_val(f[1]) * 10
    } else {
        digit_val(f[0]) * 100 + digit_val(f[1]) * 10 + digit_val(f[2])
    }
}

/// The timestamp `s` as whole milliseconds since the epoch: the integer
/// part in seconds times a thousand, plus the leading fraction digits.
/// Fraction digits beyond the third are ignored.
pub open spec fn time_millis(s: Seq<char>) -> nat {
    let p = dot_pos(s);
    let frac = if p < s.len() {
        s.subrange(p + 1, s.len() as int)
    } else {
        Seq::<char>::empty()
    };
    dec_val(s.subrange(0, p)) * 1000 + frac_millis(frac)
}

proof fn lemma_dot_pos_at(s: Seq<char>, k: int)
    requires
        0 <= k <= s.len(),
        forall|j: int| 0 <= j < k ==> s[j] != '.',
        k < s.len() ==> s[k] == '.',
    ensures
        dot_pos(s) == k,
    decreases k,
{
    if k == 0 {
    } else {
        assert(s[0] != '.');
        let t = s.drop_first();
        assert forall|j: int| 0 <= j < k - 1 implies t[j] != '.' by {
            assert(t[j] == s[j + 1]);
        }
        if k - 1 < t.len() {
            assert(t[k - 1] == s[k]);
        }
        lemma_dot_pos_at(t, k - 1);
    }
}

proof fn lemma_pow10_pos(n: nat)
    ensures
        pow10(n) >= 1,
    decreases n,
{
    if n > 0 {
        lemma_pow10_pos((n - 1) as nat);
    }
}

proof fn lemma_pow10_mono(a: nat, b: nat)
    requires
        a <= b,
    ensures
        pow10(a) <= pow10(b),
    decreases b,
{
    if a < b {
        lemma_pow10_mono(a, (b - 1) as nat);
        lemma_pow10_pos((b - 1) as nat);
    }
}

proof fn lemma_pow10_15()
    ensures
        pow10(15) == 1000000000000000,
{
    reveal_with_fuel(pow10, 17);
}

/// Finds the first `'.'` of `s`, or its length if there is none.
fn find_dot(s: &str) -> (p: usize)
    ensures
        p as int == dot_pos(s@),
        p <= s@.len(),
{
    let n = s.unicode_len();
    let mut i: usize = 0;
    while i < n
        invariant
            0 <= i <= n,
            n == s@.len(),
            forall|j: int| 0 <= j < i ==> s@[j] != '.',
        decreases n - i,
    {
        if s.get_char(i) == '.' {
            proof {
                lemma_dot_pos_at(s@, i as int);
            }
            return i;
        }
        i += 1;
    }
    proof {
        lemma_dot_pos_at(s@, n as int);
    }
    n
}

/// Parses a server timestamp, string-encoded decimal seconds since the
/// epoch, into whole milliseconds. Returns nothing on any string that is
/// not of the accepted form.
pub fn parse_time_millis(s: &str) -> (r: Option<u64>)
    ensures
        r is Some <==> valid_time(s@),
        r matches Some(ms) ==> ms as nat == time_millis(s@),
{
    let n = s.unicode_len();
    let p = find_dot(s);
    if p < 1 || p > 15 {
        return None;
    }
    let mut secs: u64 = 0;
    let mut i: usize = 0;
    while i < p
        invariant
            0 <= i <= p <= 15,
            p as int == dot_pos(s@),
            p <= n == s@.len(),
            forall|j: int| 0 <= j < i ==> is_digit(#[trigger] s@[j]),
            secs as nat == dec_val(s@.subrange(0, i as int)),
            secs < pow10(i as nat),
        decreases p - i,
    {
        let c = s.get_char(i);
        let u = c as u32;
        if u < 48 || u > 57 {
            return None;
        }
        proof {
            lemma_pow10_mono(i as nat, 14);
            lemma_pow10_15();
            assert(pow10(15) == 10 * pow10(14));
            let pre = s@.subrange(0, i as int);
            let ext = s@.subrange(0, i as int + 1);
            assert(ext.drop_last() =~= pre);
            assert(ext.last() == s@[i as int]);
        }
        secs = secs * 10 + ((u - 48) as u64);
        i += 1;
    }
    proof {
        lemma_pow10_mono(p as nat, 15);
        lemma_pow10_15();
        assert(secs <= 999999999999999);
    }
    // Validate the fraction digits, if a dot is present.
    let frac_start = if p < n {
        p + 1
    } else {
        p
    };
    let mut j: usize = frac_start;
    while j < n
        invariant
            frac_start <= j <= n,
            n == s@.len(),
            1 <= p <= 15,
            p <= n,
            p as int == dot_pos(s@),
            frac_start as int == if p < n { p as int + 1 } else { p as int },
            forall|k: int| 0 <= k < p ==> is_digit(#[trigger] s@[k]),
            forall|k: int| frac_start <= k < j ==> is_digit(#[trigger] s@[k]),
            secs as nat == dec_val(s@.subrange(0, p as int)),
            secs <= 999999999999999,
        decreases n - j,
    {
        let c = s.get_char(j);
        let u = c as u32;
        if u < 48 || u > 57 {
            return None;
        }
        j += 1;
    }
    let frac_len = n - frac_start;
    let mut frac: u64 = 0;
    if frac_len >= 1 {
        frac = ((s.get_char(frac_start) as u32 - 48) as u64) * 100;
    }
    if frac_len >= 2 {
        frac = frac + ((s.get_char(frac_start + 1) as u32 - 48) as u64) * 10;
    }
    if frac_len >= 3 {
        frac = frac + ((s.get_char(frac_start + 2) as u32 - 48) as u64);
    }
    proof {
        let fr = if (p as int) < s@.len() {
            s@.subrange(p as int + 1, s@.len() as int)
        } else {
            Seq::<char>::empty()
        };
        assert(fr.len() == frac_len);
        assert forall|k: int| 0 <= k < fr.len() implies fr[k] == s@[frac_start + k] by {}
        assert(secs as nat == dec_val(s@.subrange(0, p as int)));
        assert(frac as nat == frac_millis(fr));
    }
    Some(secs * 1000 + frac)
}

} // verus!
