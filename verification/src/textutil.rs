use vstd::prelude::*;
use vstd::string::StrSliceExecFns;
use vstd::string::StringExecFns;

verus! {

/// Compares two string slices character by character.
pub fn str_eq(a: &str, b: &str) -> (r: bool)
    ensures
        r == (a@ == b@),
{
    let na = a.unicode_len();
    let nb = b.unicode_len();
    if na != nb {
        return false;
    }
    let mut i: usize = 0;
    while i < na
        invariant
            0 <= i <= na,
            na == a@.len(),
            na == b@.len(),
            forall|j: int| 0 <= j < i ==> a@[j] == b@[j],
        decreases na - i,
    {
        if a.get_char(i) != b.get_char(i) {
            return false;
        }
        i += 1;
    }
    proof {
        assert(a@ =~= b@);
    }
    true
}

/// The string an optional field holds, or the empty string.
pub fn or_empty(o: Option<String>) -> (r: String)
    ensures
        r@ == opt_view_or_empty(o),
{
    match o {
        Some(s) => s,
        None => String::new(),
    }
}

/// The view of an optional string, or the empty sequence.
pub open spec fn opt_view_or_empty(o: Option<String>) -> Seq<char> {
    match o {
        Some(s) => s@,
        None => Seq::<char>::empty(),
    }
}

/// Whitespace for tokenizing: the ASCII whitespace characters.
pub open spec fn is_ws(c: char) -> bool {
    c == ' ' || c == '\t' || c == '\n' || c == '\r' || c == '\x0c'
}

/// The length of the leading run of non-whitespace characters.
pub open spec fn token_len(s: Seq<char>) -> nat
    decreases s.len(),
{
    if s.len() == 0 || is_ws(s[0]) {
        0
    } else {
        1 + token_len(s.drop_first())
    }
}

/// The leading token never runs past the end of the sequence.
pub proof fn lemma_token_len_le(s: Seq<char>)
    ensures
        token_len(s) <= s.len(),
    decreases s.len(),
{
    if s.len() > 0 && !is_ws(s[0]) {
        lemma_token_len_le(s.drop_first());
    }
}

/// The whitespace-delimited tokens of `s`, in order: the maximal runs of
/// non-whitespace characters.
pub open spec fn split_ws(s: Seq<char>) -> Seq<Seq<char>>
    decreases s.len(),
    via split_ws_decreases
{
    if s.len() == 0 {
        Seq::<Seq<char>>::empty()
    } else if is_ws(s[0]) {
        split_ws(s.drop_first())
    } else {
        seq![s.take(token_len(s) as int)] + split_ws(s.skip(token_len(s) as int))
    }
}

#[via_fn]
proof fn split_ws_decreases(s: Seq<char>) {
    lemma_token_len_le(s);
}

/// If the first `n` characters of `s` are not whitespace and the one after
/// them (if any) is, then the leading token is exactly those `n` characters.
proof fn lemma_token_len_at(s: Seq<char>, n: int)
    requires
        0 <= n <= s.len(),
        forall|k: int| 0 <= k < n ==> !is_ws(#[trigger] s[k]),
        n < s.len() ==> is_ws(s[n]),
    ensures
        token_len(s) == n,
    decreases n,
{
    if n == 0 {
    } else {
        let t = s.drop_first();
        assert forall|k: int| 0 <= k < n - 1 implies !is_ws(#[trigger] t[k]) by {
            assert(t[k] == s[k + 1]);
        }
        if n - 1 < t.len() {
            assert(t[n - 1] == s[n]);
        }
        lemma_token_len_at(t, n - 1);
    }
}

/// Splits a string into its whitespace-delimited tokens.
pub fn split_whitespace_tokens(s: &str) -> (toks: Vec<String>)
    ensures
        toks.deep_view() == split_ws(s@),
{
    let n = s.unicode_len();
    let mut toks: Vec<String> = Vec::new();
    let mut i: usize = 0;
    proof {
        assert(s@.skip(0) =~= s@);
        assert(toks.deep_view() + split_ws(s@) =~= split_ws(s@));
    }
    while i < n
        invariant
            0 <= i <= n,
            n == s@.len(),
            toks.deep_view() + split_ws(s@.skip(i as int)) == split_ws(s@),
        decreases n - i,
    {
        let c = s.get_char(i);
        if c == ' ' || c == '\t' || c == '\n' || c == '\r' || c == '\x0c' {
            proof {
                assert(s@.skip(i as int).drop_first() =~= s@.skip(i as int + 1));
            }
            i += 1;
        } else {
            let ghost pre_toks = toks.deep_view();
            let start = i;
            i += 1;
            while i < n
                invariant
                    start < i <= n,
                    n == s@.len(),
                    forall|k: int| start <= k < i ==> !is_ws(#[trigger] s@[k]),
                ensures
                    start < i <= n,
                    forall|k: int| start <= k < i ==> !is_ws(#[trigger] s@[k]),
                    i < n ==> is_ws(s@[i as int]),
                decreases n - i,
            {
                let c2 = s.get_char(i);
                if c2 == ' ' || c2 == '\t' || c2 == '\n' || c2 == '\r' || c2 == '\x0c' {
                    break ;
                }
                i += 1;
            }
            let tok = s.substring_char(start, i).to_owned();
            proof {
                let tail = s@.skip(start as int);
                assert forall|k: int| 0 <= k < i - start implies !is_ws(#[trigger] tail[k]) by {
                    assert(tail[k] == s@[start + k]);
                }
                if i - start < tail.len() {
                    assert(tail[i - start] == s@[i as int]);
                }
                lemma_token_len_at(tail, i - start);
                assert(tail.take(i - start) =~= s@.subrange(start as int, i as int));
                assert(tail.skip(i - start) =~= s@.skip(i as int));
                assert(split_ws(tail) == seq![tok@] + split_ws(s@.skip(i as int)));
            }
            toks.push(tok);
            proof {
                assert(toks.deep_view() =~= pre_toks.push(tok@));
                assert(toks.deep_view() + split_ws(s@.skip(i as int)) =~= pre_toks + (seq![tok@]
                    + split_ws(s@.skip(i as int))));
                assert(toks.deep_view() + split_ws(s@.skip(i as int)) == split_ws(s@));
            }
        }
    }
    proof {
        assert(s@.skip(n as int) =~= Seq::<char>::empty());
        assert(toks.deep_view() =~= toks.deep_view() + split_ws(s@.skip(n as int)));
    }
    toks
}

/// Joins a chat's first and last name into one display name: both when
/// both are present, the one that is when only one is, and "Unknown"
/// when neither is.
pub fn display_name(first: &str, last: &str) -> (r: String)
    ensures
        first@.len() > 0 && last@.len() > 0 ==> r@ == first@ + " "@ + last@,
        first@.len() > 0 && last@.len() == 0 ==> r@ == first@,
        first@.len() == 0 && last@.len() > 0 ==> r@ == last@,
        first@.len() == 0 && last@.len() == 0 ==> r@ == "Unknown"@,
{
    if !first.is_empty() && !last.is_empty() {
        String::from_str(first).concat(" ").concat(last)
    } else if !first.is_empty() {
        String::from_str(first)
    } else if !last.is_empty() {
        String::from_str(last)
    } else {
        String::from_str("Unknown")
    }
}

/// Whether `v` holds a string whose characters are `s`.
pub fn vec_contains_str(v: &Vec<String>, s: &str) -> (r: bool)
    ensures
        r == v.deep_view().contains(s@),
{
    let mut i: usize = 0;
    while i < v.len()
        invariant
            0 <= i <= v.len(),
            forall|j: int| 0 <= j < i ==> v.deep_view()[j] != s@,
        decreases v.len() - i,
    {
        if str_eq(v[i].as_str(), s) {
            proof {
                assert(v.deep_view()[i as int] == s@);
            }
            return true;
        }
        i += 1;
    }
    proof {
        assert forall|j: int| 0 <= j < v.deep_view().len() implies v.deep_view()[j] != s@ by {}
    }
    false
}

} // verus!
