//! Literal text operations on character sequences: token replacement,
//! suffix handling and decimal rendering.
use vstd::prelude::*;

verus! {

/// `s` with every non-overlapping occurrence of `tok`, scanned from the left,
/// replaced by `val`. An empty token leaves the text unchanged.
pub open spec fn replaced(s: Seq<char>, tok: Seq<char>, val: Seq<char>) -> Seq<char>
    decreases s.len(),
{
    if tok.len() == 0 || s.len() < tok.len() {
        s
    } else if s.subrange(0, tok.len() as int) == tok {
        val + replaced(s.skip(tok.len() as int), tok, val)
    } else {
        seq![s[0]] + replaced(s.skip(1), tok, val)
    }
}

/// Whether `s` ends with `suffix`.
pub open spec fn has_suffix(s: Seq<char>, suffix: Seq<char>) -> bool {
    suffix.len() <= s.len() && s.subrange(s.len() - suffix.len(), s.len() as int) == suffix
}

/// `s` with one trailing `suffix` removed, if it has one.
pub open spec fn without_suffix(s: Seq<char>, suffix: Seq<char>) -> Seq<char> {
    if has_suffix(s, suffix) {
        s.subrange(0, s.len() - suffix.len())
    } else {
        s
    }
}

/// The decimal digits, in order.
pub open spec fn digits() -> Seq<char> {
    "0123456789"@
}

/// The decimal rendering of `n`, without leading zeros.
pub open spec fn decimal(n: nat) -> Seq<char>
    decreases n,
{
    if n < 10 {
        seq![digits()[n as int]]
    } else {
        decimal(n / 10) + seq![digits()[(n % 10) as int]]
    }
}

/// The characters of `s`, one by one.
pub fn chars_of(s: &str) -> (r: Vec<char>)
    ensures
        r@ == s@,
{
    let n = s.unicode_len();
    let mut r: Vec<char> = Vec::new();
    let mut i: usize = 0;
    while i < n
        invariant
            n == s@.len(),
            i <= n,
            r@ == s@.subrange(0, i as int),
        decreases n - i,
    {
        r.push(s.get_char(i));
        i = i + 1;
    }
    r
}

/// Whether `tok` occurs in `s` at position `i`.
fn occurs_at(s: &Vec<char>, tok: &Vec<char>, i: usize) -> (r: bool)
    requires
        i + tok@.len() <= s@.len(),
    ensures
        r == (s@.subrange(i as int, i + tok@.len()) == tok@),
{
    let sl = s.len();
    let mut j: usize = 0;
    while j < tok.len()
        invariant
            sl == s@.len(),
            i + tok@.len() <= s@.len(),
            j <= tok@.len(),
            s@.subrange(i as int, i + j) == tok@.subrange(0, j as int),
        decreases tok@.len() - j,
    {
        if s[i + j] != tok[j] {
            assert(s@.subrange(i as int, i + tok@.len())[j as int] != tok@[j as int]);
            return false;
        }
        assert(s@.subrange(i as int, i + j + 1) =~= s@.subrange(i as int, i + j).push(s@[i + j]));
        assert(tok@.subrange(0, j + 1) =~= tok@.subrange(0, j as int).push(tok@[j as int]));
        j = j + 1;
    }
    assert(tok@.subrange(0, j as int) =~= tok@);
    true
}

proof fn lemma_replaced_skip_step(s: Seq<char>, tok: Seq<char>, val: Seq<char>, i: int)
    requires
        tok.len() > 0,
        0 <= i,
        i + tok.len() <= s.len(),
    ensures
        s.subrange(i, i + tok.len()) == tok ==> replaced(s.skip(i), tok, val) == val + replaced(
            s.skip(i + tok.len()),
            tok,
            val,
        ),
        s.subrange(i, i + tok.len()) != tok ==> replaced(s.skip(i), tok, val) == seq![s[i]]
            + replaced(s.skip(i + 1), tok, val),
{
    let t = s.skip(i);
    assert(t.subrange(0, tok.len() as int) =~= s.subrange(i, i + tok.len()));
    assert(t.skip(tok.len() as int) =~= s.skip(i + tok.len()));
    assert(t.skip(1) =~= s.skip(i + 1));
}

/// Whether `tok` occurs in `s` at some position.
pub open spec fn occurs_in(s: Seq<char>, tok: Seq<char>) -> bool {
    exists|k: int| 0 <= k && k + tok.len() <= s.len() && #[trigger] s.subrange(k, k + tok.len()) == tok
}

/// Replacing a token that does not occur leaves the text unchanged.
pub proof fn lemma_replaced_absent(s: Seq<char>, tok: Seq<char>, val: Seq<char>)
    requires
        !occurs_in(s, tok),
    ensures
        replaced(s, tok, val) == s,
    decreases s.len(),
{
    if tok.len() == 0 || s.len() < tok.len() {
    } else {
        let z: int = 0;
        assert(s.subrange(z, z + tok.len()) != tok);
        let t = s.skip(1);
        assert forall|k: int| 0 <= k && k + tok.len() <= t.len() implies #[trigger] t.subrange(
            k,
            k + tok.len(),
        ) != tok by {
            assert(t.subrange(k, k + tok.len()) =~= s.subrange(k + 1, k + 1 + tok.len()));
        }
        lemma_replaced_absent(t, tok, val);
        assert(seq![s[0]] + t =~= s);
    }
}

/// `s` with every occurrence of the non-empty token `tok` replaced by `val`,
/// scanning from the left without overlap.
pub fn replace_all(s: &str, tok: &str, val: &str) -> (r: String)
    requires
        tok@.len() > 0,
    ensures
        r@ == replaced(s@, tok@, val@),
{
    let cs = chars_of(s);
    let ts = chars_of(tok);
    let n = cs.len();
    let m = ts.len();
    let mut out = String::new();
    let mut start: usize = 0;
    let mut i: usize = 0;
    assert(s@.skip(0) =~= s@);
    assert(out@ + s@.subrange(0, 0) =~= Seq::<char>::empty());
    while m <= n - i
        invariant
            cs@ == s@,
            ts@ == tok@,
            n == s@.len(),
            m == tok@.len(),
            m > 0,
            start <= i <= n,
            out@ + s@.subrange(start as int, i as int) + replaced(s@.skip(i as int), tok@, val@)
                == replaced(s@, tok@, val@),
        decreases n - i,
    {
        proof {
            lemma_replaced_skip_step(s@, tok@, val@, i as int);
        }
        if occurs_at(&cs, &ts, i) {
            let pending = s.substring_char(start, i);
            out.append(pending);
            out.append(val);
            assert(s@.subrange((i + m) as int, (i + m) as int) =~= Seq::<char>::empty());
            assert(out@ + s@.subrange((i + m) as int, (i + m) as int) + replaced(
                s@.skip((i + m) as int),
                tok@,
                val@,
            ) =~= out@ + replaced(s@.skip((i + m) as int), tok@, val@));
            i = i + m;
            start = i;
        } else {
            assert(s@.subrange(start as int, i + 1) =~= s@.subrange(start as int, i as int)
                + seq![s@[i as int]]);
            i = i + 1;
        }
    }
    assert(replaced(s@.skip(i as int), tok@, val@) == s@.skip(i as int));
    assert(s@.subrange(start as int, i as int) + s@.skip(i as int) =~= s@.subrange(
        start as int,
        n as int,
    ));
    let rest = s.substring_char(start, n);
    out.append(rest);
    out
}

/// Whether `s` ends with `suffix`.
pub fn ends_with(s: &str, suffix: &str) -> (r: bool)
    ensures
        r == has_suffix(s@, suffix@),
{
    let cs = chars_of(s);
    let ts = chars_of(suffix);
    if ts.len() > cs.len() {
        return false;
    }
    let base = cs.len() - ts.len();
    occurs_at(&cs, &ts, base)
}

/// `s` with one trailing `suffix` removed, if it has one.
pub fn strip_suffix(s: &str, suffix: &str) -> (r: String)
    ensures
        r@ == without_suffix(s@, suffix@),
{
    if ends_with(s, suffix) {
        let keep = s.unicode_len() - suffix.unicode_len();
        s.substring_char(0, keep).to_string()
    } else {
        s.to_string()
    }
}

/// Appends the decimal rendering of `n` to `out`.
pub fn push_decimal(out: &mut String, n: usize)
    ensures
        final(out)@ == old(out)@ + decimal(n as nat),
    decreases n,
{
    let ds = "0123456789";
    proof {
        reveal_strlit("0123456789");
    }
    if n >= 10 {
        push_decimal(out, n / 10);
    }
    let d = n % 10;
    out.append(ds.substring_char(d, d + 1));
    proof {
        assert(ds@.subrange(d as int, d + 1) =~= seq![digits()[d as int]]);
        if n >= 10 {
            assert(old(out)@ + decimal((n / 10) as nat) + seq![digits()[d as int]] =~= old(out)@
                + (decimal((n / 10) as nat) + seq![digits()[d as int]]));
        }
    }
}

} // verus!
