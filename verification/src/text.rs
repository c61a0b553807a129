use vstd::prelude::*;
use vstd::string::*;

verus! {

/// Unicode `White_Space`: the characters that `char::is_whitespace`
/// accepts and that `str::trim` removes.
pub open spec fn is_ws(c: char) -> bool {
    let u = c as int;
    ||| 0x09 <= u <= 0x0D
    ||| u == 0x20
    ||| u == 0x85
    ||| u == 0xA0
    ||| u == 0x1680
    ||| 0x2000 <= u <= 0x200A
    ||| u == 0x2028
    ||| u == 0x2029
    ||| u == 0x202F
    ||| u == 0x205F
    ||| u == 0x3000
}

pub fn is_whitespace(c: char) -> (b: bool)
    ensures
        b == is_ws(c),
{
    let u = c as u32;
    (0x09 <= u && u <= 0x0D) || u == 0x20 || u == 0x85 || u == 0xA0 || u == 0x1680 || (0x2000
        <= u && u <= 0x200A) || u == 0x2028 || u == 0x2029 || u == 0x202F || u == 0x205F || u
        == 0x3000
}

/// Index of the first character at or after `i` that is not white space
/// (the length of `s` if there is none).
pub open spec fn skip_ws(s: Seq<char>, i: int) -> int
    decreases s.len() - i,
{
    if 0 <= i < s.len() && is_ws(s[i]) {
        skip_ws(s, i + 1)
    } else {
        i
    }
}

/// End of `s[..j]` once its trailing white space is removed.
pub open spec fn rskip_ws(s: Seq<char>, j: int) -> int
    decreases j,
{
    if 0 < j <= s.len() && is_ws(s[j - 1]) {
        rskip_ws(s, j - 1)
    } else {
        j
    }
}

/// `s` without its leading and trailing white space, as `str::trim` gives it.
pub open spec fn trim_seq(s: Seq<char>) -> Seq<char> {
    let lo = skip_ws(s, 0);
    let hi = rskip_ws(s, s.len() as int);
    if hi <= lo {
        Seq::empty()
    } else {
        s.subrange(lo, hi)
    }
}

proof fn lemma_rskip_le(s: Seq<char>, j: int)
    ensures
        rskip_ws(s, j) <= j,
    decreases j,
{
    if 0 < j <= s.len() && is_ws(s[j - 1]) {
        lemma_rskip_le(s, j - 1);
    }
}

/// The characters of `s`, one per element.
pub fn chars_of(s: &str) -> (v: Vec<char>)
    ensures
        v@ == s@,
{
    let n = s.unicode_len();
    let mut v: Vec<char> = Vec::new();
    let mut i: usize = 0;
    while i < n
        invariant
            n == s@.len(),
            i <= n,
            v@ == s@.subrange(0, i as int),
        decreases n - i,
    {
        let c = s.get_char(i);
        v.push(c);
        i = i + 1;
        assert(v@ =~= s@.subrange(0, i as int));
    }
    assert(v@ =~= s@);
    v
}

/// `str::trim`: `s` without leading and trailing white space.
pub fn trim(s: &str) -> (r: &str)
    ensures
        r@ == trim_seq(s@),
{
    let v = chars_of(s);
    let n = v.len();
    let mut i: usize = 0;
    while i < n && is_whitespace(v[i])
        invariant
            v@ == s@,
            n == v@.len(),
            i <= n,
            skip_ws(s@, 0) == skip_ws(s@, i as int),
        decreases n - i,
    {
        i = i + 1;
    }
    let mut j: usize = n;
    while j > i && is_whitespace(v[j - 1])
        invariant
            v@ == s@,
            n == v@.len(),
            i <= j <= n,
            skip_ws(s@, 0) == i,
            i < n ==> !is_ws(s@[i as int]),
            rskip_ws(s@, n as int) == rskip_ws(s@, j as int),
            forall|k: int| j <= k < n ==> is_ws(#[trigger] s@[k]),
        decreases j,
    {
        j = j - 1;
    }
    proof {
        lemma_rskip_le(s@, j as int);
    }
    let r = s.substring_char(i, j);
    assert(r@ =~= trim_seq(s@));
    r
}

/// Whether two strings hold the same characters.
pub fn str_eq(a: &str, b: &str) -> (r: bool)
    ensures
        r == (a@ == b@),
{
    let n = a.unicode_len();
    let m = b.unicode_len();
    if n != m {
        return false;
    }
    let mut i: usize = 0;
    while i < n
        invariant
            n == a@.len(),
            m == b@.len(),
            n == m,
            i <= n,
            forall|k: int| 0 <= k < i ==> a@[k] == b@[k],
        decreases n - i,
    {
        if a.get_char(i) != b.get_char(i) {
            return false;
        }
        i = i + 1;
    }
    assert(a@ =~= b@);
    true
}

/// `s` with every leading copy of `p` removed, as `str::trim_start_matches`
/// does with a string pattern.
pub open spec fn strip_prefixes(s: Seq<char>, p: Seq<char>) -> Seq<char>
    decreases s.len(),
{
    if p.len() > 0 && p.len() <= s.len() && s.take(p.len() as int) == p {
        strip_prefixes(s.skip(p.len() as int), p)
    } else {
        s
    }
}

/// Whether `v[at..]` starts with `p`.
fn has_prefix_at(v: &Vec<char>, at: usize, p: &Vec<char>) -> (b: bool)
    requires
        at <= v@.len(),
    ensures
        b == (p@.len() <= v@.len() - at && v@.skip(at as int).take(p@.len() as int) == p@),
{
    let n = v.len();
    let m = p.len();
    if m > n - at {
        return false;
    }
    let mut k: usize = 0;
    while k < m
        invariant
            n == v@.len(),
            m == p@.len(),
            at + m <= n,
            k <= m,
            forall|j: int| 0 <= j < k ==> v@[at + j] == p@[j],
        decreases m - k,
    {
        if v[at + k] != p[k] {
            assert(v@.skip(at as int).take(m as int)[k as int] != p@[k as int]);
            return false;
        }
        k = k + 1;
    }
    assert(v@.skip(at as int).take(m as int) =~= p@);
    true
}

/// `str::trim_start_matches` with a string pattern.
pub fn trim_start_matches(s: &str, p: &str) -> (r: String)
    ensures
        r@ == strip_prefixes(s@, p@),
{
    let v = chars_of(s);
    let pv = chars_of(p);
    let n = v.len();
    let m = pv.len();
    let mut i: usize = 0;
    assert(s@.skip(0) =~= s@);
    if m > 0 {
        while has_prefix_at(&v, i, &pv)
            invariant
                v@ == s@,
                pv@ == p@,
                n == v@.len(),
                m == p@.len(),
                m > 0,
                i <= n,
                strip_prefixes(s@, p@) == strip_prefixes(s@.skip(i as int), p@),
            decreases n - i,
        {
            assert(s@.skip(i as int).skip(m as int) =~= s@.skip(i + m));
            i = i + m;
        }
    }
    proof {
        if m > 0 {
            assert(!(p@.len() <= s@.skip(i as int).len() && s@.skip(i as int).take(p@.len() as int)
                == p@));
        }
        assert(s@.skip(i as int) =~= s@.subrange(i as int, n as int));
    }
    String::from_str(s.substring_char(i, n))
}

/// `Path::join` with a relative component: a `/` goes between the two
/// unless `dir` is empty or already ends with one.
pub open spec fn join_seq(dir: Seq<char>, name: Seq<char>) -> Seq<char> {
    if dir.len() == 0 || dir.last() == '/' {
        dir + name
    } else {
        dir + seq!['/'] + name
    }
}

/// `Path::new(dir).join(name)` for a relative `name`.
pub fn join_path(dir: &str, name: &str) -> (r: String)
    requires
        name@.len() > 0,
        name@[0] != '/',
    ensures
        r@ == join_seq(dir@, name@),
{
    let mut r = String::from_str(dir);
    let n = dir.unicode_len();
    if n > 0 && dir.get_char(n - 1) != '/' {
        r.append("/");
        proof {
            reveal_strlit("/");
        }
    }
    r.append(name);
    r
}


/// `s` with every occurrence of `pat` replaced by `rep`, taking the
/// occurrences from the left without overlap, as `str::replace` does.
pub open spec fn replaced(s: Seq<char>, pat: Seq<char>, rep: Seq<char>) -> Seq<char>
    decreases s.len(),
{
    if pat.len() == 0 || s.len() < pat.len() {
        s
    } else if s.take(pat.len() as int) == pat {
        rep + replaced(s.skip(pat.len() as int), pat, rep)
    } else {
        seq![s[0]] + replaced(s.drop_first(), pat, rep)
    }
}

/// `str::replace` with a non-empty string pattern.
pub fn replace_all(s: &str, pat: &str, rep: &str) -> (r: String)
    requires
        pat@.len() > 0,
    ensures
        r@ == replaced(s@, pat@, rep@),
{
    let v = chars_of(s);
    let pv = chars_of(pat);
    let n = v.len();
    let m = pv.len();
    let mut out = String::new();
    let mut from: usize = 0;
    let mut i: usize = 0;
    assert(s@.skip(0) =~= s@);
    while i < n
        invariant
            v@ == s@,
            pv@ == pat@,
            n == s@.len(),
            m == pat@.len(),
            m > 0,
            from <= i <= n,
            out@ + s@.subrange(from as int, i as int) + replaced(s@.skip(i as int), pat@, rep@) == replaced(
                s@,
                pat@,
                rep@,
            ),
        decreases n - i,
    {
        let ghost rest = s@.skip(i as int);
        if has_prefix_at(&v, i, &pv) {
            assert(rest.skip(m as int) =~= s@.skip(i + m));
            assert(rest.take(m as int) =~= pat@);
            let ghost before = out@;
            out.append(s.substring_char(from, i));
            out.append(rep);
            assert(out@ + s@.subrange((i + m) as int, (i + m) as int) =~= before + s@.subrange(
                from as int,
                i as int,
            ) + rep@);
            i = i + m;
            from = i;
        } else {
            assert(rest.drop_first() =~= s@.skip(i + 1));
            assert(s@.subrange(from as int, i as int) + seq![s@[i as int]] =~= s@.subrange(
                from as int,
                i + 1,
            ));
            proof {
                if rest.len() < m as nat {
                    assert(rest =~= seq![s@[i as int]] + s@.skip(i + 1));
                } else {
                    assert(rest.take(m as int) =~= v@.skip(i as int).take(m as int));
                }
            }
            i = i + 1;
        }
    }
    out.append(s.substring_char(from, n));
    assert(s@.skip(n as int) =~= Seq::<char>::empty());
    out
}

/// The digit character for `d` below ten.
pub open spec fn digit_char(d: int) -> char {
    seq!['0', '1', '2', '3', '4', '5', '6', '7', '8', '9'][d]
}

/// The decimal digits of `n`, without leading zeros.
pub open spec fn decimal(n: nat) -> Seq<char>
    decreases n,
{
    if n < 10 {
        seq![digit_char(n as int)]
    } else {
        decimal(n / 10) + seq![digit_char((n % 10) as int)]
    }
}

/// An integer as `to_string` writes it: a `-` before the digits of a
/// negative one.
pub open spec fn int_text(x: int) -> Seq<char> {
    if x < 0 {
        seq!['-'] + decimal((-x) as nat)
    } else {
        decimal(x as nat)
    }
}

fn digit_str(d: u64) -> (r: &'static str)
    requires
        d < 10,
    ensures
        r@ == seq![digit_char(d as int)],
{
    let digits = "0123456789";
    proof {
        reveal_strlit("0123456789");
    }
    let r = digits.substring_char(d as usize, d as usize + 1);
    assert(r@ =~= seq![digit_char(d as int)]);
    r
}

fn decimal_string(n: u64) -> (r: String)
    ensures
        r@ == decimal(n as nat),
    decreases n,
{
    if n < 10 {
        String::from_str(digit_str(n))
    } else {
        let mut r = decimal_string(n / 10);
        r.append(digit_str(n % 10));
        r
    }
}

/// `i32::to_string`.
pub fn int_to_string(x: i32) -> (r: String)
    ensures
        r@ == int_text(x as int),
{
    if x < 0 {
        let mut r = String::from_str("-");
        proof {
            reveal_strlit("-");
        }
        let wide: i64 = x as i64;
        let mag: u64 = (-wide) as u64;
        r.append(decimal_string(mag).as_str());
        r
    } else {
        decimal_string(x as u64)
    }
}

} // verus!
