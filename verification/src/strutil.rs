//! Verified text helpers: decimal rendering of integers, string equality,
//! blank-line detection and character-level truncation.

use vstd::prelude::*;
use vstd::string::StrSliceExecFns;
use vstd::string::StringExecFns;
use vstd::arithmetic::div_mod::lemma_fundamental_div_mod;

verus! {

/// The character for one decimal digit.
pub open spec fn dec_digit(d: nat) -> char {
    if d == 0 {
        '0'
    } else if d == 1 {
        '1'
    } else if d == 2 {
        '2'
    } else if d == 3 {
        '3'
    } else if d == 4 {
        '4'
    } else if d == 5 {
        '5'
    } else if d == 6 {
        '6'
    } else if d == 7 {
        '7'
    } else if d == 8 {
        '8'
    } else {
        '9'
    }
}

/// The decimal rendering of a natural number, without leading zeros.
pub open spec fn spec_dec(n: nat) -> Seq<char>
    decreases n,
{
    if n < 10 {
        seq![dec_digit(n)]
    } else {
        spec_dec(n / 10).push(dec_digit(n % 10))
    }
}

/// The decimal rendering of an integer, with a leading minus sign when
/// negative.
pub open spec fn spec_dec_int(i: int) -> Seq<char> {
    if i < 0 {
        seq!['-'] + spec_dec((-i) as nat)
    } else {
        spec_dec(i as nat)
    }
}

/// A decimal rendering is never empty.
pub proof fn lemma_dec_len(n: nat)
    ensures
        spec_dec(n).len() >= 1,
    decreases n,
{
    if n >= 10 {
        lemma_dec_len(n / 10);
    }
}

/// Two distinct naturals render as distinct decimal strings.
pub proof fn lemma_dec_injective(a: nat, b: nat)
    requires
        spec_dec(a) == spec_dec(b),
    ensures
        a == b,
    decreases a,
{
    if a < 10 && b < 10 {
        assert(spec_dec(a) == seq![dec_digit(a)]);
        assert(spec_dec(b) == seq![dec_digit(b)]);
        assert(seq![dec_digit(a)][0] == dec_digit(a));
        assert(seq![dec_digit(b)][0] == dec_digit(b));
        assert(dec_digit(a) == dec_digit(b));
        assert(a == b);
    } else if a < 10 && b >= 10 {
        lemma_dec_len(b / 10);
        assert(spec_dec(b).len() >= 2);
        assert(false);
    } else if a >= 10 && b < 10 {
        lemma_dec_len(a / 10);
        assert(spec_dec(a).len() >= 2);
        assert(false);
    } else {
        let da = spec_dec(a / 10);
        let db = spec_dec(b / 10);
        let pa = da.push(dec_digit(a % 10));
        let pb = db.push(dec_digit(b % 10));
        assert(pa == pb);
        assert(pa.len() == da.len() + 1);
        assert(pb.len() == db.len() + 1);
        assert(da.len() == db.len());
        assert forall|i: int| 0 <= i < da.len() implies da[i] == db[i] by {
            assert(pa[i] == da[i]);
            assert(pb[i] == db[i]);
        }
        assert(da =~= db);
        assert(pa[da.len() as int] == dec_digit(a % 10));
        assert(pb[db.len() as int] == dec_digit(b % 10));
        assert(dec_digit(a % 10) == dec_digit(b % 10));
        assert(a % 10 == b % 10);
        lemma_dec_injective(a / 10, b / 10);
        assert(a / 10 == b / 10);
        lemma_fundamental_div_mod(a as int, 10);
        lemma_fundamental_div_mod(b as int, 10);
        assert(a as int == 10 * ((a as int) / 10) + (a as int) % 10);
        assert(b as int == 10 * ((b as int) / 10) + (b as int) % 10);
        assert((a as int) / 10 == (a / 10) as int);
        assert((a as int) % 10 == (a % 10) as int);
        assert((b as int) / 10 == (b / 10) as int);
        assert((b as int) % 10 == (b % 10) as int);
        assert(a == b);
    }
}

/// One decimal digit as a fresh string.
fn digit_string(d: u64) -> (s: String)
    requires
        d < 10,
    ensures
        s@ == seq![dec_digit(d as nat)],
{
    let t: &str = if d == 0 {
        "0"
    } else if d == 1 {
        "1"
    } else if d == 2 {
        "2"
    } else if d == 3 {
        "3"
    } else if d == 4 {
        "4"
    } else if d == 5 {
        "5"
    } else if d == 6 {
        "6"
    } else if d == 7 {
        "7"
    } else if d == 8 {
        "8"
    } else {
        "9"
    };
    proof {
        reveal_strlit("0");
        reveal_strlit("1");
        reveal_strlit("2");
        reveal_strlit("3");
        reveal_strlit("4");
        reveal_strlit("5");
        reveal_strlit("6");
        reveal_strlit("7");
        reveal_strlit("8");
        reveal_strlit("9");
    }
    t.to_owned()
}

/// Render an unsigned 64-bit integer in decimal.
pub fn u64_to_dec(n: u64) -> (s: String)
    ensures
        s@ == spec_dec(n as nat),
    decreases n,
{
    if n < 10 {
        digit_string(n)
    } else {
        let mut s = u64_to_dec(n / 10);
        let d = digit_string(n % 10);
        s.append(d.as_str());
        s
    }
}

/// Render a signed 64-bit integer in decimal.
pub fn i64_to_dec(n: i64) -> (s: String)
    ensures
        s@ == spec_dec_int(n as int),
{
    if n >= 0 {
        u64_to_dec(n as u64)
    } else {
        let m: u64 = ((-(n + 1)) as u64) + 1;
        assert(m as int == -(n as int));
        let mut s = "-".to_owned();
        proof {
            reveal_strlit("-");
        }
        let d = u64_to_dec(m);
        s.append(d.as_str());
        s
    }
}

/// String equality by contents.
pub fn str_eq(a: &str, b: &str) -> (r: bool)
    ensures
        r == (a@ == b@),
{
    let sa: String = a.to_owned();
    let sb: String = b.to_owned();
    sa == sb
}

/// The characters trimmed from the ends of a framed line: the Unicode
/// characters with the White_Space property, as Rust's `str::trim`
/// removes them.
pub open spec fn is_ws_char(c: char) -> bool {
    ||| c == '\u{0009}'
    ||| c == '\u{000A}'
    ||| c == '\u{000B}'
    ||| c == '\u{000C}'
    ||| c == '\u{000D}'
    ||| c == '\u{0020}'
    ||| c == '\u{0085}'
    ||| c == '\u{00A0}'
    ||| c == '\u{1680}'
    ||| c == '\u{2000}'
    ||| c == '\u{2001}'
    ||| c == '\u{2002}'
    ||| c == '\u{2003}'
    ||| c == '\u{2004}'
    ||| c == '\u{2005}'
    ||| c == '\u{2006}'
    ||| c == '\u{2007}'
    ||| c == '\u{2008}'
    ||| c == '\u{2009}'
    ||| c == '\u{200A}'
    ||| c == '\u{2028}'
    ||| c == '\u{2029}'
    ||| c == '\u{202F}'
    ||| c == '\u{205F}'
    ||| c == '\u{3000}'
}

/// Whether a character has the Unicode White_Space property.
fn ws_char(c: char) -> (r: bool)
    ensures
        r == is_ws_char(c),
{
    c == '\u{0009}' || c == '\u{000A}' || c == '\u{000B}' || c == '\u{000C}' || c == '\u{000D}'
        || c == '\u{0020}' || c == '\u{0085}' || c == '\u{00A0}' || c == '\u{1680}'
        || c == '\u{2000}' || c == '\u{2001}' || c == '\u{2002}' || c == '\u{2003}'
        || c == '\u{2004}' || c == '\u{2005}' || c == '\u{2006}' || c == '\u{2007}'
        || c == '\u{2008}' || c == '\u{2009}' || c == '\u{200A}' || c == '\u{2028}'
        || c == '\u{2029}' || c == '\u{202F}' || c == '\u{205F}' || c == '\u{3000}'
}

/// A sequence with its leading whitespace removed.
pub open spec fn spec_trim_start(s: Seq<char>) -> Seq<char>
    decreases s.len(),
{
    if s.len() > 0 && is_ws_char(s[0]) {
        spec_trim_start(s.drop_first())
    } else {
        s
    }
}

/// A sequence with its trailing whitespace removed.
pub open spec fn spec_trim_end(s: Seq<char>) -> Seq<char>
    decreases s.len(),
{
    if s.len() > 0 && is_ws_char(s.last()) {
        spec_trim_end(s.drop_last())
    } else {
        s
    }
}

/// A sequence with whitespace removed from both ends.
pub open spec fn spec_trimmed(s: Seq<char>) -> Seq<char> {
    spec_trim_end(spec_trim_start(s))
}

/// Trimming the start keeps everything from the first non-whitespace
/// character on.
proof fn lemma_trim_start_at(s: Seq<char>, i: int)
    requires
        0 <= i <= s.len(),
        forall|k: int| 0 <= k < i ==> is_ws_char(#[trigger] s[k]),
        i < s.len() ==> !is_ws_char(s[i]),
    ensures
        spec_trim_start(s) == s.subrange(i, s.len() as int),
    decreases i,
{
    if i == 0 {
        assert(spec_trim_start(s) =~= s.subrange(0, s.len() as int));
    } else {
        assert(is_ws_char(s[0]));
        let d = s.drop_first();
        assert forall|k: int| 0 <= k < i - 1 implies is_ws_char(#[trigger] d[k]) by {
            assert(d[k] == s[k + 1]);
        }
        if i - 1 < d.len() {
            assert(d[i - 1] == s[i]);
        }
        lemma_trim_start_at(d, i - 1);
        assert(d.subrange(i - 1, d.len() as int) =~= s.subrange(i, s.len() as int));
    }
}

/// Trimming the end keeps everything up to the last non-whitespace
/// character.
proof fn lemma_trim_end_at(s: Seq<char>, j: int)
    requires
        0 <= j <= s.len(),
        forall|k: int| j <= k < s.len() ==> is_ws_char(#[trigger] s[k]),
        j > 0 ==> !is_ws_char(s[j - 1]),
    ensures
        spec_trim_end(s) == s.subrange(0, j),
    decreases s.len() - j,
{
    if j == s.len() {
        assert(spec_trim_end(s) =~= s.subrange(0, j));
    } else {
        assert(is_ws_char(s.last()));
        let d = s.drop_last();
        assert forall|k: int| j <= k < d.len() implies is_ws_char(#[trigger] d[k]) by {
            assert(d[k] == s[k]);
        }
        if j > 0 {
            assert(d[j - 1] == s[j - 1]);
        }
        lemma_trim_end_at(d, j);
        assert(d.subrange(0, j) =~= s.subrange(0, j));
    }
}

/// Remove whitespace from both ends of a line, as `str::trim` does.
pub fn trim_ws(s: &str) -> (r: String)
    ensures
        r@ == spec_trimmed(s@),
{
    let n = s.unicode_len();
    let mut i: usize = 0;
    while i < n && ws_char(s.get_char(i))
        invariant
            n == s@.len(),
            i <= n,
            forall|k: int| 0 <= k < i ==> is_ws_char(#[trigger] s@[k]),
        decreases n - i,
    {
        i += 1;
    }
    if i == n {
        proof {
            lemma_trim_start_at(s@, n as int);
            assert(spec_trim_start(s@) =~= Seq::<char>::empty());
            assert(spec_trimmed(s@) =~= Seq::<char>::empty());
        }
        return String::new();
    }
    let mut j: usize = n;
    while j > i + 1 && ws_char(s.get_char(j - 1))
        invariant
            n == s@.len(),
            i < n,
            !is_ws_char(s@[i as int]),
            i + 1 <= j,
            j <= n,
            forall|k: int| j <= k < n ==> is_ws_char(#[trigger] s@[k]),
        decreases j,
    {
        j -= 1;
    }
    proof {
        lemma_trim_start_at(s@, i as int);
        let mid = s@.subrange(i as int, n as int);
        assert forall|k: int| (j - i) <= k < mid.len() implies is_ws_char(#[trigger] mid[k]) by {
            assert(mid[k] == s@[k + i]);
        }
        assert(mid[j - i - 1] == s@[j as int - 1]);
        if j == i + 1 {
            assert(!is_ws_char(mid[0]));
        } else {
            assert(!is_ws_char(s@[j as int - 1]));
        }
        lemma_trim_end_at(mid, j as int - i as int);
        assert(mid.subrange(0, j as int - i as int) =~= s@.subrange(i as int, j as int));
    }
    let t = s.substring_char(i, j);
    t.to_owned()
}

/// The first `limit` characters of a line, with an ellipsis when it was cut.
pub open spec fn spec_truncated(s: Seq<char>, limit: int) -> Seq<char> {
    if s.len() > limit {
        s.subrange(0, limit) + "..."@
    } else {
        s
    }
}

/// The first `limit` characters of a line, with an ellipsis when it was cut.
pub fn truncate_chars(s: &str, limit: usize) -> (r: String)
    ensures
        r@ == spec_truncated(s@, limit as int),
{
    let n = s.unicode_len();
    if n > limit {
        let head = s.substring_char(0, limit);
        let mut out: String = head.to_owned();
        out.append("...");
        out
    } else {
        s.to_owned()
    }
}

} // verus!
