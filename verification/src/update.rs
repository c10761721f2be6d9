//! Self-update decisions: version tags, the release asset for a platform,
//! and whether a fetched release is newer than the running one.

use vstd::prelude::*;
use crate::text::{chars_of, str_eq, is_digit, char_is_digit, dec_string, hex_char};
use crate::theme::strip_leading;
use vstd::string::StringExecFns;

verus! {

/// The outcome of a background update step, as the UI receives it.
pub enum UpdateMsg {
    VersionChecked(Result<Option<String>, String>),
    UpdateComplete(Result<(), String>),
}

/// Index of the first `c` in `s`.
pub open spec fn first_index(s: Seq<char>, c: char) -> Option<int>
    decreases s.len(),
{
    if s.len() == 0 {
        None
    } else if s[0] == c {
        Some(0)
    } else {
        match first_index(s.drop_first(), c) {
            Some(i) => Some(i + 1),
            None => None,
        }
    }
}

/// The value of a string of decimal digits.
pub open spec fn digits_value(d: Seq<char>) -> nat
    decreases d.len(),
{
    if d.len() == 0 {
        0
    } else {
        (digits_value(d.drop_last()) * 10 + (d.last() as int - '0' as int)) as nat
    }
}

/// `s` without a leading `+` sign.
pub open spec fn unsigned_part(s: Seq<char>) -> Seq<char> {
    if s.len() > 0 && s[0] == '+' {
        s.drop_first()
    } else {
        s
    }
}

/// All characters are decimal digits.
pub open spec fn all_digits(d: Seq<char>) -> bool {
    forall|i: int| 0 <= i < d.len() ==> is_digit(#[trigger] d[i])
}

/// `u32::from_str`: an optional `+` followed by at least one decimal digit,
/// whose value fits in `u32`.
pub open spec fn spec_parse_u32(s: Seq<char>) -> Option<u32> {
    let d = unsigned_part(s);
    if d.len() > 0 && all_digits(d) && digits_value(d) <= u32::MAX {
        Some(digits_value(d) as u32)
    } else {
        None
    }
}

/// `major.minor.patch` after any leading `v`s, each part a `u32`; the
/// patch part runs to the end of the text.
pub open spec fn spec_parse_ver(s: Seq<char>) -> Option<(u32, u32, u32)> {
    let t = strip_leading(s, 'v');
    match first_index(t, '.') {
        None => None,
        Some(i) => {
            let rest = t.skip(i + 1);
            match first_index(rest, '.') {
                None => None,
                Some(j) => match (
                    spec_parse_u32(t.take(i)),
                    spec_parse_u32(rest.take(j)),
                    spec_parse_u32(rest.skip(j + 1)),
                ) {
                    (Some(a), Some(b), Some(c)) => Some((a, b, c)),
                    _ => None,
                },
            }
        },
    }
}

proof fn lemma_digits_push(d: Seq<char>, c: char)
    ensures
        digits_value(d.push(c)) == (digits_value(d) * 10 + (c as int - '0' as int)) as nat,
{
    assert(d.push(c).drop_last() =~= d);
}

proof fn lemma_digits_monotone(d: Seq<char>, k: int)
    requires
        0 <= k <= d.len(),
        all_digits(d),
    ensures
        digits_value(d.take(k)) <= digits_value(d),
    decreases d.len() - k,
{
    if k < d.len() {
        lemma_digits_monotone(d, k + 1);
        lemma_digits_push(d.take(k), d[k]);
        assert(d.take(k + 1) =~= d.take(k).push(d[k]));
    } else {
        assert(d.take(k) =~= d);
    }
}

/// `u32::from_str` on the characters `cs[from..to]`.
pub(crate) fn parse_u32_chars(cs: &Vec<char>, from: usize, to: usize) -> (res: Option<u32>)
    requires
        from <= to <= cs@.len(),
    ensures
        res == spec_parse_u32(cs@.subrange(from as int, to as int)),
{
    let ghost s = cs@.subrange(from as int, to as int);
    let mut start = from;
    if from < to && cs[from] == '+' {
        start = from + 1;
    }
    let ghost d = cs@.subrange(start as int, to as int);
    assert(d == unsigned_part(s));
    if start == to {
        return None;
    }
    let mut value: u64 = 0;
    let mut i = start;
    while i < to
        invariant
            start <= i <= to <= cs@.len(),
            d == cs@.subrange(start as int, to as int),
            s == cs@.subrange(from as int, to as int),
            d == unsigned_part(s),
            from <= start,
            d.len() > 0,
            forall|k: int| 0 <= k < i - start ==> is_digit(#[trigger] d[k]),
            value as nat == digits_value(d.take(i - start)),
            value <= u32::MAX,
        decreases to - i,
    {
        let c = cs[i];
        if !char_is_digit(c) {
            assert(d[i - start] == c);
            assert(!is_digit(d[i - start]));
            assert(!all_digits(d));
            return None;
        }
        proof {
            lemma_digits_push(d.take(i - start), c);
            assert(d.take(i - start + 1) =~= d.take(i - start).push(c));
        }
        value = value * 10 + (c as u64 - '0' as u64);
        if value > 0xffff_ffff {
            proof {
                if all_digits(d) {
                    lemma_digits_monotone(d, i - start + 1);
                }
            }
            return None;
        }
        i = i + 1;
    }
    assert(d.take(i - start) =~= d);
    Some(value as u32)
}


proof fn lemma_first_index_skip(s: Seq<char>, c: char, k: int)
    requires
        0 <= k < s.len(),
        s[k] != c,
    ensures
        first_index(s.skip(k), c) == match first_index(s.skip(k + 1), c) {
            Some(i) => Some(i + 1),
            None => None,
        },
{
    assert(s.skip(k).drop_first() =~= s.skip(k + 1));
}

/// Index (from the start of `cs`) of the first `c` at or after `from`.
fn find_char_from(cs: &Vec<char>, from: usize, c: char) -> (res: Option<usize>)
    requires
        from <= cs@.len(),
    ensures
        match res {
            Some(k) => from <= k < cs@.len() && first_index(cs@.skip(from as int), c) == Some(
                k - from,
            ),
            None => first_index(cs@.skip(from as int), c) is None,
        },
    decreases cs@.len() - from,
{
    if from == cs.len() {
        return None;
    }
    if cs[from] == c {
        return Some(from);
    }
    let r = find_char_from(cs, from + 1, c);
    proof {
        lemma_first_index_skip(cs@, c, from as int);
    }
    r
}

/// Parses `major.minor.patch`, with any number of leading `v`s.
pub fn parse_ver(s: &str) -> (res: Option<(u32, u32, u32)>)
    ensures
        res == spec_parse_ver(s@),
{
    let all = chars_of(s);
    let t = crate::theme::strip_leading_chars(&all, 'v');
    let i = match find_char_from(&t, 0, '.') {
        Some(i) => i,
        None => {
            assert(t@.skip(0) =~= t@);
            return None;
        },
    };
    assert(t@.skip(0) =~= t@);
    let ghost rest = t@.skip(i + 1);
    let j = match find_char_from(&t, i + 1, '.') {
        Some(j) => j,
        None => {
            return None;
        },
    };
    let major = parse_u32_chars(&t, 0, i);
    let minor = parse_u32_chars(&t, i + 1, j);
    let patch = parse_u32_chars(&t, j + 1, t.len());
    assert(t@.subrange(0, i as int) =~= t@.take(i as int));
    assert(t@.subrange(i + 1, j as int) =~= rest.take(j - i - 1));
    assert(t@.subrange(j + 1, t@.len() as int) =~= rest.skip(j - i - 1 + 1));
    match (major, minor, patch) {
        (Some(a), Some(b), Some(c)) => Some((a, b, c)),
        _ => None,
    }
}

/// `a` is a later version than `b` (lexicographic order of the parts).
pub open spec fn newer(a: (u32, u32, u32), b: (u32, u32, u32)) -> bool {
    ||| a.0 > b.0
    ||| a.0 == b.0 && a.1 > b.1
    ||| a.0 == b.0 && a.1 == b.1 && a.2 > b.2
}

/// The release binary published for a platform: only Linux on x86_64 has one.
pub fn release_asset_name_for(os: &str, arch: &str) -> (res: Option<&'static str>)
    ensures
        res is Some <==> (os@ == "linux"@ && arch@ == "x86_64"@),
        res matches Some(n) ==> n@ == "zellij-tab-config-linux-x86_64"@,
{
    if str_eq(os, "linux") && str_eq(arch, "x86_64") {
        Some("zellij-tab-config-linux-x86_64")
    } else {
        None
    }
}

/// What checking for an update reports, given the `tag_name` of the latest
/// release (if the reply had one) and the running version: the tag when it
/// is newer, nothing when it is not, or an error text.
pub fn version_check_outcome(tag: Option<&str>, current: &str) -> (res: Result<Option<String>, String>)
    ensures
        match tag {
            None => res matches Err(e) && e@ == "no tag_name in response"@,
            Some(t) => match (spec_parse_ver(t@), spec_parse_ver(current@)) {
                (None, _) => res matches Err(e) && e@ == "unparseable tag: "@ + t@,
                (Some(_), None) => res matches Err(e) && e@ == "unparseable current version: "@
                    + current@,
                (Some(l), Some(c)) => if newer(l, c) {
                    res matches Ok(Some(n)) && n@ == t@
                } else {
                    res matches Ok(None)
                },
            },
        },
{
    let tag = match tag {
        Some(t) => t,
        None => {
            return Err(String::from_str("no tag_name in response"));
        },
    };
    let latest = match parse_ver(tag) {
        Some(v) => v,
        None => {
            return Err(String::from_str("unparseable tag: ").concat(tag));
        },
    };
    let cur = match parse_ver(current) {
        Some(v) => v,
        None => {
            return Err(String::from_str("unparseable current version: ").concat(current));
        },
    };
    let is_newer = latest.0 > cur.0 || (latest.0 == cur.0 && latest.1 > cur.1) || (latest.0
        == cur.0 && latest.1 == cur.1 && latest.2 > cur.2);
    if is_newer {
        Ok(Some(String::from_str(tag)))
    } else {
        Ok(None)
    }
}

} // verus!

verus! {

proof fn lemma_decimal(n: nat)
    ensures
        dec_string(n).len() > 0,
        all_digits(dec_string(n)),
        digits_value(dec_string(n)) == n,
    decreases n,
{
    assert('0' as int == 48);
    if n < 10 {
        assert(hex_char(n) as int == 48 + n);
        lemma_digits_push(Seq::<char>::empty(), hex_char(n));
        assert(Seq::<char>::empty().push(hex_char(n)) =~= seq![hex_char(n)]);
    } else {
        lemma_decimal(n / 10);
        let c = hex_char(n % 10);
        assert(c as int == 48 + n % 10);
        lemma_digits_push(dec_string(n / 10), c);
        assert(n == (n / 10) * 10 + n % 10) by (nonlinear_arith);
        assert forall|i: int| 0 <= i < dec_string(n).len() implies is_digit(#[trigger] dec_string(n)[i]) by {
            if i < dec_string(n / 10).len() {
                assert(dec_string(n)[i] == dec_string(n / 10)[i]);
            }
        }
    }
}

proof fn lemma_first_index_after(a: Seq<char>, b: Seq<char>)
    requires
        all_digits(a),
    ensures
        first_index(a + seq!['.'] + b, '.') == Some(a.len() as int),
    decreases a.len(),
{
    let s = a + seq!['.'] + b;
    if a.len() > 0 {
        assert(s[0] == a[0]);
        assert(s.drop_first() =~= a.drop_first() + seq!['.'] + b);
        assert(all_digits(a.drop_first())) by {
            assert forall|i: int| 0 <= i < a.drop_first().len() implies is_digit(#[trigger] a.drop_first()[i]) by {
                assert(a.drop_first()[i] == a[i + 1]);
            }
        }
        lemma_first_index_after(a.drop_first(), b);
    } else {
        assert(s[0] == '.');
    }
}

proof fn lemma_strip_vs(p: Seq<char>, t: Seq<char>)
    requires
        forall|i: int| 0 <= i < p.len() ==> #[trigger] p[i] == 'v',
        t.len() > 0,
        t[0] != 'v',
    ensures
        strip_leading(p + t, 'v') == t,
    decreases p.len(),
{
    if p.len() > 0 {
        assert((p + t).drop_first() =~= p.drop_first() + t);
        assert forall|i: int| 0 <= i < p.drop_first().len() implies #[trigger] p.drop_first()[i] == 'v' by {
            assert(p.drop_first()[i] == p[i + 1]);
        }
        lemma_strip_vs(p.drop_first(), t);
    } else {
        assert(p + t =~= t);
    }
}

proof fn lemma_parse_decimal(x: u32)
    ensures
        spec_parse_u32(dec_string(x as nat)) == Some(x),
{
    lemma_decimal(x as nat);
    assert(unsigned_part(dec_string(x as nat)) == dec_string(x as nat));
}

proof fn lemma_split_version(da: Seq<char>, db: Seq<char>, dc: Seq<char>)
    requires
        all_digits(da),
        all_digits(db),
    ensures
        ({
            let t = da + seq!['.'] + (db + seq!['.'] + dc);
            &&& first_index(t, '.') == Some(da.len() as int)
            &&& t.take(da.len() as int) == da
            &&& t.skip(da.len() as int + 1) == db + seq!['.'] + dc
            &&& first_index(db + seq!['.'] + dc, '.') == Some(db.len() as int)
            &&& (db + seq!['.'] + dc).take(db.len() as int) == db
            &&& (db + seq!['.'] + dc).skip(db.len() as int + 1) == dc
        }),
{
    let rest = db + seq!['.'] + dc;
    let t = da + seq!['.'] + rest;
    lemma_first_index_after(da, rest);
    lemma_first_index_after(db, dc);
    assert(t.skip(da.len() as int + 1) =~= rest);
    assert(t.take(da.len() as int) =~= da);
    assert(rest.take(db.len() as int) =~= db);
    assert(rest.skip(db.len() as int + 1) =~= dc);
}

/// A version written as `major.minor.patch` in decimal (`dec_string`, as
/// `Display` writes a `u32`), after any number of `v`s, reads back as those
/// three numbers.
pub proof fn lemma_parse_formatted_version(p: Seq<char>, a: u32, b: u32, c: u32)
    requires
        forall|i: int| 0 <= i < p.len() ==> #[trigger] p[i] == 'v',
    ensures
        spec_parse_ver(p + dec_string(a as nat) + seq!['.'] + dec_string(b as nat) + seq!['.'] + dec_string(c as nat))
            == Some((a, b, c)),
{
    let da = dec_string(a as nat);
    let db = dec_string(b as nat);
    let dc = dec_string(c as nat);
    lemma_decimal(a as nat);
    lemma_decimal(b as nat);
    lemma_parse_decimal(a);
    lemma_parse_decimal(b);
    lemma_parse_decimal(c);
    let rest = db + seq!['.'] + dc;
    let t = da + seq!['.'] + rest;
    assert(p + da + seq!['.'] + db + seq!['.'] + dc =~= p + t);
    assert(t[0] == da[0]);
    assert(is_digit(da[0]));
    lemma_strip_vs(p, t);
    lemma_split_version(da, db, dc);
}

} // verus!
