//! Small verified helpers over strings and name tables.
use vstd::prelude::*;
use vstd::string::{StrSliceExecFns, StringExecFns};

verus! {

/// Tells whether two strings hold the same characters.
pub fn str_eq(a: &str, b: &str) -> (r: bool)
    ensures
        r == (a@ == b@),
{
    let x = a.to_owned();
    let y = b.to_owned();
    x == y
}

/// The value that `table` gives to `name`: that of its first entry named `name`,
/// or `default` where no entry has that name.
pub open spec fn lookup_name(table: Seq<(&str, u32)>, name: Seq<char>, default: u32) -> u32
    decreases table.len(),
{
    if table.len() == 0 {
        default
    } else if table[0].0@ == name {
        table[0].1
    } else {
        lookup_name(table.drop_first(), name, default)
    }
}

/// Looks `name` up in `table`, first match wins.
pub fn table_lookup(table: &[(&str, u32)], name: &str, default: u32) -> (r: u32)
    ensures
        r == lookup_name(table@, name@, default),
{
    let mut i: usize = 0;
    assert(table@.skip(0) =~= table@);
    while i < table.len()
        invariant
            0 <= i <= table@.len(),
            lookup_name(table@, name@, default) == lookup_name(table@.skip(i as int), name@, default),
        decreases table@.len() - i,
    {
        let entry = table[i];
        assert(table@.skip(i as int)[0] == entry);
        if str_eq(entry.0, name) {
            return entry.1;
        }
        assert(table@.skip(i as int).drop_first() =~= table@.skip(i + 1));
        i = i + 1;
    }
    default
}

/// The value that `table` gives to the number `key`: that of its first entry
/// for `key`, or `default` where no entry has it.
pub open spec fn lookup_code(table: Seq<(u32, u32)>, key: u32, default: u32) -> u32
    decreases table.len(),
{
    if table.len() == 0 {
        default
    } else if table[0].0 == key {
        table[0].1
    } else {
        lookup_code(table.drop_first(), key, default)
    }
}

/// Looks the number `key` up in `table`, first match wins.
pub fn code_lookup(table: &[(u32, u32)], key: u32, default: u32) -> (r: u32)
    ensures
        r == lookup_code(table@, key, default),
{
    let mut i: usize = 0;
    assert(table@.skip(0) =~= table@);
    while i < table.len()
        invariant
            0 <= i <= table@.len(),
            lookup_code(table@, key, default) == lookup_code(table@.skip(i as int), key, default),
        decreases table@.len() - i,
    {
        let entry = table[i];
        assert(table@.skip(i as int)[0] == entry);
        if entry.0 == key {
            return entry.1;
        }
        assert(table@.skip(i as int).drop_first() =~= table@.skip(i + 1));
        i = i + 1;
    }
    default
}

/// A number that no entry of `table` holds is given `default`.
pub proof fn lemma_lookup_code_absent(table: Seq<(u32, u32)>, key: u32, default: u32)
    requires
        forall|i: int| 0 <= i < table.len() ==> #[trigger] table[i].0 != key,
    ensures
        lookup_code(table, key, default) == default,
    decreases table.len(),
{
    if table.len() > 0 {
        assert(table[0].0 != key);
        lemma_lookup_code_absent(table.drop_first(), key, default);
    }
}

/// Whether `s` begins with `p`.
pub open spec fn has_prefix(s: Seq<char>, p: Seq<char>) -> bool {
    p.len() <= s.len() && s.subrange(0, p.len() as int) == p
}

/// Whether `s` ends with `p`.
pub open spec fn has_suffix(s: Seq<char>, p: Seq<char>) -> bool {
    p.len() <= s.len() && s.subrange(s.len() - p.len(), s.len() as int) == p
}

/// Whether `p` occurs in `s` at character position `i`.
pub fn matches_at(s: &str, p: &str, i: usize) -> (r: bool)
    requires
        i <= s@.len(),
    ensures
        r == has_prefix(s@.skip(i as int), p@),
{
    let n = s.unicode_len();
    let m = p.unicode_len();
    if m > n - i {
        return false;
    }
    let mut j: usize = 0;
    while j < m
        invariant
            n == s@.len(),
            m == p@.len(),
            i + m <= n,
            j <= m,
            forall|k: int| 0 <= k < j ==> s@[i + k] == p@[k],
        decreases m - j,
    {
        if s.get_char(i + j) != p.get_char(j) {
            assert(s@.skip(i as int).subrange(0, m as int)[j as int] != p@[j as int]);
            return false;
        }
        j = j + 1;
    }
    assert(s@.skip(i as int).subrange(0, m as int) =~= p@);
    true
}

/// Whether `s` begins with `p`.
pub fn starts_with(s: &str, p: &str) -> (r: bool)
    ensures
        r == has_prefix(s@, p@),
{
    assert(s@.skip(0) =~= s@);
    matches_at(s, p, 0)
}

/// Whether `s` ends with `p`.
pub fn ends_with(s: &str, p: &str) -> (r: bool)
    ensures
        r == has_suffix(s@, p@),
{
    let n = s.unicode_len();
    let m = p.unicode_len();
    if m > n {
        return false;
    }
    let r = matches_at(s, p, n - m);
    assert(s@.skip(n - m).subrange(0, m as int) =~= s@.subrange(n - m, n as int));
    r
}

/// `s` with every occurrence of `pat` (non-empty) taken out, scanning left to right.
pub open spec fn strip_all(s: Seq<char>, pat: Seq<char>) -> Seq<char>
    recommends
        pat.len() > 0,
    decreases s.len(),
{
    if s.len() == 0 {
        seq![]
    } else if pat.len() > 0 && has_prefix(s, pat) {
        strip_all(s.skip(pat.len() as int), pat)
    } else {
        seq![s[0]] + strip_all(s.skip(1), pat)
    }
}

/// `s` with every occurrence of `pat` taken out, scanning left to right.
pub fn strip_all_occurrences(s: &str, pat: &str) -> (r: String)
    requires
        pat@.len() > 0,
    ensures
        r@ == strip_all(s@, pat@),
{
    let n = s.unicode_len();
    let m = pat.unicode_len();
    let mut out = String::new();
    let mut i: usize = 0;
    assert(s@.skip(0) =~= s@);
    while i < n
        invariant
            n == s@.len(),
            m == pat@.len(),
            m > 0,
            i <= n,
            strip_all(s@, pat@) == out@ + strip_all(s@.skip(i as int), pat@),
        decreases n - i,
    {
        if matches_at(s, pat, i) {
            assert(s@.skip(i as int).skip(m as int) =~= s@.skip(i + m));
            i = i + m;
        } else {
            let c = s.substring_char(i, i + 1);
            out.append(c);
            assert(s@.skip(i as int).skip(1) =~= s@.skip(i + 1));
            assert(c@ =~= seq![s@.skip(i as int)[0]]);
            i = i + 1;
        }
    }
    assert(s@.skip(i as int) =~= Seq::<char>::empty());
    assert(out@ + Seq::<char>::empty() =~= out@);
    out
}

/// The character of a decimal digit.
pub open spec fn digit_char(d: nat) -> char {
    if d == 0 { '0' } else if d == 1 { '1' } else if d == 2 { '2' } else if d == 3 { '3' }
    else if d == 4 { '4' } else if d == 5 { '5' } else if d == 6 { '6' } else if d == 7 { '7' }
    else if d == 8 { '8' } else { '9' }
}

/// The decimal digits of `n`, most significant first, with no leading zero.
pub open spec fn decimal(n: nat) -> Seq<char>
    decreases n,
{
    if n < 10 {
        seq![digit_char(n)]
    } else {
        decimal(n / 10).push(digit_char(n % 10))
    }
}

/// The text of one decimal digit.
fn digit_text(d: u32) -> (r: &'static str)
    requires
        d < 10,
    ensures
        r@ == seq![digit_char(d as nat)],
{
    proof {
        reveal_strlit("0");
        reveal_strlit("1");
        reveal_strlit("2");
        reveal_strlit("3");
        reveal_strlit("4");
        reveal_strlit("5");
        reveal_strlit("6");
        reveal_strlit("7");
        reveal_strlit("8");
        reveal_strlit("9");
    }
    if d == 0 { "0" } else if d == 1 { "1" } else if d == 2 { "2" } else if d == 3 { "3" }
    else if d == 4 { "4" } else if d == 5 { "5" } else if d == 6 { "6" } else if d == 7 { "7" }
    else if d == 8 { "8" } else { "9" }
}

/// Appends the decimal digits of `n` to `s`.
pub fn push_decimal(s: &mut String, n: u32)
    ensures
        final(s)@ == old(s)@ + decimal(n as nat),
    decreases n,
{
    if n >= 10 {
        push_decimal(s, n / 10);
    }
    s.append(digit_text(n % 10));
    proof {
        if n >= 10 {
            assert(old(s)@ + decimal((n / 10) as nat) + seq![digit_char((n % 10) as nat)] =~= old(s)@ + decimal(n as nat));
        } else {
            assert(n % 10 == n);
        }
    }
}

} // verus!
