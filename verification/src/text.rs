//! Character-level building blocks shared by the serialisers: decimal
//! rendering of integers, quote escaping, joining with a separator and
//! trimming a trailing character.

use vstd::prelude::*;

verus! {

/// The character of a decimal digit.
pub open spec fn digit_char(d: nat) -> char {
    (d + 48) as char
}

/// The decimal text of a natural number, most significant digit first.
pub open spec fn decimal(n: nat) -> Seq<char>
    decreases n,
{
    if n < 10 {
        seq![digit_char(n)]
    } else {
        decimal(n / 10).push(digit_char(n % 10))
    }
}

/// The decimal text of an integer, with a leading `-` when it is negative.
pub open spec fn int_text(n: int) -> Seq<char> {
    if n < 0 {
        seq!['-'] + decimal((-n) as nat)
    } else {
        decimal(n as nat)
    }
}

/// `String::push`: appends one character at the end of the string.
#[verifier::external_body]
pub(crate) fn push_char(s: &mut String, c: char)
    ensures
        final(s)@ == old(s)@.push(c),
{
    s.push(c)
}

fn digit(d: u64) -> (c: char)
    requires
        d < 10,
    ensures
        c == digit_char(d as nat),
{
    let b: u8 = 48u8 + (d as u8);
    b as char
}

/// Appends the decimal text of `n`.
pub(crate) fn push_decimal(out: &mut String, n: u64)
    ensures
        final(out)@ == old(out)@ + decimal(n as nat),
    decreases n,
{
    if n >= 10 {
        push_decimal(out, n / 10);
    }
    push_char(out, digit(n % 10));
    proof {
        if n < 10 {
            assert(old(out)@ + decimal(n as nat) =~= old(out)@.push(digit_char(n as nat)));
        } else {
            assert(old(out)@ + decimal(n as nat) =~= (old(out)@ + decimal((n / 10) as nat)).push(
                digit_char((n % 10) as nat),
            ));
        }
    }
}

/// Appends the decimal text of `n`, with a leading `-` when it is negative.
pub(crate) fn push_int(out: &mut String, n: i64)
    ensures
        final(out)@ == old(out)@ + int_text(n as int),
{
    if n < 0 {
        push_char(out, '-');
        let m: u64 = ((-(n + 1)) as u64) + 1;
        push_decimal(out, m);
        assert(final(out)@ =~= old(out)@ + int_text(n as int));
    } else {
        push_decimal(out, n as u64);
    }
}

/// Joins `items` with `sep` between consecutive items.
pub open spec fn join(items: Seq<Seq<char>>, sep: Seq<char>) -> Seq<char>
    decreases items.len(),
{
    if items.len() == 0 {
        seq![]
    } else if items.len() == 1 {
        items[0]
    } else {
        join(items.drop_last(), sep) + sep + items.last()
    }
}


/// The text of `s` with every single quote doubled, as OData string
/// literals require.
pub open spec fn escape_quotes(s: Seq<char>) -> Seq<char>
    decreases s.len(),
{
    if s.len() == 0 {
        seq![]
    } else {
        escape_quotes(s.drop_last()) + escape_char(s.last())
    }
}

/// What one character of a string literal becomes.
pub open spec fn escape_char(c: char) -> Seq<char> {
    if c == '\'' {
        seq!['\'', '\'']
    } else {
        seq![c]
    }
}

/// Appends `s` with every single quote doubled.
pub(crate) fn push_escaped(out: &mut String, s: &str)
    ensures
        final(out)@ == old(out)@ + escape_quotes(s@),
{
    broadcast use vstd::string::group_string_axioms;
    let ghost start = out@;
    for c in it: s.chars()
        invariant
            it.seq() == s@,
            out@ == start + escape_quotes(s@.take(it.index())),
    {
        let ghost i = it.index();
        assert(s@.take(i + 1).drop_last() =~= s@.take(i));
        if c == '\'' {
            push_char(out, '\'');
            push_char(out, '\'');
        } else {
            push_char(out, c);
        }
        assert(out@ =~= start + escape_quotes(s@.take(i + 1)));
    }
    assert(s@.take(s@.len() as int) =~= s@);
}


/// The views of a list of strings.
pub open spec fn views(items: Seq<String>) -> Seq<Seq<char>> {
    items.map_values(|s: String| s@)
}

/// Joins the strings of `items`, with `sep` between consecutive ones.
pub(crate) fn join_strings(items: &Vec<String>, sep: &str) -> (res: String)
    ensures
        res@ == join(views(items@), sep@),
{
    let mut res = String::new();
    let ghost all = views(items@);
    let mut i: usize = 0;
    while i < items.len()
        invariant
            0 <= i <= items.len(),
            all == views(items@),
            all.len() == items@.len(),
            res@ == join(all.take(i as int), sep@),
        decreases items.len() - i,
    {
        assert(all.take(i + 1).drop_last() =~= all.take(i as int));
        if i > 0 {
            res.append(sep);
        } else {
            assert(res@ =~= seq![]);
        }
        res.append(items[i].as_str());
        assert(all[i as int] == items@[i as int]@);
        i = i + 1;
    }
    assert(all.take(i as int) =~= all);
    res
}

/// `s` without the trailing run of `c`.
pub open spec fn trim_end(s: Seq<char>, c: char) -> Seq<char>
    decreases s.len(),
{
    if s.len() > 0 && s.last() == c {
        trim_end(s.drop_last(), c)
    } else {
        s
    }
}

/// The characters of `s`, in order.
pub(crate) fn chars_of(s: &str) -> (v: Vec<char>)
    ensures
        v@ == s@,
{
    broadcast use vstd::string::group_string_axioms;
    let mut v: Vec<char> = Vec::new();
    for c in it: s.chars()
        invariant
            it.seq() == s@,
            v@ == s@.take(it.index()),
    {
        let ghost i = it.index();
        v.push(c);
        assert(v@ =~= s@.take(i + 1));
    }
    assert(s@.take(s@.len() as int) =~= s@);
    v
}

/// Appends the first `k` characters of `v`.
pub(crate) fn push_prefix(out: &mut String, v: &Vec<char>, k: usize)
    requires
        k <= v@.len(),
    ensures
        final(out)@ == old(out)@ + v@.take(k as int),
{
    let ghost start = out@;
    let mut j: usize = 0;
    while j < k
        invariant
            j <= k <= v@.len(),
            out@ == start + v@.take(j as int),
        decreases k - j,
    {
        push_char(out, v[j]);
        j = j + 1;
        assert(out@ =~= start + v@.take(j as int));
    }
}

proof fn lemma_trim_end_take(s: Seq<char>, c: char, k: int)
    requires
        0 < k <= s.len(),
        s[k - 1] == c,
    ensures
        trim_end(s.take(k), c) == trim_end(s.take(k - 1), c),
{
    assert(s.take(k).drop_last() =~= s.take(k - 1));
}

/// `s` without its trailing run of `c`.
pub(crate) fn trim_end_char(s: &str, c: char) -> (res: String)
    ensures
        res@ == trim_end(s@, c),
{
    let v = chars_of(s);
    let mut k: usize = v.len();
    assert(v@.take(k as int) =~= s@);
    while k > 0 && v[k - 1] == c
        invariant
            k <= v@.len(),
            v@ == s@,
            trim_end(s@, c) == trim_end(s@.take(k as int), c),
        decreases k,
    {
        proof {
            lemma_trim_end_take(s@, c, k as int);
        }
        k = k - 1;
    }
    let mut res = String::new();
    push_prefix(&mut res, &v, k);
    assert(res@ =~= s@.take(k as int));
    res
}

/// Whether `c` occurs in `s`.
pub(crate) fn has_char(s: &str, c: char) -> (b: bool)
    ensures
        b == s@.contains(c),
{
    let v = chars_of(s);
    let mut i: usize = 0;
    while i < v.len()
        invariant
            i <= v@.len(),
            v@ == s@,
            forall|j: int| 0 <= j < i ==> v@[j] != c,
        decreases v.len() - i,
    {
        if v[i] == c {
            return true;
        }
        i = i + 1;
    }
    false
}

/// Whether `s` and `t` are the same text.
pub(crate) fn same_text(s: &str, t: &str) -> (b: bool)
    ensures
        b == (s@ == t@),
{
    let v = chars_of(s);
    let w = chars_of(t);
    if v.len() != w.len() {
        return false;
    }
    let mut i: usize = 0;
    while i < v.len()
        invariant
            i <= v@.len(),
            v@.len() == w@.len(),
            v@ == s@,
            w@ == t@,
            forall|j: int| 0 <= j < i ==> v@[j] == w@[j],
        decreases v.len() - i,
    {
        if v[i] != w[i] {
            return false;
        }
        i = i + 1;
    }
    assert(v@ =~= w@);
    true
}

/// Whether `s` ends with `c`.
pub(crate) fn ends_with_char(s: &str, c: char) -> (b: bool)
    ensures
        b == (s@.len() > 0 && s@.last() == c),
{
    let v = chars_of(s);
    v.len() > 0 && v[v.len() - 1] == c
}

} // verus!
