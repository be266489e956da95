//! Text primitives: joining pieces with a separator and substituting a pattern.
use vstd::prelude::*;

verus! {

/// The pieces of `parts`, in order, with `sep` between each two neighbours.
pub open spec fn join(parts: Seq<Seq<char>>, sep: Seq<char>) -> Seq<char>
    decreases parts.len(),
{
    if parts.len() == 0 {
        Seq::empty()
    } else if parts.len() == 1 {
        parts[0]
    } else {
        join(parts.drop_last(), sep) + sep + parts.last()
    }
}

/// The views of a vector of strings.
pub open spec fn views(v: Seq<String>) -> Seq<Seq<char>> {
    v.map_values(|s: String| s@)
}

/// `s` with every match of `pat`, found from left to right without overlap,
/// replaced by `rep`. The replacement text is never scanned again.
pub open spec fn replace_all(s: Seq<char>, pat: Seq<char>, rep: Seq<char>) -> Seq<char>
    decreases s.len(),
{
    if pat.len() == 0 || s.len() < pat.len() {
        s
    } else if s.subrange(0, pat.len() as int) == pat {
        rep + replace_all(s.subrange(pat.len() as int, s.len() as int), pat, rep)
    } else {
        seq![s[0]] + replace_all(s.subrange(1, s.len() as int), pat, rep)
    }
}

/// Relies on `str::replace`: all matches of `from` in `s`, taken from left to
/// right without overlap, are replaced by `to`.
#[verifier::external_body]
pub(crate) fn replace(s: &str, from: &str, to: &str) -> (r: String)
    requires
        from@.len() > 0,
    ensures
        r@ == replace_all(s@, from@, to@),
{
    s.replace(from, to)
}

/// Joins `parts` with `sep` between neighbours.
pub fn join_strings(parts: &Vec<String>, sep: &str) -> (r: String)
    ensures
        r@ == join(views(parts@), sep@),
{
    let ghost whole = views(parts@);
    let mut acc = String::new();
    let mut i: usize = 0;
    while i < parts.len()
        invariant
            i <= parts.len(),
            whole == views(parts@),
            acc@ == join(whole.take(i as int), sep@),
        decreases parts.len() - i,
    {
        proof {
            assert(whole.take(i as int + 1).drop_last() =~= whole.take(i as int));
        }
        if i > 0 {
            acc.append(sep);
        }
        acc.append(parts[i].as_str());
        proof {
            if i == 0 {
                assert(acc@ =~= whole.take(1)[0]);
            }
        }
        i += 1;
    }
    proof {
        assert(whole.take(parts.len() as int) =~= whole);
    }
    acc
}

/// The character of decimal digit `d`.
pub open spec fn digit_char(d: nat) -> char {
    if d == 0 { '0' } else if d == 1 { '1' } else if d == 2 { '2' } else if d == 3 { '3' }
    else if d == 4 { '4' } else if d == 5 { '5' } else if d == 6 { '6' } else if d == 7 { '7' }
    else if d == 8 { '8' } else { '9' }
}

/// The decimal numeral of `n`, without leading zeros.
pub open spec fn decimal(n: nat) -> Seq<char>
    decreases n,
{
    if n < 10 {
        seq![digit_char(n)]
    } else {
        decimal(n / 10) + seq![digit_char(n % 10)]
    }
}

fn digit_string(d: usize) -> (r: String)
    requires
        d < 10,
    ensures
        r@ == seq![digit_char(d as nat)],
{
    proof {
        reveal_strlit("0"); reveal_strlit("1"); reveal_strlit("2"); reveal_strlit("3");
        reveal_strlit("4"); reveal_strlit("5"); reveal_strlit("6"); reveal_strlit("7");
        reveal_strlit("8"); reveal_strlit("9");
    }
    let r = if d == 0 { String::from_str("0") } else if d == 1 { String::from_str("1") }
    else if d == 2 { String::from_str("2") } else if d == 3 { String::from_str("3") }
    else if d == 4 { String::from_str("4") } else if d == 5 { String::from_str("5") }
    else if d == 6 { String::from_str("6") } else if d == 7 { String::from_str("7") }
    else if d == 8 { String::from_str("8") } else { String::from_str("9") };
    assert(r@ =~= seq![digit_char(d as nat)]);
    r
}

/// The decimal numeral of `n`.
pub fn decimal_string(n: usize) -> (r: String)
    ensures
        r@ == decimal(n as nat),
{
    let mut s = digit_string(n % 10);
    let mut m: usize = n / 10;
    while m > 0
        invariant
            m > 0 ==> decimal(n as nat) == decimal(m as nat) + s@,
            m == 0 ==> decimal(n as nat) == s@,
        decreases m,
    {
        let ghost old_s = s@;
        let d = digit_string(m % 10);
        s = d.concat(s.as_str());
        proof {
            if m >= 10 {
                assert(decimal(m as nat) == decimal((m / 10) as nat) + seq![digit_char((m % 10) as nat)]);
                assert(decimal(n as nat) =~= decimal((m / 10) as nat) + s@);
            } else {
                assert(decimal(m as nat) == seq![digit_char(m as nat)]);
                assert(m % 10 == m);
                assert(decimal(n as nat) =~= s@);
            }
        }
        m = m / 10;
    }
    s
}

/// `line` without one carriage return at its end, if it has one.
pub open spec fn strip_cr(line: Seq<char>) -> Seq<char> {
    if line.len() > 0 && line.last() == '\r' {
        line.drop_last()
    } else {
        line
    }
}

/// `line` as a list of at most one element: nothing if it is empty.
pub open spec fn keep_nonempty(line: Seq<char>) -> Seq<Seq<char>> {
    if line.len() == 0 {
        Seq::empty()
    } else {
        seq![line]
    }
}

/// The non-empty lines of `s`, where `cur` is the part of the current line
/// already read. A line ends at `\n`, and a `\r` just before that `\n` is
/// no part of it.
pub open spec fn nonempty_lines_from(s: Seq<char>, cur: Seq<char>) -> Seq<Seq<char>>
    decreases s.len(),
{
    if s.len() == 0 {
        keep_nonempty(cur)
    } else if s[0] == '\n' {
        keep_nonempty(strip_cr(cur)) + nonempty_lines_from(s.drop_first(), Seq::empty())
    } else {
        nonempty_lines_from(s.drop_first(), cur.push(s[0]))
    }
}

/// The non-empty lines of `s`, in order.
pub open spec fn nonempty_lines_of(s: Seq<char>) -> Seq<Seq<char>> {
    nonempty_lines_from(s, Seq::empty())
}

proof fn lines_step(s: Seq<char>, start: int, i: int)
    requires
        0 <= start <= i < s.len(),
    ensures
        s[i] == '\n' ==> nonempty_lines_from(s.subrange(i, s.len() as int), s.subrange(start, i))
            == keep_nonempty(strip_cr(s.subrange(start, i)))
            + nonempty_lines_from(s.subrange(i + 1, s.len() as int), s.subrange(i + 1, i + 1)),
        s[i] != '\n' ==> nonempty_lines_from(s.subrange(i, s.len() as int), s.subrange(start, i))
            == nonempty_lines_from(s.subrange(i + 1, s.len() as int), s.subrange(start, i + 1)),
{
    let rest = s.subrange(i, s.len() as int);
    assert(rest.drop_first() =~= s.subrange(i + 1, s.len() as int));
    assert(s.subrange(start, i).push(s[i]) =~= s.subrange(start, i + 1));
    assert(s.subrange(i + 1, i + 1) =~= Seq::<char>::empty());
}

/// The non-empty lines of `text`, each without its line ending, in order.
pub fn nonempty_lines(text: &str) -> (r: Vec<String>)
    ensures
        views(r@) == nonempty_lines_of(text@),
{
    let ghost s = text@;
    let n = text.unicode_len();
    let mut out: Vec<String> = Vec::new();
    let mut start: usize = 0;
    let mut i: usize = 0;
    assert(s.subrange(0, s.len() as int) =~= s);
    assert(s.subrange(0, 0) =~= Seq::<char>::empty());
    while i < n
        invariant
            n == s.len(),
            s == text@,
            start <= i <= n,
            nonempty_lines_of(s) == views(out@) + nonempty_lines_from(
                s.subrange(i as int, n as int),
                s.subrange(start as int, i as int),
            ),
        decreases n - i,
    {
        proof {
            lines_step(s, start as int, i as int);
        }
        let c = text.get_char(i);
        if c == '\n' {
            let mut end = i;
            if end > start && text.get_char(end - 1) == '\r' {
                end = end - 1;
            }
            proof {
                assert(s.subrange(start as int, end as int) =~= strip_cr(s.subrange(start as int, i as int)));
            }
            let ghost before = out@;
            if end > start {
                let line = String::from_str(text.substring_char(start, end));
                out.push(line);
                proof {
                    assert(views(out@) =~= views(before) + keep_nonempty(strip_cr(s.subrange(start as int, i as int))));
                }
            } else {
                proof {
                    assert(views(out@) =~= views(before) + keep_nonempty(strip_cr(s.subrange(start as int, i as int))));
                }
            }
            start = i + 1;
        }
        i += 1;
    }
    let ghost before = out@;
    if i > start {
        let line = String::from_str(text.substring_char(start, i));
        out.push(line);
        assert(views(out@) =~= views(before) + keep_nonempty(s.subrange(start as int, i as int)));
    } else {
        assert(views(out@) =~= views(before) + keep_nonempty(s.subrange(start as int, i as int)));
    }
    out
}

} // verus!
