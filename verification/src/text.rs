//! Character-level helpers for building and taking apart strings.

use vstd::prelude::*;

verus! {

broadcast use vstd::string::group_string_axioms;

/// The decimal digit `d` as a character.
pub open spec fn digit_char(d: nat) -> char {
    ((d + 48) as u32) as char
}

/// The decimal rendering of `n`, without sign or leading zeros.
pub open spec fn decimal(n: nat) -> Seq<char>
    decreases n,
{
    if n < 10 {
        seq![digit_char(n)]
    } else {
        decimal(n / 10).push(digit_char(n % 10))
    }
}

/// `s` with every trailing `'\n'` removed.
pub open spec fn trim_newlines(s: Seq<char>) -> Seq<char>
    decreases s.len(),
{
    if s.len() > 0 && s.last() == '\n' {
        trim_newlines(s.drop_last())
    } else {
        s
    }
}

/// `i` is the position of the first `'\n'` of `s`.
pub open spec fn is_first_newline(s: Seq<char>, i: int) -> bool {
    &&& 0 <= i < s.len()
    &&& s[i] == '\n'
    &&& forall|j: int| 0 <= j < i ==> s[j] != '\n'
}

/// `s` holds a `'\n'`.
pub open spec fn has_newline(s: Seq<char>) -> bool {
    exists|i: int| 0 <= i < s.len() && s[i] == '\n'
}

/// The parts joined, with `sep` between each two neighbours.
pub open spec fn join(parts: Seq<Seq<char>>, sep: Seq<char>) -> Seq<char>
    decreases parts.len(),
{
    if parts.len() == 0 {
        Seq::empty()
    } else if parts.len() == 1 {
        parts[0]
    } else {
        join(parts.drop_last(), sep) + sep + parts.last()
    }
}

/// Appends one character to a string (`String::push`).
#[verifier::external_body]
pub(crate) fn push_char(s: &mut String, c: char)
    ensures
        final(s)@ == old(s)@.push(c),
{
    s.push(c);
}

/// The characters of `s`, in order.
pub fn chars_of(s: &str) -> (res: Vec<char>)
    ensures
        res@ == s@,
{
    let mut res: Vec<char> = Vec::new();
    for c in it: s.chars()
        invariant
            res@ == it.seq().take(it.index()),
    {
        res.push(c);
    }
    res
}

/// Appends `cs[from..to]` to `out`.
pub fn append_chars(out: &mut String, cs: &Vec<char>, from: usize, to: usize)
    requires
        from <= to <= cs@.len(),
    ensures
        final(out)@ == old(out)@ + cs@.subrange(from as int, to as int),
{
    let mut i: usize = from;
    while i < to
        invariant
            from <= i <= to <= cs@.len(),
            out@ == old(out)@ + cs@.subrange(from as int, i as int),
        decreases to - i,
    {
        push_char(out, cs[i]);
        i = i + 1;
        assert(out@ =~= old(out)@ + cs@.subrange(from as int, i as int));
    }
}

/// The decimal digit `d` as a character.
fn digit(d: u32) -> (c: char)
    requires
        d < 10,
    ensures
        c == digit_char(d as nat),
{
    match d {
        0 => '0',
        1 => '1',
        2 => '2',
        3 => '3',
        4 => '4',
        5 => '5',
        6 => '6',
        7 => '7',
        8 => '8',
        _ => '9',
    }
}

/// Appends the decimal rendering of `n` to `out`.
pub fn push_decimal(out: &mut String, n: u32)
    ensures
        final(out)@ == old(out)@ + decimal(n as nat),
    decreases n,
{
    if n >= 10 {
        push_decimal(out, n / 10);
    }
    push_char(out, digit(n % 10));
    assert(out@ =~= old(out)@ + decimal(n as nat));
}

/// The length of the longest prefix of `cs` that does not end in `'\n'`
/// and after which only `'\n'` follows.
pub fn trimmed_len(cs: &Vec<char>) -> (end: usize)
    ensures
        end <= cs@.len(),
        cs@.take(end as int) == trim_newlines(cs@),
{
    let mut end: usize = cs.len();
    assert(cs@.take(end as int) =~= cs@);
    while end > 0 && cs[end - 1] == '\n'
        invariant
            end <= cs@.len(),
            trim_newlines(cs@.take(end as int)) == trim_newlines(cs@),
        decreases end,
    {
        assert(cs@.take(end as int).drop_last() =~= cs@.take(end - 1));
        end = end - 1;
    }
    end
}

/// The position of the first `'\n'` in `cs[..end]`, if there is one.
pub fn first_newline(cs: &Vec<char>, end: usize) -> (res: Option<usize>)
    requires
        end <= cs@.len(),
    ensures
        match res {
            Some(i) => is_first_newline(cs@.take(end as int), i as int),
            None => !has_newline(cs@.take(end as int)),
        },
{
    let ghost s = cs@.take(end as int);
    let mut i: usize = 0;
    while i < end
        invariant
            i <= end <= cs@.len(),
            s == cs@.take(end as int),
            forall|j: int| 0 <= j < i ==> s[j] != '\n',
        decreases end - i,
    {
        if cs[i] == '\n' {
            return Some(i);
        }
        i = i + 1;
    }
    None
}

/// The string holding `parts` (in reverse order when `reverse` is set), with
/// `sep` between each two neighbours.
pub fn join_parts(parts: &Vec<&str>, sep: &str, reverse: bool) -> (res: String)
    ensures
        res@ == join(
            if reverse {
                parts@.map_values(|p: &str| p@).reverse()
            } else {
                parts@.map_values(|p: &str| p@)
            },
            sep@,
        ),
{
    let ghost views = parts@.map_values(|p: &str| p@);
    let ghost ordered = if reverse {
        views.reverse()
    } else {
        views
    };
    let n: usize = parts.len();
    let mut res = String::new();
    let mut k: usize = 0;
    while k < n
        invariant
            n == parts@.len(),
            views == parts@.map_values(|p: &str| p@),
            ordered == (if reverse {
                views.reverse()
            } else {
                views
            }),
            k <= n,
            res@ == join(ordered.take(k as int), sep@),
        decreases n - k,
    {
        let part = if reverse {
            parts[n - 1 - k]
        } else {
            parts[k]
        };
        assert(part@ == ordered[k as int]);
        assert(ordered.take(k + 1).drop_last() =~= ordered.take(k as int));
        if k > 0 {
            res.append(sep);
        }
        res.append(part);
        k = k + 1;
        assert(res@ =~= join(ordered.take(k as int), sep@));
    }
    assert(ordered.take(n as int) =~= ordered);
    res
}

} // verus!
