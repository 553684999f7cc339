//! Text helpers that the rest of the library builds its file names, messages
//! and tool arguments from. Every function is specified over `Seq<char>`.

use vstd::prelude::*;
use vstd::string::*;

verus! {

/// The character that stands for the decimal digit `d`.
pub open spec fn digit(d: nat) -> char {
    if d == 0 {
        '0'
    } else if d == 1 {
        '1'
    } else if d == 2 {
        '2'
    } else if d == 3 {
        '3'
    } else if d == 4 {
        '4'
    } else if d == 5 {
        '5'
    } else if d == 6 {
        '6'
    } else if d == 7 {
        '7'
    } else if d == 8 {
        '8'
    } else {
        '9'
    }
}

/// The decimal notation of `n`, without sign, padding or leading zeros.
pub open spec fn decimal(n: nat) -> Seq<char>
    decreases n,
{
    if n < 10 {
        seq![digit(n)]
    } else {
        decimal(n / 10).push(digit(n % 10))
    }
}

/// `s` ends with `suffix`.
pub open spec fn ends_with(s: Seq<char>, suffix: Seq<char>) -> bool {
    suffix.len() <= s.len() && s.skip(s.len() - suffix.len()) == suffix
}

/// `s` with every occurrence of `from` replaced by `to`, scanning from the
/// left and never looking again at what a replacement covered. An empty
/// `from` occurs nowhere.
pub open spec fn replaced(s: Seq<char>, from: Seq<char>, to: Seq<char>) -> Seq<char>
    decreases s.len(),
{
    if from.len() == 0 || s.len() < from.len() {
        s
    } else if s.take(from.len() as int) == from {
        to + replaced(s.skip(from.len() as int), from, to)
    } else {
        seq![s[0]] + replaced(s.skip(1), from, to)
    }
}

/// The path of `name` inside the directory `dir`: one `/` stands between
/// them unless `dir` is empty or already ends in one, and a `name` that
/// starts at the root stands alone.
pub open spec fn joined(dir: Seq<char>, name: Seq<char>) -> Seq<char> {
    if name.len() > 0 && name[0] == '/' {
        name
    } else if dir.len() == 0 || dir.last() == '/' {
        dir + name
    } else {
        dir + seq!['/'] + name
    }
}

/// `c` is one of the ten decimal digits.
pub open spec fn is_digit(c: char) -> bool {
    exists|d: nat| d < 10 && c == #[trigger] digit(d)
}

/// The decimal notation of a number is not empty and holds digits only.
pub proof fn lemma_decimal_is_digits(n: nat)
    ensures
        decimal(n).len() >= 1,
        forall|i: int| 0 <= i < decimal(n).len() ==> is_digit(#[trigger] decimal(n)[i]),
    decreases n,
{
    if n >= 10 {
        lemma_decimal_is_digits(n / 10);
    }
}

/// Where `from` occurs in `s`, the replacement holds the first character of
/// `to`.
pub proof fn lemma_replaced_holds_replacement(
    s: Seq<char>,
    from: Seq<char>,
    to: Seq<char>,
    at: int,
)
    requires
        from.len() > 0,
        to.len() > 0,
        0 <= at,
        at + from.len() <= s.len(),
        s.subrange(at, at + from.len()) == from,
    ensures
        replaced(s, from, to).contains(to[0]),
    decreases s.len(),
{
    let m = from.len() as int;
    if s.take(m) == from {
        assert((to + replaced(s.skip(m), from, to))[0] == to[0]);
    } else {
        assert(s.skip(1).subrange(at - 1, at - 1 + m) =~= s.subrange(at, at + m));
        lemma_replaced_holds_replacement(s.skip(1), from, to, at - 1);
        let rest = replaced(s.skip(1), from, to);
        let j = choose|j: int| 0 <= j < rest.len() && rest[j] == to[0];
        assert((seq![s[0]] + rest)[j + 1] == to[0]);
    }
}

/// Where `from` occurs at the end of `s` and its first character nowhere
/// before, the replacement is `s` with `to` in place of that end.
pub proof fn lemma_replaced_at_end(stem: Seq<char>, from: Seq<char>, to: Seq<char>)
    requires
        from.len() > 0,
        !stem.contains(from[0]),
    ensures
        replaced(stem + from, from, to) == stem + to,
    decreases stem.len(),
{
    let s = stem + from;
    let m = from.len() as int;
    if stem.len() == 0 {
        assert(s.take(m) =~= from);
        assert(to + replaced(s.skip(m), from, to) =~= stem + to);
    } else {
        assert(s.skip(1) =~= stem.skip(1) + from);
        assert forall|i: int| 0 <= i < stem.skip(1).len() implies stem.skip(1)[i] != from[0] by {
            assert(stem.contains(stem[i + 1]));
        }
        lemma_replaced_at_end(stem.skip(1), from, to);
    }
}

/// The characters of `s`, one element per character.
pub fn chars_of(s: &str) -> (v: Vec<char>)
    ensures
        v@ == s@,
{
    broadcast use group_string_axioms;

    let mut v: Vec<char> = Vec::new();
    for c in it: s.chars()
        invariant
            it.seq() == s@,
            v@ == s@.take(it.index()),
    {
        v.push(c);
    }
    v
}

fn digit_text(d: u128) -> (s: &'static str)
    requires
        d < 10,
    ensures
        s@ == seq![digit(d as nat)],
{
    proof {
        reveal_strlit("0");
        reveal_strlit("1");
        reveal_strlit("2");
        reveal_strlit("3");
        reveal_strlit("4");
        reveal_strlit("5");
        reveal_strlit("6");
        reveal_strlit("7");
        reveal_strlit("8");
        reveal_strlit("9");
    }
    let s = if d == 0 {
        "0"
    } else if d == 1 {
        "1"
    } else if d == 2 {
        "2"
    } else if d == 3 {
        "3"
    } else if d == 4 {
        "4"
    } else if d == 5 {
        "5"
    } else if d == 6 {
        "6"
    } else if d == 7 {
        "7"
    } else if d == 8 {
        "8"
    } else {
        "9"
    };
    s
}

/// Writes `n` in decimal notation.
pub fn decimal_string(n: u128) -> (s: String)
    ensures
        s@ == decimal(n as nat),
    decreases n,
{
    if n < 10 {
        String::from_str(digit_text(n))
    } else {
        let mut s = decimal_string(n / 10);
        s.append(digit_text(n % 10));
        s
    }
}

/// Whether `s` ends with `suffix`.
pub fn has_suffix(s: &str, suffix: &str) -> (found: bool)
    ensures
        found == ends_with(s@, suffix@),
{
    let cs = chars_of(s);
    let fs = chars_of(suffix);
    if fs.len() > cs.len() {
        return false;
    }
    let offset: usize = cs.len() - fs.len();
    let mut i: usize = 0;
    while i < fs.len()
        invariant
            cs@ == s@,
            fs@ == suffix@,
            offset + fs.len() == cs.len(),
            i <= fs.len(),
            forall|k: int| 0 <= k < i ==> cs@[offset + k] == fs@[k],
        decreases fs.len() - i,
    {
        if cs[offset + i] != fs[i] {
            return false;
        }
        i += 1;
    }
    assert(s@.skip(offset as int) =~= suffix@);
    true
}

/// Whether the character `c` occurs in `s`.
pub fn has_char(s: &str, c: char) -> (found: bool)
    ensures
        found == s@.contains(c),
{
    let cs = chars_of(s);
    let mut i: usize = 0;
    while i < cs.len()
        invariant
            cs@ == s@,
            i <= cs.len(),
            forall|k: int| 0 <= k < i ==> cs@[k] != c,
        decreases cs.len() - i,
    {
        if cs[i] == c {
            return true;
        }
        i += 1;
    }
    false
}

fn occurs_at(cs: &Vec<char>, at: usize, pattern: &Vec<char>) -> (found: bool)
    requires
        at + pattern.len() <= cs.len(),
    ensures
        found == (cs@.subrange(at as int, at + pattern.len()) == pattern@),
{
    let mut i: usize = 0;
    while i < pattern.len()
        invariant
            at + pattern.len() <= cs.len(),
            i <= pattern.len(),
            forall|k: int| 0 <= k < i ==> cs@[at + k] == pattern@[k],
        decreases pattern.len() - i,
    {
        if cs[at + i] != pattern[i] {
            return false;
        }
        i += 1;
    }
    assert(cs@.subrange(at as int, at + pattern.len()) =~= pattern@);
    true
}

/// Replaces every occurrence of `from` in `s` by `to`.
pub fn replace_all(s: &str, from: &str, to: &str) -> (out: String)
    ensures
        out@ == replaced(s@, from@, to@),
{
    let cs = chars_of(s);
    let pattern = chars_of(from);
    let n = cs.len();
    let m = pattern.len();
    if m == 0 {
        return String::from_str(s);
    }
    let mut out = String::new();
    let mut start: usize = 0;
    let mut i: usize = 0;
    assert(s@.skip(0) =~= s@);
    while n - i >= m
        invariant
            cs@ == s@,
            pattern@ == from@,
            n == cs.len(),
            m == pattern.len(),
            m > 0,
            start <= i <= n,
            replaced(s@, from@, to@) == out@ + s@.subrange(start as int, i as int) + replaced(
                s@.skip(i as int),
                from@,
                to@,
            ),
        decreases n - i,
    {
        let ghost rest = s@.skip(i as int);
        assert(rest.take(m as int) =~= cs@.subrange(i as int, i + m));
        if occurs_at(&cs, i, &pattern) {
            assert(rest.skip(m as int) =~= s@.skip(i + m));
            out.append(s.substring_char(start, i));
            out.append(to);
            i += m;
            start = i;
        } else {
            assert(rest.skip(1) =~= s@.skip(i + 1));
            i += 1;
        }
    }
    out.append(s.substring_char(start, n));
    out
}

/// The path of `name` inside the directory `dir`.
pub fn join_path(dir: &str, name: &str) -> (path: String)
    ensures
        path@ == joined(dir@, name@),
{
    let name_len = name.unicode_len();
    if name_len > 0 && name.get_char(0) == '/' {
        return String::from_str(name);
    }
    let dir_len = dir.unicode_len();
    let mut path = String::from_str(dir);
    if dir_len > 0 && dir.get_char(dir_len - 1) != '/' {
        proof {
            reveal_strlit("/");
        }
        path.append("/");
    }
    path.append(name);
    path
}

} // verus!
