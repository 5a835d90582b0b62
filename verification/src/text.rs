//! Character-level helpers shared by the rest of the crate.

use vstd::prelude::*;
use vstd::string::StringExecFns;

verus! {

/// `String::push` appends exactly one character to the end of the string.
pub assume_specification[ String::push ](s: &mut String, c: char)
    ensures
        final(s)@ == old(s)@.push(c),
;

/// Collects the characters of `s` into a vector.
pub fn chars_of(s: &str) -> (v: Vec<char>)
    ensures
        v@ == s@,
{
    let mut v: Vec<char> = Vec::new();
    for c in it: s.chars()
        invariant
            v@ == it.seq().take(it.index() as int),
            it.seq() == s@,
    {
        v.push(c);
    }
    v
}

/// Builds a string from a slice of characters.
pub fn string_of(cs: &[char]) -> (s: String)
    ensures
        s@ == cs@,
{
    let mut s = String::new();
    let mut i: usize = 0;
    while i < cs.len()
        invariant
            i <= cs.len(),
            s@ == cs@.take(i as int),
        decreases cs.len() - i,
    {
        s.push(cs[i]);
        i += 1;
    }
    s
}

/// The parts of `parts` written one after another with `sep` between neighbours.
pub open spec fn join(parts: Seq<Seq<char>>, sep: Seq<char>) -> Seq<char>
    decreases parts.len(),
{
    if parts.len() == 0 {
        Seq::empty()
    } else if parts.len() == 1 {
        parts[0]
    } else {
        join(parts.drop_last(), sep) + sep + parts.last()
    }
}

/// The text of an optional string.
pub open spec fn text_view(o: Option<String>) -> Option<Seq<char>> {
    match o {
        Some(s) => Some(s@),
        None => None,
    }
}

/// The views of a vector of strings.
pub open spec fn views(parts: Seq<String>) -> Seq<Seq<char>> {
    Seq::new(parts.len(), |i: int| parts[i]@)
}

/// Copies a vector of strings.
pub fn clone_strings(parts: &Vec<String>) -> (out: Vec<String>)
    ensures
        out@ == parts@,
{
    let mut out: Vec<String> = Vec::new();
    let mut i: usize = 0;
    while i < parts.len()
        invariant
            i <= parts.len(),
            out@ == parts@.take(i as int),
        decreases parts.len() - i,
    {
        out.push(parts[i].clone());
        assert(out@ =~= parts@.take(i as int + 1));
        i += 1;
    }
    assert(parts@.take(parts.len() as int) == parts@);
    out
}

/// Joins `parts` with `sep` between neighbours.
pub fn join_strings(parts: &Vec<String>, sep: &str) -> (out: String)
    ensures
        out@ == join(views(parts@), sep@),
{
    let mut out = String::new();
    let mut i: usize = 0;
    while i < parts.len()
        invariant
            i <= parts.len(),
            out@ == join(views(parts@).take(i as int), sep@),
        decreases parts.len() - i,
    {
        proof {
            let next = views(parts@).take(i as int + 1);
            assert(next.drop_last() == views(parts@).take(i as int));
            assert(next.last() == parts@[i as int]@);
        }
        if i > 0 {
            out.append(sep);
        }
        out.append(parts[i].as_str());
        i += 1;
    }
    proof {
        assert(views(parts@).take(parts.len() as int) == views(parts@));
    }
    out
}

/// The first position of `c` at or after `from`.
pub fn find_char(cs: &[char], c: char, from: usize) -> (r: Option<usize>)
    requires
        from <= cs.len(),
    ensures
        match r {
            Some(i) => from <= i < cs.len() && cs@[i as int] == c && forall|j: int|
                from <= j < i ==> cs@[j] != c,
            None => forall|j: int| from <= j < cs.len() ==> cs@[j] != c,
        },
{
    let mut i: usize = from;
    while i < cs.len()
        invariant
            from <= i <= cs.len(),
            forall|j: int| from <= j < i ==> cs@[j] != c,
        decreases cs.len() - i,
    {
        if cs[i] == c {
            return Some(i);
        }
        i += 1;
    }
    None
}

/// Whether `s` begins with `prefix`.
pub open spec fn starts_with(s: Seq<char>, prefix: Seq<char>) -> bool {
    prefix.len() <= s.len() && s.take(prefix.len() as int) == prefix
}

/// Whether `pat` stands in `cs` at position `at`.
pub fn matches_at(cs: &[char], at: usize, pat: &[char]) -> (b: bool)
    requires
        at <= cs.len(),
    ensures
        b == starts_with(cs@.skip(at as int), pat@),
{
    if pat.len() > cs.len() - at {
        return false;
    }
    let mut k: usize = 0;
    while k < pat.len()
        invariant
            at <= cs.len(),
            pat.len() <= cs.len() - at,
            k <= pat.len(),
            forall|j: int| 0 <= j < k ==> cs@[at + j] == pat@[j],
        decreases pat.len() - k,
    {
        if cs[at + k] != pat[k] {
            proof {
                let window = cs@.skip(at as int).take(pat.len() as int);
                assert(window[k as int] != pat@[k as int]);
            }
            return false;
        }
        k += 1;
    }
    proof {
        assert(cs@.skip(at as int).take(pat.len() as int) =~= pat@);
    }
    true
}

/// `s` with every occurrence of `pat` replaced by `rep`, scanning from the
/// left and never looking inside a replacement. An empty `pat` changes nothing.
pub open spec fn replace(s: Seq<char>, pat: Seq<char>, rep: Seq<char>) -> Seq<char>
    decreases s.len(),
{
    if pat.len() == 0 || s.len() == 0 {
        s
    } else if starts_with(s, pat) {
        rep + replace(s.skip(pat.len() as int), pat, rep)
    } else {
        seq![s[0]] + replace(s.drop_first(), pat, rep)
    }
}

/// Replaces every occurrence of `pat` in `cs` by `rep`.
pub fn replace_chars(cs: &[char], pat: &[char], rep: &[char]) -> (out: Vec<char>)
    ensures
        out@ == replace(cs@, pat@, rep@),
{
    let mut out: Vec<char> = Vec::new();
    let mut i: usize = 0;
    if pat.len() == 0 {
        while i < cs.len()
            invariant
                i <= cs.len(),
                out@ == cs@.take(i as int),
            decreases cs.len() - i,
        {
            out.push(cs[i]);
            i += 1;
        }
        assert(cs@.take(cs.len() as int) == cs@);
        return out;
    }
    proof {
        assert(cs@.skip(0) == cs@);
        assert(out@ + replace(cs@, pat@, rep@) == replace(cs@, pat@, rep@));
    }
    while i < cs.len()
        invariant
            i <= cs.len(),
            pat.len() > 0,
            replace(cs@, pat@, rep@) == out@ + replace(cs@.skip(i as int), pat@, rep@),
        decreases cs.len() - i,
    {
        let ghost rest = cs@.skip(i as int);
        let ghost before = out@;
        if matches_at(cs, i, pat) {
            let mut k: usize = 0;
            while k < rep.len()
                invariant
                    k <= rep.len(),
                    out@ == before + rep@.take(k as int),
                decreases rep.len() - k,
            {
                out.push(rep[k]);
                k += 1;
            }
            proof {
                assert(rep@.take(rep.len() as int) == rep@);
                assert(rest.skip(pat.len() as int) == cs@.skip(i + pat.len()));
                assert(before + (rep@ + replace(rest.skip(pat.len() as int), pat@, rep@))
                    == (before + rep@) + replace(rest.skip(pat.len() as int), pat@, rep@));
            }
            i += pat.len();
        } else {
            out.push(cs[i]);
            proof {
                assert(rest.drop_first() == cs@.skip(i + 1));
                assert(before + (seq![rest[0]] + replace(rest.drop_first(), pat@, rep@))
                    == (before + seq![rest[0]]) + replace(rest.drop_first(), pat@, rep@));
                assert(before.push(cs@[i as int]) == before + seq![rest[0]]);
            }
            i += 1;
        }
    }
    proof {
        assert(cs@.skip(cs.len() as int).len() == 0);
        assert(out@ + Seq::<char>::empty() == out@);
    }
    out
}

/// Whether `c` is white space in the sense of Unicode's `White_Space`.
pub open spec fn is_space(c: char) -> bool {
    let u = c as u32;
    ||| 0x09 <= u <= 0x0D
    ||| u == 0x20
    ||| u == 0x85
    ||| u == 0xA0
    ||| u == 0x1680
    ||| 0x2000 <= u <= 0x200A
    ||| u == 0x2028
    ||| u == 0x2029
    ||| u == 0x202F
    ||| u == 0x205F
    ||| u == 0x3000
}

/// Tells white space from other characters.
pub fn is_space_char(c: char) -> (b: bool)
    ensures
        b == is_space(c),
{
    let u: u32 = c as u32;
    (0x09 <= u && u <= 0x0D) || u == 0x20 || u == 0x85 || u == 0xA0 || u == 0x1680 || (0x2000
        <= u && u <= 0x200A) || u == 0x2028 || u == 0x2029 || u == 0x202F || u == 0x205F || u
        == 0x3000
}

/// `s` without its leading white space.
pub open spec fn trim_start(s: Seq<char>) -> Seq<char>
    decreases s.len(),
{
    if s.len() > 0 && is_space(s[0]) {
        trim_start(s.drop_first())
    } else {
        s
    }
}

/// `s` without its trailing white space.
pub open spec fn trim_end(s: Seq<char>) -> Seq<char>
    decreases s.len(),
{
    if s.len() > 0 && is_space(s.last()) {
        trim_end(s.drop_last())
    } else {
        s
    }
}

/// `s` without its leading and trailing white space.
pub open spec fn trim(s: Seq<char>) -> Seq<char> {
    trim_end(trim_start(s))
}

/// The bounds of `cs` without its leading and trailing white space.
pub fn trim_bounds(cs: &[char]) -> (r: (usize, usize))
    ensures
        r.0 <= r.1 <= cs.len(),
        cs@.subrange(r.0 as int, r.1 as int) == trim(cs@),
{
    let mut start: usize = 0;
    proof {
        assert(cs@.skip(0) == cs@);
    }
    while start < cs.len() && is_space_char(cs[start])
        invariant
            start <= cs.len(),
            trim_start(cs@) == trim_start(cs@.skip(start as int)),
        decreases cs.len() - start,
    {
        proof {
            assert(cs@.skip(start as int).drop_first() == cs@.skip(start + 1));
        }
        start += 1;
    }
    let mut end: usize = cs.len();
    proof {
        assert(cs@.subrange(start as int, end as int) == cs@.skip(start as int));
    }
    while end > start && is_space_char(cs[end - 1])
        invariant
            start <= end <= cs.len(),
            trim_start(cs@) == cs@.skip(start as int),
            trim(cs@) == trim_end(cs@.subrange(start as int, end as int)),
        decreases end,
    {
        proof {
            assert(cs@.subrange(start as int, end as int).drop_last() == cs@.subrange(
                start as int,
                end - 1,
            ));
        }
        end -= 1;
    }
    (start, end)
}

/// Copies `cs[from..to]`.
pub fn slice_chars(cs: &[char], from: usize, to: usize) -> (out: Vec<char>)
    requires
        from <= to <= cs.len(),
    ensures
        out@ == cs@.subrange(from as int, to as int),
{
    let mut out: Vec<char> = Vec::new();
    let mut i: usize = from;
    while i < to
        invariant
            from <= i <= to <= cs.len(),
            out@ == cs@.subrange(from as int, i as int),
        decreases to - i,
    {
        out.push(cs[i]);
        i += 1;
    }
    out
}

/// Removes leading and trailing white space.
pub fn trim_str(s: &str) -> (out: String)
    ensures
        out@ == trim(s@),
{
    let cs = chars_of(s);
    let (from, to) = trim_bounds(cs.as_slice());
    let kept = slice_chars(cs.as_slice(), from, to);
    string_of(kept.as_slice())
}

/// Replaces every occurrence of `pat` in `s` by `rep`.
pub fn replace_str(s: &str, pat: &str, rep: &str) -> (out: String)
    ensures
        out@ == replace(s@, pat@, rep@),
{
    let cs = chars_of(s);
    let ps = chars_of(pat);
    let rs = chars_of(rep);
    let out = replace_chars(cs.as_slice(), ps.as_slice(), rs.as_slice());
    string_of(out.as_slice())
}

/// The character of a decimal digit.
pub open spec fn digit_char(d: nat) -> char
    recommends
        d < 10,
{
    (0x30 + d) as u8 as char
}

/// The decimal text of a number, without leading zeros.
pub open spec fn decimal(n: nat) -> Seq<char>
    decreases n,
{
    if n < 10 {
        seq![digit_char(n)]
    } else {
        decimal(n / 10).push(digit_char(n % 10))
    }
}

/// Appends the decimal text of `n` to `out`.
pub fn push_decimal(out: &mut String, n: u64)
    ensures
        final(out)@ == old(out)@ + decimal(n as nat),
    decreases n,
{
    if n >= 10 {
        push_decimal(out, n / 10);
    }
    let d: u8 = (n % 10) as u8;
    let c: char = (0x30u8 + d) as char;
    out.push(c);
    proof {
        assert(c == digit_char((n % 10) as nat));
        if n < 10 {
            assert(old(out)@.push(c) == old(out)@ + decimal(n as nat));
        } else {
            assert((old(out)@ + decimal((n / 10) as nat)).push(c) == old(out)@ + decimal(
                n as nat,
            ));
        }
    }
}

/// The decimal text of `n`.
pub fn decimal_string(n: u64) -> (out: String)
    ensures
        out@ == decimal(n as nat),
{
    let mut out = String::new();
    push_decimal(&mut out, n);
    proof {
        assert(Seq::<char>::empty() + decimal(n as nat) == decimal(n as nat));
    }
    out
}

/// Whether `c` is one of `0` to `9`.
pub open spec fn is_digit(c: char) -> bool {
    0x30 <= c as u32 <= 0x39
}

/// The value of a decimal digit; 0 for any other character.
pub open spec fn digit_value(c: char) -> nat {
    if is_digit(c) {
        (c as u32 - 0x30) as nat
    } else {
        0
    }
}

/// The number that a sequence of digits denotes; an empty one denotes 0.
pub open spec fn digits_value(s: Seq<char>) -> nat
    decreases s.len(),
{
    if s.len() == 0 {
        0
    } else {
        digits_value(s.drop_last()) * 10 + digit_value(s.last())
    }
}

/// Whether `s` is one or more decimal digits.
pub open spec fn all_digits(s: Seq<char>) -> bool {
    s.len() > 0 && forall|i: int| 0 <= i < s.len() ==> is_digit(#[trigger] s[i])
}

/// Reads `cs` as a decimal number no greater than `max`.
pub fn parse_digits(cs: &[char], max: u64) -> (r: Option<u64>)
    ensures
        r is Some <==> all_digits(cs@) && digits_value(cs@) <= max,
        r matches Some(n) ==> n == digits_value(cs@),
{
    if cs.len() == 0 {
        return None;
    }
    let mut n: u64 = 0;
    let mut i: usize = 0;
    proof {
        assert(cs@.take(0).len() == 0);
    }
    while i < cs.len()
        invariant
            i <= cs.len(),
            cs.len() > 0,
            forall|j: int| 0 <= j < i ==> is_digit(#[trigger] cs@[j]),
            n == digits_value(cs@.take(i as int)),
            n <= max,
        decreases cs.len() - i,
    {
        let u: u32 = cs[i] as u32;
        if u < 0x30 || u > 0x39 {
            return None;
        }
        let d: u64 = (u - 0x30) as u64;
        proof {
            let next = cs@.take(i + 1);
            assert(next.drop_last() == cs@.take(i as int));
            assert(next.last() == cs@[i as int]);
            assert(digits_value(next) == n * 10 + d);
            lemma_digits_value_grows(cs@, i + 1);
        }
        if d > max {
            return None;
        }
        if n > (max - d) / 10 {
            proof {
                assert(n * 10 + d > max) by (nonlinear_arith)
                    requires
                        n > (max - d) / 10,
                        d <= max,
                ;
            }
            return None;
        }
        assert(n * 10 + d <= max) by (nonlinear_arith)
            requires
                n <= (max - d) / 10,
                d <= max,
        ;
        n = n * 10 + d;
        i += 1;
    }
    proof {
        assert(cs@.take(cs.len() as int) == cs@);
    }
    Some(n)
}

/// The decimal text of a number is made of digits and denotes the number.
pub proof fn law_decimal_round_trip(n: nat)
    ensures
        all_digits(decimal(n)),
        digits_value(decimal(n)) == n,
    decreases n,
{
    if n < 10 {
        let s = seq![digit_char(n)];
        assert(decimal(n) == s);
        assert(is_digit(s[0]));
        assert(s.drop_last().len() == 0);
        assert(digits_value(s.drop_last()) == 0);
        assert(digit_value(s.last()) == n);
        assert(digits_value(s) == digits_value(s.drop_last()) * 10 + digit_value(s.last()));
    } else {
        law_decimal_round_trip(n / 10);
        let head = decimal(n / 10);
        let s = head.push(digit_char(n % 10));
        assert(decimal(n) == s);
        assert(s.drop_last() == head);
        assert(is_digit(s.last()));
        assert(digit_value(s.last()) == n % 10);
        assert(digits_value(s) == digits_value(head) * 10 + digit_value(s.last()));
        assert forall|i: int| 0 <= i < s.len() implies is_digit(#[trigger] s[i]) by {
            if i < head.len() {
                assert(s[i] == head[i]);
            }
        }
    }
}

/// The whole number that a text denotes: digits, with `-` before them for a
/// negative number, within 32 bits with a sign.
pub open spec fn signed_value(s: Seq<char>) -> Option<i32> {
    if s.len() > 0 && s[0] == '-' {
        let d = s.drop_first();
        if all_digits(d) && digits_value(d) <= 0x8000_0000 {
            Some((0 - digits_value(d)) as i32)
        } else {
            None
        }
    } else if all_digits(s) && digits_value(s) <= 0x7fff_ffff {
        Some(digits_value(s) as i32)
    } else {
        None
    }
}

/// Reads `cs` as a whole number.
pub fn parse_signed(cs: &[char]) -> (r: Option<i32>)
    ensures
        r == signed_value(cs@),
{
    if cs.len() > 0 && cs[0] == '-' {
        let digits = slice_chars(cs, 1, cs.len());
        assert(cs@.subrange(1, cs.len() as int) == cs@.drop_first());
        match parse_digits(digits.as_slice(), 0x8000_0000) {
            Some(n) => {
                let v: i64 = 0 - (n as i64);
                Some(v as i32)
            },
            None => None,
        }
    } else {
        match parse_digits(cs, 0x7fff_ffff) {
            Some(n) => Some(n as i32),
            None => None,
        }
    }
}

/// A prefix of a digit sequence denotes no more than the whole.
pub proof fn lemma_digits_value_grows(s: Seq<char>, k: int)
    requires
        0 <= k <= s.len(),
    ensures
        digits_value(s.take(k)) <= digits_value(s),
    decreases s.len() - k,
{
    if k == s.len() {
        assert(s.take(k) == s);
    } else {
        lemma_digits_value_grows(s, k + 1);
        let next = s.take(k + 1);
        assert(next.drop_last() == s.take(k));
        assert(digits_value(next) >= digits_value(s.take(k)));
    }
}

/// The characters of `s` up to its first white space.
pub open spec fn token(s: Seq<char>) -> Seq<char>
    decreases s.len(),
{
    if s.len() == 0 || is_space(s[0]) {
        Seq::empty()
    } else {
        seq![s[0]] + token(s.drop_first())
    }
}

/// What is left of `s` from its first white space on.
pub open spec fn after_token(s: Seq<char>) -> Seq<char>
    decreases s.len(),
{
    if s.len() == 0 || is_space(s[0]) {
        s
    } else {
        after_token(s.drop_first())
    }
}

/// The bounds of the first word of `cs` at or after `from`: white space is
/// passed over, and the word runs up to the next white space.
pub fn next_token(cs: &[char], from: usize) -> (r: (usize, usize))
    requires
        from <= cs.len(),
    ensures
        from <= r.0 <= r.1 <= cs.len(),
        cs@.subrange(r.0 as int, r.1 as int) == token(trim_start(cs@.skip(from as int))),
        cs@.skip(r.1 as int) == after_token(trim_start(cs@.skip(from as int))),
{
    let mut start: usize = from;
    while start < cs.len() && is_space_char(cs[start])
        invariant
            from <= start <= cs.len(),
            trim_start(cs@.skip(from as int)) == trim_start(cs@.skip(start as int)),
        decreases cs.len() - start,
    {
        proof {
            assert(cs@.skip(start as int).drop_first() == cs@.skip(start + 1));
        }
        start += 1;
    }
    let ghost word = cs@.skip(start as int);
    assert(trim_start(word) == word);
    let mut end: usize = start;
    proof {
        assert(cs@.subrange(start as int, end as int) + token(cs@.skip(end as int)) == token(
            word,
        ));
    }
    while end < cs.len() && !is_space_char(cs[end])
        invariant
            start <= end <= cs.len(),
            word == cs@.skip(start as int),
            token(word) == cs@.subrange(start as int, end as int) + token(cs@.skip(end as int)),
            after_token(word) == after_token(cs@.skip(end as int)),
        decreases cs.len() - end,
    {
        proof {
            let rest = cs@.skip(end as int);
            assert(rest.drop_first() == cs@.skip(end + 1));
            assert(cs@.subrange(start as int, end as int) + (seq![rest[0]] + token(
                rest.drop_first(),
            )) == cs@.subrange(start as int, end + 1) + token(cs@.skip(end + 1)));
        }
        end += 1;
    }
    proof {
        assert(token(cs@.skip(end as int)).len() == 0);
        assert(cs@.subrange(start as int, end as int) + Seq::<char>::empty() == cs@.subrange(
            start as int,
            end as int,
        ));
    }
    (start, end)
}

/// The length of the first line of `s`: the position of its first line feed,
/// or its length where it has none.
pub open spec fn line_end(s: Seq<char>) -> int
    decreases s.len(),
{
    if s.len() == 0 || s[0] == '\n' {
        0
    } else {
        1 + line_end(s.drop_first())
    }
}

/// Where the first line of `s` ends, by what stands before that place.
pub proof fn lemma_line_end(s: Seq<char>, i: int)
    requires
        0 <= i <= s.len(),
        forall|k: int| 0 <= k < i ==> s[k] != '\n',
        i < s.len() ==> s[i] == '\n',
    ensures
        line_end(s) == i,
    decreases s.len(),
{
    if s.len() > 0 && i > 0 {
        let rest = s.drop_first();
        assert(s[0] != '\n');
        assert forall|k: int| 0 <= k < i - 1 implies rest[k] != '\n' by {
            assert(rest[k] == s[k + 1]);
        }
        lemma_line_end(rest, i - 1);
    }
}

/// The end of the line of `cs` that begins at `from`.
pub fn find_line_end(cs: &[char], from: usize) -> (end: usize)
    requires
        from <= cs.len(),
    ensures
        from <= end <= cs.len(),
        end - from == line_end(cs@.skip(from as int)),
{
    let end = match find_char(cs, '\n', from) {
        Some(i) => i,
        None => cs.len(),
    };
    proof {
        let rest = cs@.skip(from as int);
        assert forall|k: int| 0 <= k < end - from implies rest[k] != '\n' by {
            assert(rest[k] == cs@[from + k]);
        }
        lemma_line_end(rest, end - from);
    }
    end
}

/// Whether two slices hold the same characters.
pub fn same_chars(a: &[char], b: &[char]) -> (r: bool)
    ensures
        r == (a@ == b@),
{
    if a.len() != b.len() {
        return false;
    }
    let mut i: usize = 0;
    while i < a.len()
        invariant
            i <= a.len(),
            a.len() == b.len(),
            forall|j: int| 0 <= j < i ==> a@[j] == b@[j],
        decreases a.len() - i,
    {
        if a[i] != b[i] {
            return false;
        }
        i += 1;
    }
    assert(a@ =~= b@);
    true
}

/// Whether two strings hold the same text.
pub fn same_text(a: &str, b: &str) -> (r: bool)
    ensures
        r == (a@ == b@),
{
    let x = chars_of(a);
    let y = chars_of(b);
    same_chars(x.as_slice(), y.as_slice())
}

/// `a` followed by `b`.
pub fn glue(a: &str, b: &str) -> (out: String)
    ensures
        out@ == a@ + b@,
{
    let mut out = String::from_str(a);
    out.append(b);
    out
}

} // verus!
