//! Text utilities the grammar rests on: whitespace tokenization (the same
//! splitting `str::split_whitespace` performs), string equality, and the
//! hostname-pattern check used by the `reboot` command.

use vstd::prelude::*;
use vstd::string::*;

verus! {

/// The Unicode white-space characters, the set `str::split_whitespace`
/// splits on.
pub open spec fn is_space(c: char) -> bool {
    let u = c as u32;
    ||| u == 0x20
    ||| (0x09 <= u && u <= 0x0d)
    ||| u == 0x85
    ||| u == 0xa0
    ||| u == 0x1680
    ||| (0x2000 <= u && u <= 0x200a)
    ||| u == 0x2028
    ||| u == 0x2029
    ||| u == 0x202f
    ||| u == 0x205f
    ||| u == 0x3000
}

/// Exec mirror of [`is_space`].
pub fn is_space_char(c: char) -> (r: bool)
    ensures
        r == is_space(c),
{
    let u = c as u32;
    u == 0x20 || (0x09 <= u && u <= 0x0d) || u == 0x85 || u == 0xa0 || u == 0x1680 || (0x2000 <= u
        && u <= 0x200a) || u == 0x2028 || u == 0x2029 || u == 0x202f || u == 0x205f || u == 0x3000
}

/// The index just past the token that starts at `i`: the first position at
/// or after `i` holding white space, or the end of the text.
pub open spec fn token_end(s: Seq<char>, i: int) -> int
    decreases s.len() - i
        when 0 <= i <= s.len()
{
    if i >= s.len() || is_space(s[i]) {
        i
    } else {
        token_end(s, i + 1)
    }
}

pub proof fn lemma_token_end(s: Seq<char>, i: int)
    requires
        0 <= i <= s.len(),
    ensures
        i <= token_end(s, i) <= s.len(),
        i < s.len() && !is_space(s[i]) ==> i < token_end(s, i),
        forall|k: int| i <= k < token_end(s, i) ==> !is_space(s[k]),
        token_end(s, i) == s.len() || is_space(s[token_end(s, i)]),
    decreases s.len() - i,
{
    if i < s.len() && !is_space(s[i]) {
        lemma_token_end(s, i + 1);
    }
}

/// A stretch of non-space characters ending at a boundary is exactly the
/// token that starts at its first position.
pub proof fn lemma_token_end_is(s: Seq<char>, i: int, j: int)
    requires
        0 <= i <= j <= s.len(),
        forall|k: int| i <= k < j ==> !is_space(s[k]),
        j == s.len() || is_space(s[j]),
    ensures
        token_end(s, i) == j,
    decreases j - i,
{
    if i < j {
        lemma_token_end_is(s, i + 1, j);
    }
}

/// The whitespace-separated tokens of `s` from position `i` on.
pub open spec fn tokens_from(s: Seq<char>, i: int) -> Seq<Seq<char>>
    decreases s.len() - i
        when 0 <= i <= s.len()
        via tokens_from_dec
{
    if i >= s.len() {
        Seq::empty()
    } else if is_space(s[i]) {
        tokens_from(s, i + 1)
    } else {
        seq![s.subrange(i, token_end(s, i))] + tokens_from(s, token_end(s, i))
    }
}

#[via_fn]
proof fn tokens_from_dec(s: Seq<char>, i: int) {
    if 0 <= i <= s.len() && i < s.len() && !is_space(s[i]) {
        lemma_token_end(s, i);
    }
}

/// The whitespace-separated tokens of `s`, in order.
pub open spec fn tokens(s: Seq<char>) -> Seq<Seq<char>> {
    tokens_from(s, 0)
}

/// Splits `s` into its whitespace-separated tokens, as
/// `str::split_whitespace` would.
pub fn tokenize(s: &str) -> (r: Vec<String>)
    ensures
        r.deep_view() == tokens(s@),
{
    let n = s.unicode_len();
    let mut r: Vec<String> = Vec::new();
    let mut i: usize = 0;
    while i < n
        invariant
            n == s@.len(),
            i <= n,
            tokens(s@) == r.deep_view() + tokens_from(s@, i as int),
        decreases n - i,
    {
        let c = s.get_char(i);
        if is_space_char(c) {
            i = i + 1;
        } else {
            let ghost i0 = i as int;
            let mut j: usize = i + 1;
            while j < n && !is_space_char(s.get_char(j))
                invariant
                    n == s@.len(),
                    i0 + 1 <= j <= n,
                    forall|k: int| i0 <= k < j ==> !is_space(s@[k]),
                decreases n - j,
            {
                j = j + 1;
            }
            proof {
                lemma_token_end_is(s@, i0, j as int);
            }
            let tok = s.substring_char(i, j);
            let tok = String::from_str(tok);
            let ghost r0 = r.deep_view();
            r.push(tok);
            proof {
                assert(r.deep_view() =~= r0.push(s@.subrange(i0, j as int)));
                assert(r.deep_view() + tokens_from(s@, j as int) =~= r0 + tokens_from(
                    s@,
                    i0,
                ));
            }
            i = j;
        }
    }
    proof {
        assert(r.deep_view() =~= tokens(s@));
    }
    r
}

/// String equality over views, decided character by character.
pub fn str_eq(a: &str, b: &str) -> (r: bool)
    ensures
        r == (a@ == b@),
{
    let an = a.unicode_len();
    let bn = b.unicode_len();
    if an != bn {
        return false;
    }
    let mut i: usize = 0;
    while i < an
        invariant
            an == a@.len(),
            an == b@.len(),
            i <= an,
            forall|k: int| 0 <= k < i ==> a@[k] == b@[k],
        decreases an - i,
    {
        if s_getc(a, i) != s_getc(b, i) {
            return false;
        }
        i = i + 1;
    }
    proof {
        assert(a@ =~= b@);
    }
    true
}

/// Exec char access; a thin front for `get_char` so callers read uniformly.
fn s_getc(s: &str, i: usize) -> (c: char)
    requires
        i < s@.len(),
    ensures
        c == s@[i as int],
{
    s.get_char(i)
}

/// The decimal digit character for `d`.
pub open spec fn digit_char(d: int) -> char
    recommends
        0 <= d <= 9,
{
    if d == 0 {
        '0'
    } else if d == 1 {
        '1'
    } else if d == 2 {
        '2'
    } else if d == 3 {
        '3'
    } else if d == 4 {
        '4'
    } else if d == 5 {
        '5'
    } else if d == 6 {
        '6'
    } else if d == 7 {
        '7'
    } else if d == 8 {
        '8'
    } else {
        '9'
    }
}

/// The decimal rendering of `n`, most significant digit first, no sign and
/// no leading zeros (a single `0` for zero itself).
pub open spec fn dec_digits(n: int) -> Seq<char>
    decreases n
        when n >= 0
{
    if n < 10 {
        seq![digit_char(n)]
    } else {
        dec_digits(n / 10) + seq![digit_char(n % 10)]
    }
}

/// The single-character string for digit `d`.
fn digit_str(d: u16) -> (r: &'static str)
    requires
        d <= 9,
    ensures
        r@ == seq![digit_char(d as int)],
{
    let r: &'static str = if d == 0 {
        "0"
    } else if d == 1 {
        "1"
    } else if d == 2 {
        "2"
    } else if d == 3 {
        "3"
    } else if d == 4 {
        "4"
    } else if d == 5 {
        "5"
    } else if d == 6 {
        "6"
    } else if d == 7 {
        "7"
    } else if d == 8 {
        "8"
    } else {
        "9"
    };
    proof {
        reveal_strlit("0");
        reveal_strlit("1");
        reveal_strlit("2");
        reveal_strlit("3");
        reveal_strlit("4");
        reveal_strlit("5");
        reveal_strlit("6");
        reveal_strlit("7");
        reveal_strlit("8");
        reveal_strlit("9");
        assert(r@ =~= seq![digit_char(d as int)]);
    }
    r
}

/// Renders `n` in decimal, as `u16::to_string` would.
pub fn u16_to_string(n: u16) -> (r: String)
    ensures
        r@ == dec_digits(n as int),
    decreases n,
{
    if n < 10 {
        String::from_str(digit_str(n))
    } else {
        let high = u16_to_string(n / 10);
        high.concat(digit_str(n % 10))
    }
}

/// A decimal digit.
pub open spec fn is_digit(c: char) -> bool {
    '0' as u32 <= c as u32 && c as u32 <= '9' as u32
}

/// The value of a decimal digit character.
pub open spec fn digit_val(c: char) -> int {
    c as u32 - '0' as u32
}

pub open spec fn all_digits(s: Seq<char>) -> bool {
    forall|i: int| 0 <= i < s.len() ==> is_digit(#[trigger] s[i])
}

/// The numeric value of a digit string, most significant digit first.
pub open spec fn dec_val(s: Seq<char>) -> int
    decreases s.len(),
{
    if s.len() == 0 {
        0
    } else {
        dec_val(s.drop_last()) * 10 + digit_val(s.last())
    }
}

pub proof fn lemma_dec_val_nonneg(s: Seq<char>)
    requires
        all_digits(s),
    ensures
        dec_val(s) >= 0,
    decreases s.len(),
{
    if s.len() > 0 {
        lemma_dec_val_nonneg(s.drop_last());
    }
}

/// Extending a digit string can only grow its value.
pub proof fn lemma_dec_val_prefix(s: Seq<char>, k: int)
    requires
        all_digits(s),
        0 <= k <= s.len(),
    ensures
        dec_val(s) >= dec_val(s.subrange(0, k)),
    decreases s.len() - k,
{
    if k < s.len() {
        lemma_dec_val_prefix(s, k + 1);
        let p = s.subrange(0, k + 1);
        assert(p.drop_last() =~= s.subrange(0, k));
        lemma_dec_val_nonneg(s.subrange(0, k));
    } else {
        assert(s.subrange(0, k) =~= s);
    }
}

/// The digits a decimal reading consumes: the text after an optional
/// leading plus sign.
pub open spec fn dec_body(s: Seq<char>) -> Seq<char> {
    if s.len() > 0 && s[0] == '+' {
        s.drop_first()
    } else {
        s
    }
}

/// Reads a decimal `u16` as `str::parse::<u16>` reads it: an optional
/// leading `+`, then at least one digit, value within range; rejects
/// everything else.
pub fn parse_u16(s: &str) -> (r: Option<u16>)
    ensures
        match r {
            Some(v) => dec_body(s@).len() > 0 && all_digits(dec_body(s@)) && dec_val(dec_body(s@))
                == v as int,
            None => dec_body(s@).len() == 0 || !all_digits(dec_body(s@)) || dec_val(dec_body(s@))
                > u16::MAX,
        },
{
    let n = s.unicode_len();
    if n == 0 {
        return None;
    }
    let start: usize = if s_getc(s, 0) == '+' {
        1
    } else {
        0
    };
    if start == n {
        return None;
    }
    proof {
        assert(dec_body(s@) =~= s@.subrange(start as int, n as int));
    }
    let mut acc: u32 = 0;
    let mut i: usize = start;
    while i < n
        invariant
            n == s@.len(),
            start <= i <= n,
            start < n,
            dec_body(s@) =~= s@.subrange(start as int, n as int),
            all_digits(s@.subrange(start as int, i as int)),
            acc as int == dec_val(s@.subrange(start as int, i as int)),
            acc <= 0xffff,
        decreases n - i,
    {
        let c = s_getc(s, i);
        let u = c as u32;
        if u < '0' as u32 || u > '9' as u32 {
            proof {
                let body = dec_body(s@);
                assert(body[i - start] == s@[i as int]);
                assert(!is_digit(body[i - start]));
            }
            return None;
        }
        let d = u - '0' as u32;
        let next = acc * 10 + d;
        proof {
            let p = s@.subrange(start as int, i as int + 1);
            assert(p.drop_last() =~= s@.subrange(start as int, i as int));
            assert(dec_val(p) == next as int);
        }
        if next > 0xffff {
            proof {
                let body = dec_body(s@);
                if all_digits(body) {
                    lemma_dec_val_prefix(body, i as int + 1 - start);
                    assert(body.subrange(0, i as int + 1 - start) =~= s@.subrange(
                        start as int,
                        i as int + 1,
                    ));
                }
            }
            return None;
        }
        acc = next;
        i = i + 1;
    }
    Some(acc as u16)
}

/// `parts` glued together with single spaces, as `[str]::join(" ")` glues.
pub open spec fn join_spaces(parts: Seq<Seq<char>>) -> Seq<char>
    decreases parts.len(),
{
    if parts.len() == 0 {
        Seq::empty()
    } else if parts.len() == 1 {
        parts[0]
    } else {
        parts[0] + seq![' '] + join_spaces(parts.drop_first())
    }
}

/// Joining one more part appends a space and the part.
pub proof fn lemma_join_spaces_push(parts: Seq<Seq<char>>, x: Seq<char>)
    ensures
        parts.len() == 0 ==> join_spaces(parts.push(x)) == x,
        parts.len() > 0 ==> join_spaces(parts.push(x)) == join_spaces(parts) + seq![' '] + x,
    decreases parts.len(),
{
    if parts.len() == 0 {
        assert(join_spaces(parts.push(x)) =~= x);
    } else if parts.len() == 1 {
        assert(parts.push(x).drop_first() =~= seq![x]);
        assert(join_spaces(seq![x]) == seq![x][0]);
        assert(parts.push(x)[0] == parts[0]);
        assert(join_spaces(parts.push(x)) =~= join_spaces(parts) + seq![' '] + x);
    } else {
        lemma_join_spaces_push(parts.drop_first(), x);
        assert(parts.push(x).drop_first() =~= parts.drop_first().push(x));
        assert(join_spaces(parts.push(x)) =~= join_spaces(parts) + seq![' '] + x);
    }
}

/// Joins `parts` with single spaces.
pub fn join_with_spaces(parts: &Vec<String>) -> (r: String)
    ensures
        r@ == join_spaces(parts.deep_view()),
{
    let mut r = String::new();
    let mut i: usize = 0;
    proof {
        reveal_strlit(" ");
    }
    while i < parts.len()
        invariant
            i <= parts.len(),
            r@ == join_spaces(parts.deep_view().subrange(0, i as int)),
        decreases parts.len() - i,
    {
        proof {
            reveal_strlit(" ");
            let dv = parts.deep_view();
            assert(dv.subrange(0, i as int + 1) =~= dv.subrange(0, i as int).push(dv[i as int]));
            lemma_join_spaces_push(dv.subrange(0, i as int), dv[i as int]);
        }
        if i > 0 {
            r.append(" ");
        }
        r.append(parts[i].as_str());
        i = i + 1;
    }
    proof {
        assert(parts.deep_view().subrange(0, parts.len() as int) =~= parts.deep_view());
    }
    r
}

/// Whether the hostname pattern `c[1-3](r\d{1,2})?(s\d{1,2})?` matches
/// somewhere in `s`. Both trailing groups are optional, so a match exists
/// exactly where a `c` is followed by one of `1`, `2`, `3`.
pub open spec fn contains_hostname(s: Seq<char>) -> bool {
    exists|i: int| 0 <= i && i + 1 < s.len() && s[i] == 'c' && #[trigger] is_host_digit(s[i + 1])
}

/// The digits the hostname pattern accepts right after `c`.
pub open spec fn is_host_digit(c: char) -> bool {
    c == '1' || c == '2' || c == '3'
}

/// Searches `raw_text` for a match of the hostname pattern.
pub fn check_hostname(raw_text: &str) -> (r: bool)
    ensures
        r == contains_hostname(raw_text@),
{
    let n = raw_text.unicode_len();
    if n < 2 {
        return false;
    }
    let mut i: usize = 0;
    while i + 1 < n
        invariant
            n == raw_text@.len(),
            i + 1 <= n,
            forall|k: int| 0 <= k < i ==> !(raw_text@[k] == 'c' && #[trigger] is_host_digit(raw_text@[k + 1])),
        decreases n - i,
    {
        let c0 = s_getc(raw_text, i);
        let c1 = s_getc(raw_text, i + 1);
        if c0 == 'c' && (c1 == '1' || c1 == '2' || c1 == '3') {
            proof {
                assert(is_host_digit(raw_text@[i as int + 1]));
            }
            return true;
        }
        i = i + 1;
    }
    false
}

} // verus!
