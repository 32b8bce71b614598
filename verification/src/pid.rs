//! Reading and writing the process id kept in the PID file.

use vstd::prelude::*;

verus! {

/// `char::is_whitespace`: the characters with the Unicode `White_Space` property.
pub open spec fn is_unicode_whitespace(c: char) -> bool {
    ||| ('\u{9}' <= c && c <= '\u{d}')
    ||| c == ' '
    ||| c == '\u{85}'
    ||| c == '\u{a0}'
    ||| c == '\u{1680}'
    ||| ('\u{2000}' <= c && c <= '\u{200a}')
    ||| c == '\u{2028}'
    ||| c == '\u{2029}'
    ||| c == '\u{202f}'
    ||| c == '\u{205f}'
    ||| c == '\u{3000}'
}

/// The text without its leading whitespace.
pub open spec fn trim_start(s: Seq<char>) -> Seq<char>
    decreases s.len(),
{
    if s.len() > 0 && is_unicode_whitespace(s[0]) {
        trim_start(s.drop_first())
    } else {
        s
    }
}

/// The text without its trailing whitespace.
pub open spec fn trim_end(s: Seq<char>) -> Seq<char>
    decreases s.len(),
{
    if s.len() > 0 && is_unicode_whitespace(s.last()) {
        trim_end(s.drop_last())
    } else {
        s
    }
}

/// The text without whitespace at either end (`str::trim`).
pub open spec fn trim(s: Seq<char>) -> Seq<char> {
    trim_end(trim_start(s))
}

pub open spec fn is_ascii_digit(c: char) -> bool {
    '0' <= c && c <= '9'
}

pub open spec fn digit_value(c: char) -> nat {
    (c as int - '0' as int) as nat
}

pub open spec fn all_digits(s: Seq<char>) -> bool {
    forall|i: int| 0 <= i < s.len() ==> is_ascii_digit(#[trigger] s[i])
}

/// The number that a string of decimal digits denotes, most significant first.
pub open spec fn decimal_value(s: Seq<char>) -> nat
    decreases s.len(),
{
    if s.len() == 0 {
        0
    } else {
        decimal_value(s.drop_last()) * 10 + digit_value(s.last())
    }
}

/// What `str::parse::<u32>` accepts: an optional `+`, then one or more decimal
/// digits whose value fits in 32 bits.
pub open spec fn parse_u32_text(s: Seq<char>) -> Option<u32> {
    let body = if s.len() > 0 && s[0] == '+' { s.drop_first() } else { s };
    if body.len() > 0 && all_digits(body) && decimal_value(body) <= u32::MAX {
        Some(decimal_value(body) as u32)
    } else {
        None
    }
}

/// The process id that the content of a PID file names, if it names one.
pub open spec fn pid_in_text(content: Seq<char>) -> Option<u32> {
    parse_u32_text(trim(content))
}

proof fn lemma_trim_start_step(s: Seq<char>, i: int)
    requires
        0 <= i < s.len(),
        is_unicode_whitespace(s[i]),
    ensures
        trim_start(s.subrange(i, s.len() as int)) == trim_start(s.subrange(i + 1, s.len() as int)),
{
    assert(s.subrange(i, s.len() as int).drop_first() =~= s.subrange(i + 1, s.len() as int));
}

proof fn lemma_trim_end_step(s: Seq<char>, j: int)
    requires
        0 < j <= s.len(),
        is_unicode_whitespace(s[j - 1]),
    ensures
        trim_end(s.subrange(0, j)) == trim_end(s.subrange(0, j - 1)),
{
    assert(s.subrange(0, j).drop_last() =~= s.subrange(0, j - 1));
}

fn is_whitespace_char(c: char) -> (r: bool)
    ensures
        r == is_unicode_whitespace(c),
{
    ('\u{9}' <= c && c <= '\u{d}') || c == ' ' || c == '\u{85}' || c == '\u{a0}' || c == '\u{1680}'
        || ('\u{2000}' <= c && c <= '\u{200a}') || c == '\u{2028}' || c == '\u{2029}'
        || c == '\u{202f}' || c == '\u{205f}' || c == '\u{3000}'
}

fn chars_of(s: &str) -> (v: Vec<char>)
    ensures
        v@ == s@,
{
    let mut v: Vec<char> = Vec::new();
    for c in it: s.chars()
        invariant
            v@.len() == it.index(),
            forall|k: int| 0 <= k < v@.len() ==> v@[k] == it.seq()[k],
    {
        v.push(c);
    }
    assert(v@ =~= s@);
    v
}


proof fn lemma_decimal_value_push(s: Seq<char>, c: char)
    ensures
        decimal_value(s.push(c)) == decimal_value(s) * 10 + digit_value(c),
{
    assert(s.push(c).drop_last() =~= s);
}

/// The process id named by the content of a PID file: the content with
/// whitespace trimmed at both ends, read as an unsigned 32-bit decimal number
/// (`content.trim().parse::<u32>().ok()`).
pub fn parse_pid(content: &str) -> (r: Option<u32>)
    ensures
        r == pid_in_text(content@),
{
    let v = chars_of(content);
    let n = v.len();
    let ghost s = v@;
    let mut i: usize = 0;
    assert(s.subrange(0, n as int) =~= s);
    while i < n && is_whitespace_char(v[i])
        invariant
            i <= n,
            n == s.len(),
            v@ == s,
            trim_start(s.subrange(i as int, n as int)) == trim_start(s),
        decreases n - i,
    {
        proof { lemma_trim_start_step(s, i as int); }
        i = i + 1;
    }
    let ghost start = s.subrange(i as int, n as int);
    assert(trim_start(s) == start);
    let mut j: usize = n;
    assert(start.subrange(0, (n - i) as int) =~= start);
    while j > i && is_whitespace_char(v[j - 1])
        invariant
            i <= j <= n,
            n == s.len(),
            v@ == s,
            start == s.subrange(i as int, n as int),
            trim_end(start.subrange(0, j - i)) == trim_end(start),
        decreases j - i,
    {
        proof {
            lemma_trim_end_step(start, (j - i) as int);
        }
        j = j - 1;
    }
    let ghost body_all = s.subrange(i as int, j as int);
    assert(body_all =~= start.subrange(0, j - i));
    assert(trim(s) == body_all);
    let mut k: usize = i;
    if i < j && v[i] == '+' {
        k = i + 1;
        assert(body_all.drop_first() =~= s.subrange(k as int, j as int));
    } else {
        assert(body_all =~= s.subrange(k as int, j as int));
    }
    let ghost body = s.subrange(k as int, j as int);
    assert((if body_all.len() > 0 && body_all[0] == '+' { body_all.drop_first() } else { body_all }) == body);
    if k == j {
        return None;
    }
    let mut acc: u64 = 0;
    let mut overflow = false;
    let mut m: usize = k;
    assert(s.subrange(k as int, k as int) =~= Seq::<char>::empty());
    while m < j
        invariant
            k <= m <= j <= n,
            n == s.len(),
            v@ == s,
            body == s.subrange(k as int, j as int),
            pid_in_text(content@) == (if body.len() > 0 && all_digits(body) && decimal_value(body)
                <= u32::MAX {
                Some(decimal_value(body) as u32)
            } else {
                None
            }),
            all_digits(s.subrange(k as int, m as int)),
            !overflow ==> acc == decimal_value(s.subrange(k as int, m as int)) && acc <= u32::MAX,
            overflow ==> decimal_value(s.subrange(k as int, m as int)) > u32::MAX,
        decreases j - m,
    {
        let c = v[m];
        let ghost prefix = s.subrange(k as int, m as int);
        assert(s.subrange(k as int, m + 1) =~= prefix.push(c));
        if !('0' <= c && c <= '9') {
            assert(body[m - k] == c);
            assert(!all_digits(body));
            return None;
        }
        let d = (c as u32 - '0' as u32) as u64;
        proof { lemma_decimal_value_push(prefix, c); }
        if !overflow {
            let next = acc * 10 + d;
            if next > 4294967295u64 {
                overflow = true;
            } else {
                acc = next;
            }
        }
        m = m + 1;
    }
    assert(s.subrange(k as int, m as int) =~= body);
    if overflow {
        None
    } else {
        Some(acc as u32)
    }
}


/// The character of a decimal digit.
pub open spec fn digit_char(d: nat) -> char {
    (d + '0' as int) as char
}

/// The decimal representation of a number, without sign or leading zeros
/// (what `to_string` gives for an unsigned integer).
pub open spec fn decimal_text(n: nat) -> Seq<char>
    decreases n,
{
    if n < 10 {
        seq![digit_char(n)]
    } else {
        decimal_text(n / 10).push(digit_char(n % 10))
    }
}

fn digit_str(d: u32) -> (r: &'static str)
    requires
        d < 10,
    ensures
        r@ == seq![digit_char(d as nat)],
{
    proof {
        reveal_strlit("0");
        reveal_strlit("1");
        reveal_strlit("2");
        reveal_strlit("3");
        reveal_strlit("4");
        reveal_strlit("5");
        reveal_strlit("6");
        reveal_strlit("7");
        reveal_strlit("8");
        reveal_strlit("9");
    }
    match d {
        0 => "0",
        1 => "1",
        2 => "2",
        3 => "3",
        4 => "4",
        5 => "5",
        6 => "6",
        7 => "7",
        8 => "8",
        _ => "9",
    }
}

fn append_decimal(out: &mut String, n: u32)
    ensures
        final(out)@ == old(out)@ + decimal_text(n as nat),
    decreases n,
{
    if n >= 10 {
        append_decimal(out, n / 10);
    }
    out.append(digit_str(n % 10));
    proof {
        if n >= 10 {
            assert(decimal_text(n as nat) == decimal_text((n / 10) as nat).push(digit_char((n % 10) as nat)));
        }
    }
}

/// The content written to the PID file for a process: its id in decimal
/// (`pid.to_string()`).
pub fn pid_text(pid: u32) -> (r: String)
    ensures
        r@ == decimal_text(pid as nat),
{
    let mut out = String::new();
    append_decimal(&mut out, pid);
    assert(out@ =~= decimal_text(pid as nat));
    out
}


proof fn lemma_digit_char(d: nat)
    requires
        d < 10,
    ensures
        is_ascii_digit(digit_char(d)),
        digit_value(digit_char(d)) == d,
        !is_unicode_whitespace(digit_char(d)),
        digit_char(d) != '+',
{
}

proof fn lemma_decimal_text(n: nat)
    ensures
        decimal_text(n).len() > 0,
        all_digits(decimal_text(n)),
        decimal_value(decimal_text(n)) == n,
    decreases n,
{
    if n < 10 {
        lemma_digit_char(n);
        assert(seq![digit_char(n)].drop_last() =~= Seq::<char>::empty());
        assert(decimal_value(seq![digit_char(n)]) == decimal_value(Seq::<char>::empty()) * 10
            + digit_value(digit_char(n)));
    } else {
        assert((n / 10) * 10 + n % 10 == n) by (nonlinear_arith);
        lemma_decimal_text(n / 10);
        lemma_digit_char(n % 10);
        lemma_decimal_value_push(decimal_text(n / 10), digit_char(n % 10));
    }
}

/// What a process writes to the PID file is read back as its own id: the
/// content that `pid_text` produces names exactly `pid` to `parse_pid`.
pub proof fn lemma_pid_text_round_trip(pid: u32)
    ensures
        pid_in_text(decimal_text(pid as nat)) == Some(pid),
{
    let t = decimal_text(pid as nat);
    lemma_decimal_text(pid as nat);
    assert(is_ascii_digit(t[0]));
    assert(is_ascii_digit(t.last()));
    assert(trim_start(t) == t);
    assert(trim_end(t) == t);
}


proof fn lemma_decimal_text_first(n: nat)
    ensures
        decimal_text(n)[0] == digit_char(if n < 10 { n } else { decimal_text_lead(n) }),
        n > 0 ==> decimal_text(n)[0] != '0',
    decreases n,
{
    if n >= 10 {
        lemma_decimal_text(n / 10);
        lemma_decimal_text_first(n / 10);
    }
}

/// The leading digit of a number.
spec fn decimal_text_lead(n: nat) -> nat
    decreases n,
{
    if n < 10 {
        n
    } else {
        decimal_text_lead(n / 10)
    }
}

/// The text written for a process id is its canonical decimal form: one or
/// more ASCII digits denoting exactly the id, with no leading zero except for
/// the id 0 itself, which is written "0".
pub proof fn law_pid_text_canonical(pid: u32)
    ensures
        decimal_text(pid as nat).len() > 0,
        all_digits(decimal_text(pid as nat)),
        decimal_value(decimal_text(pid as nat)) == pid,
        pid == 0 ==> decimal_text(pid as nat) == seq!['0'],
        pid > 0 ==> decimal_text(pid as nat)[0] != '0',
{
    lemma_decimal_text(pid as nat);
    lemma_decimal_text_first(pid as nat);
    if pid == 0 {
        assert(decimal_text(0) =~= seq!['0']);
    }
}

} // verus!
