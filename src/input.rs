use vstd::prelude::*;
use vstd::string::*;

verus! {

/// What `str::trim` leaves of a text: the text without its leading and
/// trailing white space.
pub uninterp spec fn trimmed(s: Seq<char>) -> Seq<char>;

/// What `str::to_lowercase` makes of a text.
pub uninterp spec fn lowercased(s: Seq<char>) -> Seq<char>;

/// Relies on `str::trim`: the slice of `s` without leading and trailing
/// white space, which depends on the characters of `s` alone.
#[verifier::external_body]
fn trim_text<'a>(s: &'a str) -> (r: &'a str)
    ensures
        r@ == trimmed(s@),
{
    s.trim()
}

/// Relies on `str::to_lowercase`: the lowercase form of `s`, which depends
/// on the characters of `s` alone.
#[verifier::external_body]
fn lowercase_text(s: &str) -> (r: String)
    ensures
        r@ == lowercased(s@),
{
    s.to_lowercase()
}

pub open spec fn is_digit(c: char) -> bool {
    '0' <= c <= '9'
}

pub open spec fn all_digits(s: Seq<char>) -> bool {
    forall|i: int| 0 <= i < s.len() ==> is_digit(#[trigger] s[i])
}

/// The number that a sequence of decimal digits writes, most significant first.
pub open spec fn digits_value(s: Seq<char>) -> nat
    decreases s.len(),
{
    if s.len() == 0 {
        0
    } else {
        digits_value(s.drop_last()) * 10 + (s.last() as nat - '0' as nat) as nat
    }
}

/// The digits of a number as `usize::from_str` reads it: an optional `+`
/// and then the digits.
pub open spec fn unsigned_digits(s: Seq<char>) -> Seq<char> {
    if s.len() > 0 && s[0] == '+' {
        s.skip(1)
    } else {
        s
    }
}

/// The `usize` a text denotes: one or more decimal digits after an optional
/// `+`, whose value fits in a `usize`.
pub open spec fn parsed_number(s: Seq<char>) -> Option<usize> {
    let d = unsigned_digits(s);
    if d.len() > 0 && all_digits(d) && digits_value(d) <= usize::MAX {
        Some(digits_value(d) as usize)
    } else {
        None
    }
}

/// A character's code with the ASCII capitals moved to lower case.
pub open spec fn ascii_folded(c: char) -> u32 {
    if 'A' <= c <= 'Z' {
        (c as u32 + 32) as u32
    } else {
        c as u32
    }
}

/// The texts are equal once ASCII capitals are taken as lower case.
pub open spec fn same_ignoring_ascii_case(a: Seq<char>, b: Seq<char>) -> bool {
    &&& a.len() == b.len()
    &&& forall|i: int| 0 <= i < a.len() ==> ascii_folded(#[trigger] a[i]) == ascii_folded(b[i])
}

/// An answer to a yes/no question.
#[derive(Debug, PartialEq, Eq, Structural, Clone, Copy)]
pub enum Answer {
    Yes,
    No,
    Unclear,
}

/// An empty answer counts as yes; "y" and "yes" are yes and "n" and "no" are
/// no, in any ASCII case; anything else is unclear.
pub open spec fn answer_of(s: Seq<char>) -> Answer {
    if s.len() == 0 || same_ignoring_ascii_case(s, "y"@) || same_ignoring_ascii_case(s, "yes"@) {
        Answer::Yes
    } else if same_ignoring_ascii_case(s, "n"@) || same_ignoring_ascii_case(s, "no"@) {
        Answer::No
    } else {
        Answer::Unclear
    }
}

/// The ways to play.
#[derive(Debug, PartialEq, Eq, Structural, Clone, Copy)]
pub enum Mode {
    /// Two players at one terminal.
    Local,
    /// Wait for a peer to connect, and play X.
    Host,
    /// Connect to a peer, and play O.
    Join,
}

/// The mode a menu choice selects.
pub open spec fn mode_of(s: Seq<char>) -> Option<Mode> {
    if s == "1"@ || s == "l"@ || s == "local"@ {
        Some(Mode::Local)
    } else if s == "2"@ || s == "h"@ || s == "host"@ {
        Some(Mode::Host)
    } else if s == "3"@ || s == "j"@ || s == "join"@ {
        Some(Mode::Join)
    } else {
        None
    }
}

/// A prefix of digits never writes more than the whole.
proof fn lemma_prefix_value(s: Seq<char>, k: int)
    requires
        0 <= k <= s.len(),
        all_digits(s),
    ensures
        digits_value(s.take(k)) <= digits_value(s),
    decreases s.len(),
{
    if k < s.len() {
        assert(s.take(k) =~= s.drop_last().take(k));
        lemma_prefix_value(s.drop_last(), k);
    } else {
        assert(s.take(k) =~= s);
    }
}

/// Reads `s` as a `usize` the way `usize::from_str` does.
pub fn parse_number(s: &str) -> (r: Option<usize>)
    ensures
        r == parsed_number(s@),
{
    let n = s.unicode_len();
    let mut start: usize = 0;
    if n > 0 && s.get_char(0) == '+' {
        start = 1;
    }
    let ghost d = unsigned_digits(s@);
    assert(d =~= s@.subrange(start as int, n as int));
    if start == n {
        return None;
    }
    let mut i: usize = start;
    let mut v: usize = 0;
    while i < n
        invariant
            start <= i <= n,
            n == s@.len(),
            d == s@.subrange(start as int, n as int),
            d == unsigned_digits(s@),
            all_digits(d.take(i - start)),
            v == digits_value(d.take(i - start)),
        decreases n - i,
    {
        let c = s.get_char(i);
        assert(d[i - start] == c);
        if c < '0' || c > '9' {
            assert(!is_digit(d[i - start]));
            return None;
        }
        let digit = (c as u32 - '0' as u32) as usize;
        let ghost next = d.take(i - start + 1);
        assert(next.drop_last() =~= d.take(i - start));
        assert(next.last() == c);
        match v.checked_mul(10) {
            None => {
                proof {
                    if all_digits(d) {
                        lemma_prefix_value(d, i - start + 1);
                    }
                }
                return None;
            },
            Some(tens) => match tens.checked_add(digit) {
                None => {
                    proof {
                        if all_digits(d) {
                            lemma_prefix_value(d, i - start + 1);
                        }
                    }
                    return None;
                },
                Some(w) => {
                    v = w;
                },
            },
        }
        i += 1;
    }
    assert(d.take(i - start) =~= d);
    Some(v)
}

/// Whether `a` and `b` match when ASCII capitals are taken as lower case,
/// as `str::eq_ignore_ascii_case` decides.
pub fn eq_ignore_ascii_case(a: &str, b: &str) -> (r: bool)
    ensures
        r == same_ignoring_ascii_case(a@, b@),
{
    let n = a.unicode_len();
    if n != b.unicode_len() {
        return false;
    }
    let mut i: usize = 0;
    while i < n
        invariant
            i <= n,
            n == a@.len(),
            n == b@.len(),
            forall|j: int| 0 <= j < i ==> ascii_folded(#[trigger] a@[j]) == ascii_folded(b@[j]),
        decreases n - i,
    {
        if fold_ascii(a.get_char(i)) != fold_ascii(b.get_char(i)) {
            return false;
        }
        i += 1;
    }
    true
}

fn fold_ascii(c: char) -> (r: u32)
    ensures
        r == ascii_folded(c),
{
    if 'A' <= c && c <= 'Z' {
        c as u32 + 32
    } else {
        c as u32
    }
}

/// Whether `a` and `b` hold the same characters.
pub fn same_text(a: &str, b: &str) -> (r: bool)
    ensures
        r == (a@ == b@),
{
    let n = a.unicode_len();
    if n != b.unicode_len() {
        return false;
    }
    let mut i: usize = 0;
    while i < n
        invariant
            i <= n,
            n == a@.len(),
            n == b@.len(),
            forall|j: int| 0 <= j < i ==> #[trigger] a@[j] == b@[j],
        decreases n - i,
    {
        if a.get_char(i) != b.get_char(i) {
            assert(a@[i as int] != b@[i as int]);
            return false;
        }
        i += 1;
    }
    assert(a@ =~= b@);
    true
}

/// Classifies an answer to a yes/no question.
pub fn read_answer(s: &str) -> (r: Answer)
    ensures
        r == answer_of(s@),
{
    if s.unicode_len() == 0 || eq_ignore_ascii_case(s, "y") || eq_ignore_ascii_case(s, "yes") {
        Answer::Yes
    } else if eq_ignore_ascii_case(s, "n") || eq_ignore_ascii_case(s, "no") {
        Answer::No
    } else {
        Answer::Unclear
    }
}

impl Mode {
    /// The mode a lowercase menu choice selects.
    pub fn from_choice(s: &str) -> (r: Option<Mode>)
        ensures
            r == mode_of(s@),
    {
        if same_text(s, "1") || same_text(s, "l") || same_text(s, "local") {
            Some(Mode::Local)
        } else if same_text(s, "2") || same_text(s, "h") || same_text(s, "host") {
            Some(Mode::Host)
        } else if same_text(s, "3") || same_text(s, "j") || same_text(s, "join") {
            Some(Mode::Join)
        } else {
            None
        }
    }
}

/// The mode a menu line selects, read without surrounding white space and
/// in lower case.
pub fn choose_mode(line: &str) -> (r: Option<Mode>)
    ensures
        r == mode_of(lowercased(trimmed(line@))),
{
    let t = trim_text(line);
    let lower = lowercase_text(t);
    Mode::from_choice(lower.as_str())
}

/// A line with its surrounding white space taken off.
pub fn trim_line<'a>(line: &'a str) -> (r: &'a str)
    ensures
        r@ == trimmed(line@),
{
    trim_text(line)
}

} // verus!
