use vstd::prelude::*;

use vstd::string::StrSliceExecFns;
use vstd::string::StringExecFns;

use crate::ids::SpanId;

verus! {

/// The character for one decimal digit.
pub open spec fn digit_char(d: nat) -> char {
    if d == 0 {
        '0'
    } else if d == 1 {
        '1'
    } else if d == 2 {
        '2'
    } else if d == 3 {
        '3'
    } else if d == 4 {
        '4'
    } else if d == 5 {
        '5'
    } else if d == 6 {
        '6'
    } else if d == 7 {
        '7'
    } else if d == 8 {
        '8'
    } else {
        '9'
    }
}

/// The decimal rendering of a natural number, most significant digit
/// first, with no leading zeros (a single zero renders as "0").
pub open spec fn dec_digits(n: nat) -> Seq<char>
    decreases n,
{
    if n < 10 {
        seq![digit_char(n)]
    } else {
        dec_digits(n / 10).push(digit_char(n % 10))
    }
}

/// The decimal rendering of an integer: a leading minus sign for negative
/// values, then the magnitude's digits.
pub open spec fn dec_int(i: int) -> Seq<char> {
    if i < 0 {
        seq!['-'] + dec_digits((-i) as nat)
    } else {
        dec_digits(i as nat)
    }
}

fn digit_str(d: u64) -> (r: &'static str)
    requires
        d < 10,
    ensures
        r@ == seq![digit_char(d as nat)],
{
    proof {
        reveal_strlit("0");
        reveal_strlit("1");
        reveal_strlit("2");
        reveal_strlit("3");
        reveal_strlit("4");
        reveal_strlit("5");
        reveal_strlit("6");
        reveal_strlit("7");
        reveal_strlit("8");
        reveal_strlit("9");
    }
    let r = match d {
        0 => "0",
        1 => "1",
        2 => "2",
        3 => "3",
        4 => "4",
        5 => "5",
        6 => "6",
        7 => "7",
        8 => "8",
        _ => "9",
    };
    proof {
        assert(r@ =~= seq![digit_char(d as nat)]);
    }
    r
}

/// Renders a natural number in decimal.
pub fn u64_to_dec(n: u64) -> (r: String)
    ensures
        r@ == dec_digits(n as nat),
    decreases n,
{
    if n < 10 {
        String::from_str(digit_str(n))
    } else {
        let mut s = u64_to_dec(n / 10);
        s.append(digit_str(n % 10));
        proof {
            assert(s@ =~= dec_digits(n as nat));
        }
        s
    }
}

/// Renders a signed integer in decimal.
pub fn i64_to_dec(n: i64) -> (r: String)
    ensures
        r@ == dec_int(n as int),
{
    if n >= 0 {
        u64_to_dec(n as u64)
    } else {
        let mag: u64 = ((-(n + 1)) as u64) + 1;
        proof {
            assert(mag as int == -(n as int));
        }
        let mut s = String::from_str("-");
        let digits = u64_to_dec(mag);
        s.append(digits.as_str());
        proof {
            reveal_strlit("-");
            assert(s@ =~= dec_int(n as int));
        }
        s
    }
}

/// Whether a line break occurs anywhere in the text.
pub open spec fn contains_newline(s: Seq<char>) -> bool {
    exists|i: int| 0 <= i < s.len() && s[i] == '\n'
}

/// Scans a string for a line break.
pub fn str_has_newline(s: &str) -> (r: bool)
    ensures
        r == contains_newline(s@),
{
    let n = s.unicode_len();
    let mut i: usize = 0;
    while i < n
        invariant
            n == s@.len(),
            0 <= i <= n,
            forall|j: int| 0 <= j < i ==> s@[j] != '\n',
        decreases n - i,
    {
        if s.get_char(i) == '\n' {
            return true;
        }
        i += 1;
    }
    false
}

/// The text standing for an optional parent identifier in a record line.
pub open spec fn parent_text(p: Option<SpanId>) -> Seq<char> {
    match p {
        Option::None => "none"@,
        Option::Some(s) => dec_digits(s.raw as nat),
    }
}

/// Renders an optional parent identifier.
pub fn render_parent(p: Option<SpanId>) -> (r: String)
    ensures
        r@ == parent_text(p),
{
    match p {
        None => String::from_str("none"),
        Some(s) => u64_to_dec(s.raw),
    }
}

/// The header line of a span-creation record:
/// `new_span [<id>] <name>, parent: <parent>`.
pub open spec fn span_header_text(id: SpanId, name: Seq<char>, parent: Option<SpanId>) -> Seq<
    char,
> {
    "new_span ["@ + dec_digits(id.raw as nat) + "] "@ + name + ", parent: "@ + parent_text(parent)
}

/// Renders the header line of a span-creation record.
pub fn render_span_header(id: SpanId, name: &str, parent: Option<SpanId>) -> (r: String)
    ensures
        r@ == span_header_text(id, name@, parent),
{
    let mut s = String::from_str("new_span [");
    let id_digits = u64_to_dec(id.raw);
    s.append(id_digits.as_str());
    s.append("] ");
    s.append(name);
    s.append(", parent: ");
    let ptext = render_parent(parent);
    s.append(ptext.as_str());
    proof {
        assert(s@ =~= span_header_text(id, name@, parent));
    }
    s
}

/// The header line of a field-update record: `on_record [<id>]`.
pub open spec fn record_header_text(id: SpanId) -> Seq<char> {
    "on_record ["@ + dec_digits(id.raw as nat) + "]"@
}

/// Renders the header line of a field-update record.
pub fn render_record_header(id: SpanId) -> (r: String)
    ensures
        r@ == record_header_text(id),
{
    let mut s = String::from_str("on_record [");
    let id_digits = u64_to_dec(id.raw);
    s.append(id_digits.as_str());
    s.append("]");
    proof {
        assert(s@ =~= record_header_text(id));
    }
    s
}

/// The header line of an event record: `event <name>, parent: <parent>`.
pub open spec fn event_header_text(name: Seq<char>, parent: Option<SpanId>) -> Seq<char> {
    "event "@ + name + ", parent: "@ + parent_text(parent)
}

/// Renders the header line of an event record.
pub fn render_event_header(name: &str, parent: Option<SpanId>) -> (r: String)
    ensures
        r@ == event_header_text(name@, parent),
{
    let mut s = String::from_str("event ");
    s.append(name);
    s.append(", parent: ");
    let ptext = render_parent(parent);
    s.append(ptext.as_str());
    proof {
        assert(s@ =~= event_header_text(name@, parent));
    }
    s
}

/// The line of a causal-link record: `follows_from [<id>] -> [<target>]`.
pub open spec fn link_text(id: SpanId, follows: SpanId) -> Seq<char> {
    "follows_from ["@ + dec_digits(id.raw as nat) + "] -> ["@ + dec_digits(follows.raw as nat)
        + "]"@
}

/// Renders the line of a causal-link record.
pub fn render_link(id: SpanId, follows: SpanId) -> (r: String)
    ensures
        r@ == link_text(id, follows),
{
    let mut s = String::from_str("follows_from [");
    let id_digits = u64_to_dec(id.raw);
    s.append(id_digits.as_str());
    s.append("] -> [");
    let follows_digits = u64_to_dec(follows.raw);
    s.append(follows_digits.as_str());
    s.append("]");
    proof {
        assert(s@ =~= link_text(id, follows));
    }
    s
}

} // verus!
