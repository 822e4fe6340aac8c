//! Text helpers shared by the diagnostics: whitespace tests, decimal
//! rendering, joining, and the debug quoting of strings.

use vstd::prelude::*;

verus! {

broadcast use vstd::string::group_string_axioms;

/// The Unicode `White_Space` property, which `str::trim` strips.
pub open spec fn is_white_space(c: char) -> bool {
    let u = c as u32;
    ||| 9 <= u <= 13
    ||| u == 32
    ||| u == 0x85
    ||| u == 0xa0
    ||| u == 0x1680
    ||| 0x2000 <= u <= 0x200a
    ||| u == 0x2028
    ||| u == 0x2029
    ||| u == 0x202f
    ||| u == 0x205f
    ||| u == 0x3000
}

/// A text is blank when trimming its whitespace leaves nothing.
pub open spec fn is_blank_text(s: Seq<char>) -> bool {
    forall|i: int| 0 <= i < s.len() ==> is_white_space(#[trigger] s[i])
}

pub fn white_space(c: char) -> (r: bool)
    ensures
        r == is_white_space(c),
{
    let u = c as u32;
    (9 <= u && u <= 13) || u == 32 || u == 0x85 || u == 0xa0 || u == 0x1680 || (0x2000 <= u && u
        <= 0x200a) || u == 0x2028 || u == 0x2029 || u == 0x202f || u == 0x205f || u == 0x3000
}

/// Whether `value.trim().is_empty()` holds.
pub fn is_blank(value: &str) -> (r: bool)
    ensures
        r == is_blank_text(value@),
{
    let mut blank = true;
    for c in it: value.chars()
        invariant
            it.seq() == value@,
            blank == (forall|i: int| 0 <= i < it.index() ==> is_white_space(#[trigger] value@[i])),
    {
        if !white_space(c) {
            blank = false;
        }
    }
    blank
}


/// The decimal digit `d` as text.
pub open spec fn digit_text(d: nat) -> Seq<char> {
    if d == 0 {
        "0"@
    } else if d == 1 {
        "1"@
    } else if d == 2 {
        "2"@
    } else if d == 3 {
        "3"@
    } else if d == 4 {
        "4"@
    } else if d == 5 {
        "5"@
    } else if d == 6 {
        "6"@
    } else if d == 7 {
        "7"@
    } else if d == 8 {
        "8"@
    } else {
        "9"@
    }
}

/// The decimal rendering of `n`, as `Display` writes an unsigned integer.
pub open spec fn decimal(n: nat) -> Seq<char>
    decreases n,
{
    if n < 10 {
        digit_text(n)
    } else {
        decimal(n / 10) + digit_text(n % 10)
    }
}

fn digit_literal(d: u64) -> (s: &'static str)
    requires
        d < 10,
    ensures
        s@ == digit_text(d as nat),
{
    if d == 0 {
        "0"
    } else if d == 1 {
        "1"
    } else if d == 2 {
        "2"
    } else if d == 3 {
        "3"
    } else if d == 4 {
        "4"
    } else if d == 5 {
        "5"
    } else if d == 6 {
        "6"
    } else if d == 7 {
        "7"
    } else if d == 8 {
        "8"
    } else {
        "9"
    }
}

/// Appends the decimal rendering of `n` to `out`.
pub fn push_decimal(out: &mut String, n: u64)
    ensures
        final(out)@ == old(out)@ + decimal(n as nat),
    decreases n,
{
    if n >= 10 {
        push_decimal(out, n / 10);
    }
    out.append(digit_literal(n % 10));
    proof {
        if n >= 10 {
            assert(decimal(n as nat) == decimal((n / 10) as nat) + digit_text((n % 10) as nat));
        }
    }
}

/// `items` joined with `sep` between neighbours.
pub open spec fn joined(items: Seq<Seq<char>>, sep: Seq<char>) -> Seq<char>
    decreases items.len(),
{
    if items.len() == 0 {
        Seq::empty()
    } else if items.len() == 1 {
        items[0]
    } else {
        joined(items.drop_last(), sep) + sep + items.last()
    }
}

/// `items.join(sep)`.
pub fn join(items: &[String], sep: &str) -> (r: String)
    ensures
        r@ == joined(texts(items@), sep@),
{
    let ghost all = texts(items@);
    let mut out = String::new();
    let mut i: usize = 0;
    while i < items.len()
        invariant
            i <= items.len(),
            all == texts(items@),
            out@ == joined(all.take(i as int), sep@),
        decreases items.len() - i,
    {
        if i > 0 {
            out.append(sep);
        }
        out.append(items[i].as_str());
        proof {
            assert(all.take(i + 1).drop_last() =~= all.take(i as int));
        }
        i = i + 1;
    }
    proof {
        assert(all.take(items.len() as int) =~= all);
    }
    out
}

/// Whether two texts are equal.
pub fn same_text(a: &str, b: &str) -> (r: bool)
    ensures
        r == (a@ == b@),
{
    let x = a.to_string();
    let y = b.to_string();
    x == y
}

/// What `{:?}` writes for a string: the text quoted, with its special
/// characters escaped.
pub uninterp spec fn debug_text(s: Seq<char>) -> Seq<char>;

/// Renders `value` with `{:?}` (std's `Debug` for `str`); the rendering is
/// named by `debug_text` and is not spelled out here.
#[verifier::external_body]
pub fn debug_quoted(value: &str) -> (r: String)
    ensures
        r@ == debug_text(value@),
{
    format!("{value:?}")
}

/// What `{:?}` writes for a list of strings: each string as `{:?}` writes
/// it, separated by `, ` and enclosed in brackets.
pub open spec fn debug_text_list(items: Seq<Seq<char>>) -> Seq<char> {
    "["@ + joined(items.map_values(|item: Seq<char>| debug_text(item)), ", "@) + "]"@
}

/// Renders `items` as `{:?}` renders a slice of strings.
pub fn debug_quoted_list(items: &[String]) -> (r: String)
    ensures
        r@ == debug_text_list(texts(items@)),
{
    let ghost all = texts(items@).map_values(|item: Seq<char>| debug_text(item));
    let mut body = String::new();
    let mut i: usize = 0;
    while i < items.len()
        invariant
            i <= items.len(),
            all == texts(items@).map_values(|item: Seq<char>| debug_text(item)),
            body@ == joined(all.take(i as int), ", "@),
        decreases items.len() - i,
    {
        if i > 0 {
            body.append(", ");
        }
        let quoted = debug_quoted(items[i].as_str());
        body.append(quoted.as_str());
        proof {
            assert(all.take(i + 1).drop_last() =~= all.take(i as int));
        }
        i = i + 1;
    }
    proof {
        assert(all.take(items.len() as int) =~= all);
    }
    let mut out = owned("[");
    out.append(body.as_str());
    out.append("]");
    out
}


/// The texts of a list of strings.
pub open spec fn texts(items: Seq<String>) -> Seq<Seq<char>> {
    items.map_values(|s: String| s@)
}

/// The text of an optional string.
pub open spec fn opt_text(value: Option<String>) -> Option<Seq<char>> {
    match value {
        Some(s) => Some(s@),
        None => None,
    }
}

/// An owned copy of `value`.
pub fn owned(value: &str) -> (r: String)
    ensures
        r@ == value@,
{
    value.to_string()
}

/// An owned copy of a list of strings.
pub fn copy_texts(items: &[String]) -> (r: Vec<String>)
    ensures
        texts(r@) == texts(items@),
        r@.len() == items@.len(),
{
    let mut out: Vec<String> = Vec::new();
    let mut i: usize = 0;
    while i < items.len()
        invariant
            i <= items.len(),
            out@.len() == i,
            forall|j: int| 0 <= j < i ==> #[trigger] out@[j]@ == items@[j]@,
        decreases items.len() - i,
    {
        out.push(items[i].clone());
        i = i + 1;
    }
    assert(texts(out@) =~= texts(items@));
    out
}

/// An owned copy of an optional string.
pub fn copy_opt_text(value: &Option<String>) -> (r: Option<String>)
    ensures
        opt_text(r) == opt_text(*value),
{
    match value {
        Some(s) => Some(s.clone()),
        None => None,
    }
}

/// Whether two lists of strings hold the same texts in the same order.
pub fn same_texts(a: &[String], b: &[String]) -> (r: bool)
    ensures
        r == (texts(a@) == texts(b@)),
{
    if a.len() != b.len() {
        proof {
            assert(texts(a@).len() != texts(b@).len());
        }
        return false;
    }
    let mut i: usize = 0;
    while i < a.len()
        invariant
            i <= a.len(),
            a.len() == b.len(),
            forall|j: int| 0 <= j < i ==> #[trigger] a@[j]@ == b@[j]@,
        decreases a.len() - i,
    {
        if a[i] != b[i] {
            proof {
                assert(texts(a@)[i as int] != texts(b@)[i as int]);
            }
            return false;
        }
        i = i + 1;
    }
    assert(texts(a@) =~= texts(b@));
    true
}

} // verus!
