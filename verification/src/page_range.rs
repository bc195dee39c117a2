//! The page-range selector of an export: a comma-separated list of page
//! numbers and ranges, such as `1-3,5,7-9`.
//!
//! Pages are numbered from 1 and ranges include both ends. Each token is
//! checked against the page count of the document; the first token that
//! fails ends the parse. Tokens stay in the order given: nothing is merged,
//! sorted or deduplicated.

use crate::text::{decimal, push_decimal};
use vstd::prelude::*;
use vstd::std_specs::iter::IteratorSpec;
use vstd::string::{StrSliceExecFns, StringExecFns};

verus! {

/// A range of pages, both ends included, numbered from 1.
#[derive(Debug, Clone, Copy, PartialEq, Eq, Structural)]
pub struct PageRange {
    pub start: usize,
    pub end: usize,
}

/// What is wrong with a token of a selector.
#[derive(Debug, Clone, Copy, PartialEq, Eq, Structural)]
pub enum Violation {
    /// The token is neither a page number nor two page numbers around a `-`.
    Malformed,
    /// A page number is 0 or greater than the page count.
    OutOfBounds,
    /// The range starts after it ends.
    Reversed,
}

/// A selector that was refused, with the offending token.
#[derive(Debug, PartialEq, Eq)]
pub struct PageRangeError {
    pub violation: Violation,
    /// The offending token, without the white space around it.
    pub token: String,
    /// The page count that the selector was checked against.
    pub total: usize,
}

/// What is said of a refused selector: the violation, with the offending
/// token between backticks.
pub open spec fn refusal_text(violation: Violation, token: Seq<char>, total: nat) -> Seq<char> {
    match violation {
        Violation::Malformed => "invalid page range `"@ + token + "`"@,
        Violation::OutOfBounds => "page range `"@ + token
            + "` is out of bounds: the document has "@ + decimal(total) + " pages"@,
        Violation::Reversed => "page range `"@ + token + "` starts after it ends"@,
    }
}

impl PageRangeError {
    /// Says what is wrong, naming the offending token.
    pub fn message(&self) -> (text: String)
        ensures
            text@ == refusal_text(self.violation, self.token@, self.total as nat),
    {
        match self.violation {
            Violation::Malformed => {
                let mut text = "invalid page range `".to_owned();
                text.append(self.token.as_str());
                text.append("`");
                text
            },
            Violation::OutOfBounds => {
                let mut text = "page range `".to_owned();
                text.append(self.token.as_str());
                text.append("` is out of bounds: the document has ");
                push_decimal(&mut text, self.total);
                text.append(" pages");
                text
            },
            Violation::Reversed => {
                let mut text = "page range `".to_owned();
                text.append(self.token.as_str());
                text.append("` starts after it ends");
                text
            },
        }
    }
}

/// White space, as Unicode defines it.
pub open spec fn is_space(c: char) -> bool {
    let u = c as u32;
    ||| 0x09 <= u <= 0x0d
    ||| u == 0x20
    ||| u == 0x85
    ||| u == 0xa0
    ||| u == 0x1680
    ||| 0x2000 <= u <= 0x200a
    ||| u == 0x2028
    ||| u == 0x2029
    ||| u == 0x202f
    ||| u == 0x205f
    ||| u == 0x3000
}

/// A decimal digit.
pub open spec fn is_digit(c: char) -> bool {
    0x30 <= c as u32 <= 0x39
}

/// A page number as written: one or more decimal digits.
pub open spec fn is_number(s: Seq<char>) -> bool {
    s.len() > 0 && forall|i: int| 0 <= i < s.len() ==> is_digit(#[trigger] s[i])
}

/// The value of a string of decimal digits.
pub open spec fn number_value(s: Seq<char>) -> nat
    decreases s.len(),
{
    if s.len() == 0 {
        0
    } else {
        number_value(s.drop_last()) * 10 + (s.last() as u32 - 0x30) as nat
    }
}

/// The string without its leading white space.
pub open spec fn trim_start(s: Seq<char>) -> Seq<char>
    decreases s.len(),
{
    if s.len() > 0 && is_space(s[0]) {
        trim_start(s.drop_first())
    } else {
        s
    }
}

/// The string without its trailing white space.
pub open spec fn trim_end(s: Seq<char>) -> Seq<char>
    decreases s.len(),
{
    if s.len() > 0 && is_space(s.last()) {
        trim_end(s.drop_last())
    } else {
        s
    }
}

/// The string without the white space around it.
pub open spec fn trimmed(s: Seq<char>) -> Seq<char> {
    trim_end(trim_start(s))
}

/// The index of the first `c` in the string, or its length if there is none.
pub open spec fn find(s: Seq<char>, c: char) -> nat
    decreases s.len(),
{
    if s.len() == 0 || s[0] == c {
        0
    } else {
        1 + find(s.drop_first(), c)
    }
}

/// The pages that a token selects from a document of `total` pages. The
/// checks come in this order: the numbers are well formed, each lies
/// between 1 and `total`, and a range does not start after it ends.
pub open spec fn token_pages(token: Seq<char>, total: nat) -> Result<(nat, nat), Violation> {
    let dash = find(token, '-') as int;
    if dash >= token.len() {
        if !is_number(token) {
            Err(Violation::Malformed)
        } else if !(1 <= number_value(token) <= total) {
            Err(Violation::OutOfBounds)
        } else {
            Ok((number_value(token), number_value(token)))
        }
    } else {
        let first = token.subrange(0, dash);
        let last = token.subrange(dash + 1, token.len() as int);
        if !is_number(first) || !is_number(last) {
            Err(Violation::Malformed)
        } else if !(1 <= number_value(first) <= total && 1 <= number_value(last) <= total) {
            Err(Violation::OutOfBounds)
        } else if number_value(first) > number_value(last) {
            Err(Violation::Reversed)
        } else {
            Ok((number_value(first), number_value(last)))
        }
    }
}

/// The ranges that a selector denotes for a document of `total` pages, one
/// for each comma-separated token and in the same order, or the first
/// violation with the token that commits it.
pub open spec fn selection(selector: Seq<char>, total: nat) -> Result<
    Seq<(nat, nat)>,
    (Violation, Seq<char>),
>
    decreases selector.len(),
{
    let comma = find(selector, ',') as int;
    let token = trimmed(selector.subrange(0, comma));
    match token_pages(token, total) {
        Err(violation) => Err((violation, token)),
        Ok(range) => if comma >= selector.len() {
            Ok(seq![range])
        } else {
            match selection(selector.subrange(comma + 1, selector.len() as int), total) {
                Ok(rest) => Ok(seq![range] + rest),
                Err(refusal) => Err(refusal),
            }
        },
    }
}

/// The first occurrence of a character lies within the string, or there is
/// none.
pub proof fn lemma_find_in_bounds(s: Seq<char>, c: char)
    ensures
        find(s, c) <= s.len(),
        find(s, c) < s.len() ==> s[find(s, c) as int] == c,
        forall|i: int| 0 <= i < find(s, c) ==> s[i] != c,
    decreases s.len(),
{
    if s.len() == 0 || s[0] == c {
    } else {
        lemma_find_in_bounds(s.drop_first(), c);
        assert forall|i: int| 0 <= i < find(s, c) implies s[i] != c by {
            if i > 0 {
                assert(s.drop_first()[i - 1] == s[i]);
            }
        }
    }
}

/// A selector denotes at least one range, and every range that it denotes
/// lies within the document and does not start after it ends.
pub proof fn lemma_selected_ranges_fit(selector: Seq<char>, total: nat)
    ensures
        selection(selector, total) matches Ok(ranges) ==> ranges.len() >= 1 && forall|i: int|
            0 <= i < ranges.len() ==> 1 <= (#[trigger] ranges[i]).0 <= ranges[i].1 <= total,
    decreases selector.len(),
{
    let comma = find(selector, ',') as int;
    let token = trimmed(selector.subrange(0, comma));
    if token_pages(token, total) is Ok && comma < selector.len() {
        lemma_find_in_bounds(selector, ',');
        lemma_selected_ranges_fit(selector.subrange(comma + 1, selector.len() as int), total);
    }
}

/// The ends of ranges as numbers.
pub open spec fn pages_view(ranges: Seq<PageRange>) -> Seq<(nat, nat)> {
    ranges.map_values(|r: PageRange| (r.start as nat, r.end as nat))
}

/// What selecting `ranges` and then going on with `rest` comes to.
pub open spec fn followed_by(
    ranges: Seq<(nat, nat)>,
    rest: Result<Seq<(nat, nat)>, (Violation, Seq<char>)>,
) -> Result<Seq<(nat, nat)>, (Violation, Seq<char>)> {
    match rest {
        Ok(more) => Ok(ranges + more),
        Err(refusal) => Err(refusal),
    }
}

/// The characters of a string.
fn chars_of(text: &str) -> (chars: Vec<char>)
    ensures
        chars@ == text@,
{
    broadcast use vstd::string::group_string_axioms;

    let mut chars: Vec<char> = Vec::new();
    let iter = text.chars();
    assert(iter.remaining() == text@);
    for c in it: iter
        invariant
            it.seq() == text@,
            chars@ == it.seq().take(it.index()),
    {
        chars.push(c);
    }
    chars
}

/// Whether a character is white space.
fn is_space_char(c: char) -> (space: bool)
    ensures
        space == is_space(c),
{
    let u = c as u32;
    (0x09 <= u && u <= 0x0d) || u == 0x20 || u == 0x85 || u == 0xa0 || u == 0x1680 || (0x2000 <= u
        && u <= 0x200a) || u == 0x2028 || u == 0x2029 || u == 0x202f || u == 0x205f || u == 0x3000
}

/// The index of the first `c` in `chars[from..to]`, or `to`.
fn find_char(chars: &Vec<char>, from: usize, to: usize, c: char) -> (at: usize)
    requires
        from <= to <= chars.len(),
    ensures
        from <= at <= to,
        at - from == find(chars@.subrange(from as int, to as int), c),
{
    let mut at = from;
    while at < to && chars[at] != c
        invariant
            from <= at <= to <= chars.len(),
            find(chars@.subrange(from as int, to as int), c) == (at - from) + find(
                chars@.subrange(at as int, to as int),
                c,
            ),
        decreases to - at,
    {
        assert(chars@.subrange(at as int, to as int).drop_first() =~= chars@.subrange(
            at + 1,
            to as int,
        ));
        at += 1;
    }
    at
}

/// The bounds of `chars[from..to]` without the white space around it.
fn trim(chars: &Vec<char>, from: usize, to: usize) -> (bounds: (usize, usize))
    requires
        from <= to <= chars.len(),
    ensures
        from <= bounds.0 <= bounds.1 <= to,
        chars@.subrange(bounds.0 as int, bounds.1 as int) == trimmed(
            chars@.subrange(from as int, to as int),
        ),
{
    let mut a = from;
    while a < to && is_space_char(chars[a])
        invariant
            from <= a <= to <= chars.len(),
            trim_start(chars@.subrange(from as int, to as int)) == trim_start(
                chars@.subrange(a as int, to as int),
            ),
        decreases to - a,
    {
        assert(chars@.subrange(a as int, to as int).drop_first() =~= chars@.subrange(
            a + 1,
            to as int,
        ));
        a += 1;
    }
    let mut b = to;
    while b > a && is_space_char(chars[b - 1])
        invariant
            a <= b <= to <= chars.len(),
            trim_end(chars@.subrange(a as int, to as int)) == trim_end(
                chars@.subrange(a as int, b as int),
            ),
        decreases b - a,
    {
        assert(chars@.subrange(a as int, b as int).drop_last() =~= chars@.subrange(
            a as int,
            b - 1,
        ));
        b -= 1;
    }
    (a, b)
}

/// Appending a digit to a string of digits does not lower its value.
proof fn lemma_value_grows(s: Seq<char>)
    requires
        s.len() > 0,
        is_digit(s.last()),
    ensures
        number_value(s) >= number_value(s.drop_last()),
        number_value(s) == number_value(s.drop_last()) * 10 + (s.last() as u32 - 0x30),
{
}

/// Reads `chars[from..to]` as a page number: `None` if it is not a string
/// of digits, `Some(None)` if its value does not fit a `usize`.
fn read_number(chars: &Vec<char>, from: usize, to: usize) -> (number: Option<Option<usize>>)
    requires
        from <= to <= chars.len(),
    ensures
        number is Some <==> is_number(chars@.subrange(from as int, to as int)),
        number matches Some(Some(value)) ==> value == number_value(
            chars@.subrange(from as int, to as int),
        ),
        number == Some(None::<usize>) ==> number_value(chars@.subrange(from as int, to as int))
            > usize::MAX,
{
    let ghost text = chars@.subrange(from as int, to as int);
    if from == to {
        return None;
    }
    let mut value: Option<usize> = Some(0);
    let mut at = from;
    while at < to
        invariant
            from <= at <= to <= chars.len(),
            text == chars@.subrange(from as int, to as int),
            forall|i: int| 0 <= i < at - from ==> is_digit(#[trigger] text[i]),
            value matches Some(v) ==> v == number_value(text.take(at - from)),
            value is None ==> number_value(text.take(at - from)) > usize::MAX,
        decreases to - at,
    {
        let c = chars[at];
        let u = c as u32;
        if u < 0x30 || u > 0x39 {
            assert(!is_digit(text[at - from]));
            return None;
        }
        let digit = (u - 0x30) as usize;
        proof {
            let longer = text.take(at - from + 1);
            assert(longer.drop_last() =~= text.take(at - from));
            assert(longer.last() == c);
            lemma_value_grows(longer);
        }
        value =
        match value {
            Some(v) => match v.checked_mul(10) {
                Some(tens) => tens.checked_add(digit),
                None => None,
            },
            None => None,
        };
        at += 1;
    }
    proof {
        assert(text.take(to - from) =~= text);
    }
    Some(value)
}

/// Reads `chars[from..to]`, which has no white space around it, as a token.
fn read_token(chars: &Vec<char>, from: usize, to: usize, total: usize) -> (pages: Result<
    PageRange,
    Violation,
>)
    requires
        from <= to <= chars.len(),
    ensures
        match pages {
            Ok(range) => token_pages(chars@.subrange(from as int, to as int), total as nat) == Ok::<
                (nat, nat),
                Violation,
            >((range.start as nat, range.end as nat)),
            Err(violation) => token_pages(chars@.subrange(from as int, to as int), total as nat)
                == Err::<(nat, nat), Violation>(violation),
        },
{
    let ghost token = chars@.subrange(from as int, to as int);
    let dash = find_char(chars, from, to, '-');
    if dash == to {
        match read_number(chars, from, to) {
            None => Err(Violation::Malformed),
            Some(None) => Err(Violation::OutOfBounds),
            Some(Some(page)) => {
                if 1 <= page && page <= total {
                    Ok(PageRange { start: page, end: page })
                } else {
                    Err(Violation::OutOfBounds)
                }
            },
        }
    } else {
        proof {
            assert(token.subrange(0, dash - from) =~= chars@.subrange(from as int, dash as int));
            assert(token.subrange(dash - from + 1, token.len() as int) =~= chars@.subrange(
                dash + 1,
                to as int,
            ));
        }
        let first = read_number(chars, from, dash);
        let last = read_number(chars, dash + 1, to);
        match (first, last) {
            (Some(first), Some(last)) => match (first, last) {
                (Some(start), Some(end)) => {
                    if !(1 <= start && start <= total && 1 <= end && end <= total) {
                        Err(Violation::OutOfBounds)
                    } else if start > end {
                        Err(Violation::Reversed)
                    } else {
                        Ok(PageRange { start, end })
                    }
                },
                _ => Err(Violation::OutOfBounds),
            },
            _ => Err(Violation::Malformed),
        }
    }
}

/// Parses a page-range selector against the page count of a document.
///
/// Returns the ranges of the tokens in the order given, or the first
/// violation with the token that commits it.
pub fn parse(selector: &str, total: usize) -> (result: Result<Vec<PageRange>, PageRangeError>)
    ensures
        match result {
            Ok(ranges) => selection(selector@, total as nat) == Ok::<
                Seq<(nat, nat)>,
                (Violation, Seq<char>),
            >(pages_view(ranges@)),
            Err(error) => selection(selector@, total as nat) == Err::<
                Seq<(nat, nat)>,
                (Violation, Seq<char>),
            >((error.violation, error.token@)) && error.total == total,
        },
        result matches Ok(ranges) ==> ranges@.len() >= 1 && forall|i: int|
            0 <= i < ranges@.len() ==> 1 <= (#[trigger] ranges@[i]).start <= ranges@[i].end
                <= total,
{
    let chars = chars_of(selector);
    let mut ranges: Vec<PageRange> = Vec::new();
    let mut from: usize = 0;
    proof {
        assert(chars@.subrange(0, chars.len() as int) =~= selector@);
        match selection(selector@, total as nat) {
            Ok(all) => {
                assert(pages_view(ranges@) + all =~= all);
            },
            Err(_) => {},
        }
    }
    loop
        invariant
            from <= chars.len(),
            chars@ == selector@,
            selection(selector@, total as nat) == followed_by(
                pages_view(ranges@),
                selection(chars@.subrange(from as int, chars.len() as int), total as nat),
            ),
        decreases chars.len() - from,
    {
        let ghost rest = chars@.subrange(from as int, chars.len() as int);
        let comma = find_char(&chars, from, chars.len(), ',');
        let (a, b) = trim(&chars, from, comma);
        proof {
            assert(rest.subrange(0, comma - from) =~= chars@.subrange(from as int, comma as int));
        }
        match read_token(&chars, a, b, total) {
            Err(violation) => {
                let token = selector.substring_char(a, b).to_owned();
                return Err(PageRangeError { violation, token, total });
            },
            Ok(range) => {
                let ghost before = ranges@;
                ranges.push(range);
                proof {
                    assert(pages_view(ranges@) =~= pages_view(before) + seq![
                        (range.start as nat, range.end as nat),
                    ]);
                }
                if comma == chars.len() {
                    proof {
                        assert(pages_view(before) + seq![(range.start as nat, range.end as nat)]
                            =~= pages_view(ranges@));
                        lemma_selected_ranges_fit(selector@, total as nat);
                        assert forall|i: int| 0 <= i < ranges@.len() implies 1 <= (
                        #[trigger] ranges@[i]).start <= ranges@[i].end <= total by {
                            assert(pages_view(ranges@)[i] == (
                                ranges@[i].start as nat,
                                ranges@[i].end as nat,
                            ));
                        }
                    }
                    return Ok(ranges);
                }
                proof {
                    assert(rest.subrange(comma - from + 1, rest.len() as int) =~= chars@.subrange(
                        comma + 1,
                        chars.len() as int,
                    ));
                    let tail = selection(
                        chars@.subrange(comma + 1, chars.len() as int),
                        total as nat,
                    );
                    match tail {
                        Ok(more) => {
                            assert(pages_view(before) + (seq![
                                (range.start as nat, range.end as nat),
                            ] + more) =~= pages_view(ranges@) + more);
                        },
                        Err(_) => {},
                    }
                }
                from = comma + 1;
            },
        }
    }
}

} // verus!
