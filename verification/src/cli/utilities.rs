//! Reading `KEY=value` pairs.

use crate::text::{appended, char_len, find_char, first_index};
use vstd::prelude::*;

verus! {

/// What a `KEY=value` text stands for: what is before the first `=` and
/// what is behind it. A text without `=` stands for nothing.
pub open spec fn key_value(s: Seq<char>) -> Option<(Seq<char>, Seq<char>)> {
    match first_index(s, '=') {
        Some(i) => Some((s.take(i), s.skip(i + 1))),
        None => None,
    }
}

/// The complaint about a text without `=`.
pub open spec fn no_equals(s: Seq<char>) -> Seq<char> {
    "Invalid KEY=value: no `=` found in `"@ + s + "`"@
}

/// Parses a single key-value pair.
pub fn parse_key_val(s: &str) -> (r: Result<(String, String), String>)
    ensures
        match r {
            Ok(pair) => key_value(s@) == Some((pair.0@, pair.1@)),
            Err(e) => key_value(s@) is None && e@ == no_equals(s@),
        },
{
    match find_char(s, '=') {
        Some(i) => {
            proof {
                crate::text::lemma_first_index(s@, '=');
            }
            let n = char_len(s);
            let first = s.substring_char(0, i);
            let second = s.substring_char(i + 1, n);
            Ok((first.to_owned(), second.to_owned()))
        },
        None => {
            let mut e = appended("Invalid KEY=value: no `=` found in `", s);
            e.append("`");
            Err(e)
        },
    }
}

/// The text without one line break at its end, if it has one.
pub open spec fn without_newline(text: Seq<char>) -> Seq<char> {
    if text.len() > 0 && text.last() == '\n' {
        text.drop_last()
    } else {
        text
    }
}

/// The pairs given as arguments and, behind them, the pair that was piped
/// in, where something was piped in that reads as a pair.
pub open spec fn with_input(
    values: Seq<(Seq<char>, Seq<char>)>,
    piped: Option<Seq<char>>,
) -> Seq<(Seq<char>, Seq<char>)> {
    match piped {
        Some(text) => if text.len() == 0 {
            values
        } else {
            match key_value(without_newline(text)) {
                Some(pair) => values.push(pair),
                None => values,
            }
        },
        None => values,
    }
}

/// The pairs of a list as plain sequences.
pub open spec fn pairs_view(pairs: Seq<(String, String)>) -> Seq<(Seq<char>, Seq<char>)> {
    Seq::new(pairs.len(), |i: int| (pairs[i].0@, pairs[i].1@))
}

/// The pairs to set: those given as arguments and the one piped in.
/// `piped` is what was read from standard input where that is no terminal.
pub fn get_input(values: &Vec<(String, String)>, piped: Option<&str>) -> (result: Vec<
    (String, String),
>)
    ensures
        pairs_view(result@) == with_input(
            pairs_view(values@),
            match piped {
                Some(text) => Some(text@),
                None => None,
            },
        ),
{
    let mut result: Vec<(String, String)> = Vec::new();
    let mut i: usize = 0;
    while i < values.len()
        invariant
            i <= values@.len(),
            result@.len() == i,
            forall|j: int|
                0 <= j < i ==> (#[trigger] result@[j]).0@ == values@[j].0@ && result@[j].1@
                    == values@[j].1@,
        decreases values@.len() - i,
    {
        result.push((values[i].0.clone(), values[i].1.clone()));
        i += 1;
    }
    match piped {
        Some(buffer) => {
            if !buffer.is_empty() {
                let n = char_len(buffer);
                let last = buffer.get_char(n - 1);
                let line = if last == '\n' {
                    buffer.substring_char(0, n - 1)
                } else {
                    buffer
                };
                match parse_key_val(line) {
                    Ok(pair) => {
                        result.push(pair);
                    },
                    Err(_) => {},
                }
            }
        },
        None => {},
    }
    result
}

} // verus!
