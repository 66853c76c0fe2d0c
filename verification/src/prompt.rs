//! The interactive selection prompt: a blocking question over a list of
//! string choices, answered with the index of one of them.

use vstd::prelude::*;
use std::io::Write;

use crate::error::StepError;
use crate::correlate::{all_digits, digit_val, digits_val};
use crate::strutil::chars_of;

verus! {

/// Relies on writing to std::io::stdout (via writeln): prints one line.
#[verifier::external_body]
fn write_line(s: &str) {
    let _ = writeln!(std::io::stdout(), "{}", s);
}

/// Relies on writing to std::io::stdout (via writeln): prints one numbered
/// choice.
#[verifier::external_body]
fn write_choice_line(index: usize, s: &str) {
    let _ = writeln!(std::io::stdout(), "{}: {}", index, s);
}

/// Relies on std::io::Stdin::read_line: one line of user input, or None
/// when reading fails.
#[verifier::external_body]
fn read_input_line() -> Option<String> {
    let mut line = String::new();
    match std::io::stdin().read_line(&mut line) {
        Ok(_) => Some(line),
        Err(_) => None,
    }
}

/// An input-terminating whitespace character: newline, carriage return,
/// space or tab.
pub open spec fn is_input_ws(c: char) -> bool {
    c as u32 == 10 || c as u32 == 13 || c as u32 == 32 || c as u32 == 9
}

/// The input with its trailing whitespace removed.
pub open spec fn trimmed_end(s: Seq<char>) -> Seq<char>
    decreases s.len(),
{
    if s.len() > 0 && is_input_ws(s.last()) {
        trimmed_end(s.drop_last())
    } else {
        s
    }
}

proof fn lemma_digits_val_monotone(s: Seq<char>, j: int)
    requires
        0 <= j <= s.len(),
    ensures
        digits_val(s) >= digits_val(s.take(j)),
    decreases s.len() - j,
{
    if j < s.len() {
        lemma_digits_val_monotone(s, j + 1);
        assert(s.take(j + 1).drop_last() =~= s.take(j));
        assert(digits_val(s.take(j + 1)) == digits_val(s.take(j)) * 10 + digit_val(
            s.take(j + 1).last(),
        ));
    } else {
        assert(s.take(j) =~= s);
    }
}

/// The index the user typed: the value of the input up to its trailing
/// whitespace, exactly when that part is non-empty, all digits, and fits.
fn parse_index(cs: &Vec<char>) -> (r: Option<usize>)
    ensures
        match r {
            Some(v) => trimmed_end(cs@).len() > 0 && all_digits(trimmed_end(cs@))
                && digits_val(trimmed_end(cs@)) == v,
            None => trimmed_end(cs@).len() == 0 || !all_digits(trimmed_end(cs@))
                || digits_val(trimmed_end(cs@)) > usize::MAX,
        },
{
    let mut end: usize = cs.len();
    proof {
        assert(cs@.take(cs@.len() as int) =~= cs@);
    }
    loop
        invariant
            end <= cs@.len(),
            trimmed_end(cs@) == trimmed_end(cs@.take(end as int)),
        ensures
            end <= cs@.len(),
            trimmed_end(cs@) == trimmed_end(cs@.take(end as int)),
            end == 0 || !is_input_ws(cs@[end as int - 1]),
        decreases end,
    {
        if end == 0 {
            break;
        }
        let c = cs[end - 1] as u32;
        if c == 10 || c == 13 || c == 32 || c == 9 {
            proof {
                assert(cs@.take(end as int).last() == cs@[end - 1]);
                assert(cs@.take(end as int).drop_last() =~= cs@.take(end as int - 1));
            }
            end = end - 1;
        } else {
            break;
        }
    }
    let ghost t = cs@.take(end as int);
    proof {
        if end > 0 {
            assert(t.last() == cs@[end - 1]);
        }
        assert(trimmed_end(cs@) == t);
    }
    if end == 0 {
        return None;
    }
    let mut acc: usize = 0;
    let mut i: usize = 0;
    while i < end
        invariant
            i <= end <= cs@.len(),
            end > 0,
            t == cs@.take(end as int),
            t == trimmed_end(cs@),
            all_digits(t.take(i as int)),
            acc == digits_val(t.take(i as int)),
        decreases end - i,
    {
        let u = cs[i] as u32;
        proof {
            assert(t[i as int] == cs@[i as int]);
        }
        if !(48 <= u && u <= 57) {
            proof {
                assert(!all_digits(t));
            }
            return None;
        }
        let d = (u - 48) as usize;
        proof {
            assert(t.take(i + 1) =~= t.take(i as int).push(t[i as int]));
            assert(t.take(i + 1).drop_last() =~= t.take(i as int));
            assert(digits_val(t.take(i + 1)) == digits_val(t.take(i as int)) * 10 + digit_val(
                cs@[i as int],
            ));
        }
        let m = match acc.checked_mul(10) {
            Some(m) => m,
            None => {
                proof {
                    lemma_digits_val_monotone(t, i + 1);
                }
                return None;
            },
        };
        acc = match m.checked_add(d) {
            Some(s) => s,
            None => {
                proof {
                    lemma_digits_val_monotone(t, i + 1);
                }
                return None;
            },
        };
        i = i + 1;
    }
    proof {
        assert(t.take(end as int) =~= t);
    }
    Some(acc)
}

/// A blocking prompt: print the question and the numbered choices, read the
/// user's pick, and return exactly one of the choices — or `UserInput` when
/// the input cannot be read or names no choice.
pub fn select(items: &Vec<String>, prompt: &str) -> (r: Result<String, StepError>)
    ensures
        r matches Ok(s) ==> exists|i: int|
            0 <= i < items@.len() && (#[trigger] items@[i])@ == s@,
        r matches Err(e) ==> e is UserInput,
{
    write_line(prompt);
    let mut i: usize = 0;
    while i < items.len()
        decreases items@.len() - i,
    {
        write_choice_line(i, items[i].as_str());
        i = i + 1;
    }
    let line = match read_input_line() {
        Some(l) => l,
        None => return Err(StepError::UserInput),
    };
    let cs = chars_of(line.as_str());
    match parse_index(&cs) {
        Some(v) => {
            if v < items.len() {
                Ok(items[v].clone())
            } else {
                Err(StepError::UserInput)
            }
        },
        None => Err(StepError::UserInput),
    }
}

} // verus!
