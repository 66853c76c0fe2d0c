//! The branch correlation protocol: the deterministic, reversible mapping
//! between an issue (key + summary) and a Git branch name.
//!
//! Derivation produces `"{key}-{summary}"` with the summary ASCII-lowercased
//! and every space replaced by a hyphen. The inverse parse splits a ref name
//! on `-` and accepts two shapes, tried in order: a numeric first segment
//! (key = that segment), or a numeric second segment (key = the first two
//! segments rejoined).

use vstd::prelude::*;

use crate::error::StepError;
use crate::strutil::{chars_of, lemma_map_values_add, lemma_map_values_push, string_of, subvec};

verus! {

/// An item from an external issue tracker: a key such as `ABC-123` or `42`,
/// and a free-form summary line.
#[derive(Debug, Clone, PartialEq, Eq)]
pub struct Issue {
    pub key: String,
    pub summary: String,
}

/// ASCII-lowercase one character: `'A'..='Z'` map to `'a'..='z'`, everything
/// else is unchanged.
pub open spec fn lower_char(c: char) -> char {
    if 65 <= c as u32 && c as u32 <= 90 {
        (((c as u32) + 32) as u8) as char
    } else {
        c
    }
}

/// Replace a space by a hyphen; leave every other character alone.
pub open spec fn norm_char(c: char) -> char {
    if c == ' ' {
        '-'
    } else {
        c
    }
}

pub open spec fn lower_seq(s: Seq<char>) -> Seq<char> {
    s.map_values(|c: char| lower_char(c))
}

pub open spec fn norm_seq(s: Seq<char>) -> Seq<char> {
    s.map_values(|c: char| norm_char(c))
}

/// The branch name derived from an issue: `key`, a hyphen, the lowercased
/// summary, with every remaining space turned into a hyphen.
pub open spec fn derived_branch_name(key: Seq<char>, summary: Seq<char>) -> Seq<char> {
    norm_seq(key + seq!['-'] + lower_seq(summary))
}

pub open spec fn is_ascii_digit(c: char) -> bool {
    48 <= c as u32 && c as u32 <= 57
}

pub open spec fn digit_val(c: char) -> nat {
    (c as u32 - 48) as nat
}

pub open spec fn all_digits(s: Seq<char>) -> bool {
    forall|i: int| 0 <= i < s.len() ==> is_ascii_digit(#[trigger] s[i])
}

/// The numeric value of a digit string, most significant digit first.
pub open spec fn digits_val(s: Seq<char>) -> nat
    decreases s.len(),
{
    if s.len() == 0 {
        0
    } else {
        digits_val(s.drop_last()) * 10 + digit_val(s.last())
    }
}

/// The digits of a candidate unsigned-integer literal: an optional leading
/// `'+'` is allowed and skipped, as `usize::from_str` does.
pub open spec fn unsigned_body(s: Seq<char>) -> Seq<char> {
    if s.len() > 0 && s[0] == '+' {
        s.drop_first()
    } else {
        s
    }
}

/// Whether a segment parses as an unsigned integer: non-empty digits after
/// an optional `'+'`, with a value that fits in `usize`.
pub open spec fn parses_as_unsigned(s: Seq<char>) -> bool {
    let b = unsigned_body(s);
    b.len() > 0 && all_digits(b) && digits_val(b) <= usize::MAX
}

/// The index of the first occurrence of `c` in `s` at or after `from`, or
/// `s.len()` if there is none.
pub open spec fn find_char(s: Seq<char>, c: char, from: int) -> int
    decreases s.len() - from
        when from <= s.len()
{
    if from >= s.len() {
        s.len() as int
    } else if s[from] == c {
        from
    } else {
        find_char(s, c, from + 1)
    }
}

/// The inverse parse of a branch name: the `(key, summary)` pair it encodes,
/// or `None` if it fits neither shape.
///
/// With `d1` the first hyphen (or the end): if the part before `d1` is
/// numeric, it is the key and the rest is the summary. Otherwise, with `d2`
/// the next hyphen (or the end), if the part between `d1` and `d2` is
/// numeric, everything before `d2` is the key and the rest is the summary.
pub open spec fn parsed_issue(s: Seq<char>) -> Option<(Seq<char>, Seq<char>)> {
    let d1 = find_char(s, '-', 0);
    if parses_as_unsigned(s.take(d1)) {
        Some(
            (
                s.take(d1),
                if d1 == s.len() {
                    Seq::<char>::empty()
                } else {
                    s.skip(d1 + 1)
                },
            ),
        )
    } else if d1 < s.len() {
        let d2 = find_char(s, '-', d1 + 1);
        if parses_as_unsigned(s.subrange(d1 + 1, d2)) {
            Some(
                (
                    s.take(d2),
                    if d2 == s.len() {
                        Seq::<char>::empty()
                    } else {
                        s.skip(d2 + 1)
                    },
                ),
            )
        } else {
            None
        }
    } else {
        None
    }
}

/// Exec counterpart of [`lower_char`].
pub fn lower_char_exec(c: char) -> (r: char)
    ensures
        r == lower_char(c),
{
    let u = c as u32;
    if 65 <= u && u <= 90 {
        ((u + 32) as u8) as char
    } else {
        c
    }
}

/// Exec counterpart of [`norm_char`].
pub fn norm_char_exec(c: char) -> (r: char)
    ensures
        r == norm_char(c),
{
    if c == ' ' {
        '-'
    } else {
        c
    }
}

/// Derive the branch name for an issue: `"{key}-{summary}"`, with the
/// summary ASCII-lowercased and every space replaced by a hyphen.
pub fn branch_name_from_issue(issue: &Issue) -> (r: String)
    ensures
        r@ == derived_branch_name(issue.key@, issue.summary@),
{
    let kc = chars_of(issue.key.as_str());
    let sc = chars_of(issue.summary.as_str());
    let mut out: Vec<char> = Vec::new();
    let mut i: usize = 0;
    while i < kc.len()
        invariant
            i <= kc@.len(),
            kc@ == issue.key@,
            out@ == norm_seq(kc@.take(i as int)),
        decreases kc@.len() - i,
    {
        out.push(norm_char_exec(kc[i]));
        i = i + 1;
        proof {
            assert(kc@.take(i as int) =~= kc@.take(i as int - 1).push(kc@[i as int - 1]));
            lemma_map_values_push(
                kc@.take(i as int - 1),
                kc@[i as int - 1],
                |c: char| norm_char(c),
            );
        }
    }
    proof {
        assert(kc@.take(kc@.len() as int) =~= kc@);
    }
    out.push('-');
    let ghost mid = norm_seq(issue.key@).push('-');
    let mut j: usize = 0;
    while j < sc.len()
        invariant
            j <= sc@.len(),
            sc@ == issue.summary@,
            out@ == mid + norm_seq(lower_seq(sc@.take(j as int))),
            mid == norm_seq(issue.key@).push('-'),
        decreases sc@.len() - j,
    {
        out.push(norm_char_exec(lower_char_exec(sc[j])));
        j = j + 1;
        proof {
            assert(sc@.take(j as int) =~= sc@.take(j as int - 1).push(sc@[j as int - 1]));
            lemma_map_values_push(
                sc@.take(j as int - 1),
                sc@[j as int - 1],
                |c: char| lower_char(c),
            );
            lemma_map_values_push(
                lower_seq(sc@.take(j as int - 1)),
                lower_char(sc@[j as int - 1]),
                |c: char| norm_char(c),
            );
        }
    }
    proof {
        assert(sc@.take(sc@.len() as int) =~= sc@);
        lemma_map_values_add(issue.key@ + seq!['-'], lower_seq(issue.summary@), |c: char| norm_char(c));
        lemma_map_values_add(issue.key@, seq!['-'], |c: char| norm_char(c));
        assert(norm_seq(seq!['-']) =~= seq!['-']);
        assert(out@ =~= derived_branch_name(issue.key@, issue.summary@));
    }
    string_of(&out)
}

/// The index of the first `'-'` in `cs` at or after `from`, or the length
/// if there is none.
fn find_dash(cs: &Vec<char>, from: usize) -> (r: usize)
    requires
        from <= cs@.len(),
    ensures
        r == find_char(cs@, '-', from as int),
        from <= r <= cs@.len(),
{
    let mut i: usize = from;
    while i < cs.len()
        invariant
            from <= i <= cs@.len(),
            find_char(cs@, '-', from as int) == find_char(cs@, '-', i as int),
        decreases cs@.len() - i,
    {
        if cs[i] == '-' {
            return i;
        }
        i = i + 1;
    }
    i
}

/// Whether `cs[from..to]` parses as an unsigned integer, exactly as
/// [`parses_as_unsigned`] states it.
fn parse_unsigned_ok(cs: &Vec<char>, from: usize, to: usize) -> (ok: bool)
    requires
        from <= to <= cs@.len(),
    ensures
        ok == parses_as_unsigned(cs@.subrange(from as int, to as int)),
{
    let ghost sub = cs@.subrange(from as int, to as int);
    let start: usize = if from < to && cs[from] == '+' {
        from + 1
    } else {
        from
    };
    proof {
        assert(unsigned_body(sub) =~= cs@.subrange(start as int, to as int));
    }
    let ghost body = cs@.subrange(start as int, to as int);
    if start == to {
        return false;
    }
    let mut acc: usize = 0;
    let mut overflowed: bool = false;
    let mut i: usize = start;
    while i < to
        invariant
            start <= i <= to <= cs@.len(),
            from <= start,
            start < to,
            sub == cs@.subrange(from as int, to as int),
            body == unsigned_body(sub),
            body == cs@.subrange(start as int, to as int),
            all_digits(body.take(i - start)),
            !overflowed ==> acc == digits_val(body.take(i - start)),
            overflowed ==> digits_val(body.take(i - start)) > usize::MAX,
        decreases to - i,
    {
        let c = cs[i];
        let u = c as u32;
        if !(48 <= u && u <= 57) {
            proof {
                assert(body[i - start] == c);
                assert(!all_digits(body));
            }
            return false;
        }
        let d = (u - 48) as usize;
        proof {
            assert(body.take(i + 1 - start) =~= body.take(i - start).push(body[i - start]));
            assert(body.take(i + 1 - start).drop_last() =~= body.take(i - start));
            assert(digits_val(body.take(i + 1 - start)) == digits_val(body.take(i - start)) * 10
                + digit_val(c));
        }
        if overflowed {
            proof {
                assert(digits_val(body.take(i - start)) * 10 >= digits_val(body.take(i - start)));
            }
        } else {
            match acc.checked_mul(10) {
                Some(m) => {
                    match m.checked_add(d) {
                        Some(s) => {
                            acc = s;
                        },
                        None => {
                            overflowed = true;
                        },
                    }
                },
                None => {
                    overflowed = true;
                },
            }
        }
        i = i + 1;
    }
    proof {
        assert(body.take(to - start) =~= body);
    }
    !overflowed
}

pub open spec fn no_space(s: Seq<char>) -> bool {
    forall|i: int| 0 <= i < s.len() ==> #[trigger] s[i] != ' '
}

pub open spec fn no_dash(s: Seq<char>) -> bool {
    forall|i: int| 0 <= i < s.len() ==> #[trigger] s[i] != '-'
}

/// A key of the numeric-prefix style, such as `42`: the whole key parses as
/// an unsigned integer.
pub open spec fn numeric_key_shape(k: Seq<char>) -> bool {
    parses_as_unsigned(k)
}

/// A key of the project-prefix style, such as `ABC-123`: a non-numeric
/// project part, one hyphen, then a numeric part.
pub open spec fn project_key_shape(k: Seq<char>) -> bool {
    let d = find_char(k, '-', 0);
    &&& d < k.len()
    &&& !parses_as_unsigned(k.take(d))
    &&& parses_as_unsigned(k.skip(d + 1))
    &&& no_dash(k.skip(d + 1))
}

/// A summary that derivation leaves unchanged: no spaces and no ASCII
/// uppercase letters.
pub open spec fn normalized_summary(s: Seq<char>) -> bool {
    forall|i: int| 0 <= i < s.len() ==> #[trigger] s[i] != ' ' && !(65 <= s[i] as u32 && s[i]
        as u32 <= 90)
}

proof fn lemma_find_char_at(s: Seq<char>, c: char, from: int, k: int)
    requires
        0 <= from <= k < s.len(),
        s[k] == c,
        forall|j: int| from <= j < k ==> #[trigger] s[j] != c,
    ensures
        find_char(s, c, from) == k,
    decreases k - from,
{
    if from < k {
        lemma_find_char_at(s, c, from + 1, k);
    }
}

proof fn lemma_find_char_props(s: Seq<char>, c: char, from: int)
    requires
        0 <= from <= s.len(),
    ensures
        from <= find_char(s, c, from) <= s.len(),
        forall|j: int| from <= j < find_char(s, c, from) ==> #[trigger] s[j] != c,
        find_char(s, c, from) < s.len() ==> s[find_char(s, c, from)] == c,
    decreases s.len() - from,
{
    if from < s.len() && s[from] != c {
        lemma_find_char_props(s, c, from + 1);
    }
}

/// The characters of a segment that parses as an unsigned integer are a
/// possible leading `'+'` and digits; none of them is a hyphen or a space.
proof fn lemma_unsigned_chars(s: Seq<char>)
    requires
        parses_as_unsigned(s),
    ensures
        no_dash(s),
        no_space(s),
{
    let b = unsigned_body(s);
    assert forall|i: int| 0 <= i < s.len() implies #[trigger] s[i] != '-' && s[i] != ' ' by {
        if s.len() > 0 && s[0] == '+' {
            if i > 0 {
                assert(b[i - 1] == s[i]);
                assert(is_ascii_digit(b[i - 1]));
            }
        } else {
            assert(is_ascii_digit(b[i]));
        }
    }
}

/// The round-trip law of the correlation protocol: for any issue whose key
/// has one of the two supported shapes (and no spaces) and whose summary is
/// already in derived form (no spaces, no ASCII uppercase), parsing the
/// derived branch name yields exactly the key and summary back.
pub proof fn lemma_branch_name_round_trip(key: Seq<char>, summary: Seq<char>)
    requires
        no_space(key),
        numeric_key_shape(key) || project_key_shape(key),
        normalized_summary(summary),
    ensures
        parsed_issue(derived_branch_name(key, summary)) == Some((key, summary)),
{
    lemma_map_values_add(key + seq!['-'], lower_seq(summary), |c: char| norm_char(c));
    lemma_map_values_add(key, seq!['-'], |c: char| norm_char(c));
    assert(lower_seq(summary) =~= summary);
    assert(norm_seq(key) =~= key);
    assert(norm_seq(seq!['-']) =~= seq!['-']);
    assert(norm_seq(summary) =~= summary);
    let d = key + seq!['-'] + summary;
    assert(derived_branch_name(key, summary) == d);
    assert(d[key.len() as int] == '-');
    if numeric_key_shape(key) {
        lemma_unsigned_chars(key);
        lemma_find_char_at(d, '-', 0, key.len() as int);
        assert(d.take(key.len() as int) =~= key);
        assert(d.skip(key.len() as int + 1) =~= summary);
    } else {
        let dk = find_char(key, '-', 0);
        lemma_find_char_props(key, '-', 0);
        assert(d.take(dk) =~= key.take(dk));
        lemma_find_char_at(d, '-', 0, dk);
        assert(!parses_as_unsigned(d.take(dk)));
        let b = key.skip(dk + 1);
        lemma_unsigned_chars(b);
        assert forall|j: int| dk + 1 <= j < key.len() implies #[trigger] d[j] != '-' by {
            assert(d[j] == key[j]);
            assert(key[j] == b[j - (dk + 1)]);
        }
        lemma_find_char_at(d, '-', dk + 1, key.len() as int);
        assert(d.subrange(dk + 1, key.len() as int) =~= b);
        assert(d.take(key.len() as int) =~= key);
        assert(d.skip(key.len() as int + 1) =~= summary);
    }
}

/// Parse an issue out of a branch name, or fail with `BadGitBranchName` when
/// the name fits neither supported shape.
pub fn select_issue_from_branch_name(ref_name: &str) -> (r: Result<Issue, StepError>)
    ensures
        match parsed_issue(ref_name@) {
            Some(ks) => r matches Ok(iss) && iss.key@ == ks.0 && iss.summary@ == ks.1,
            None => r matches Err(e) && e is BadGitBranchName,
        },
{
    let cs = chars_of(ref_name);
    let n = cs.len();
    let d1 = find_dash(&cs, 0);
    proof {
        assert(cs@.subrange(0, find_char(cs@, '-', 0)) =~= cs@.take(find_char(cs@, '-', 0)));
    }
    if parse_unsigned_ok(&cs, 0, d1) {
        let key = string_of(&subvec(&cs, 0, d1));
        let summary = if d1 == n {
            String::new()
        } else {
            string_of(&subvec(&cs, d1 + 1, n))
        };
        proof {
            if d1 < n {
                assert(cs@.subrange(d1 + 1, n as int) =~= cs@.skip(d1 + 1));
            }
        }
        Ok(Issue { key, summary })
    } else if d1 < n {
        let d2 = find_dash(&cs, d1 + 1);
        if parse_unsigned_ok(&cs, d1 + 1, d2) {
            let key = string_of(&subvec(&cs, 0, d2));
            let summary = if d2 == n {
                String::new()
            } else {
                string_of(&subvec(&cs, d2 + 1, n))
            };
            proof {
                assert(cs@.subrange(0, d2 as int) =~= cs@.take(d2 as int));
                if d2 < n {
                    assert(cs@.subrange(d2 + 1, n as int) =~= cs@.skip(d2 + 1));
                }
            }
            Ok(Issue { key, summary })
        } else {
            Err(StepError::BadGitBranchName)
        }
    } else {
        Err(StepError::BadGitBranchName)
    }
}

} // verus!

