//! The identifier extractor: given the full text of a device-listing
//! command's output, find the stable identifier associated with a named
//! device or label.  The first line whose text contains the name is
//! selected; within it the quoted value following the recognized key
//! `UUID=` is returned bare, without its quotes.

use vstd::prelude::*;
use vstd::string::StrSliceExecFns;
use crate::strutil::{
    contains_seq, occurs_at, first_occurrence, char_index, split_on, split_str, find_first,
    find_char, contains_str, lemma_char_index,
};

verus! {

/// Failure of the extractor: no line matches, or the selected line carries
/// no recognized quoted identifier token.
#[derive(Clone, Copy, PartialEq, Eq, Structural, Debug)]
pub enum ExtractError {
    NotFound,
}

/// Position of the first occurrence of `pat` in `s`, at the specification
/// level.
pub open spec fn find_sub(s: Seq<char>, pat: Seq<char>) -> Option<int>
    decreases s.len(),
{
    if s.len() < pat.len() {
        Option::None
    } else if s.subrange(0, pat.len() as int) == pat {
        Option::Some(0)
    } else if s.len() == 0 {
        Option::None
    } else {
        match find_sub(s.drop_first(), pat) {
            Option::None => Option::None,
            Option::Some(j) => Option::Some(j + 1),
        }
    }
}

pub proof fn lemma_find_sub(s: Seq<char>, pat: Seq<char>)
    ensures
        match find_sub(s, pat) {
            Option::Some(i) => first_occurrence(s, pat, i),
            Option::None => !contains_seq(s, pat),
        },
    decreases s.len(),
{
    if s.len() < pat.len() {
        assert(forall|i: int| !occurs_at(s, pat, i));
    } else if s.subrange(0, pat.len() as int) == pat {
        assert(occurs_at(s, pat, 0));
    } else {
        assert(pat.len() >= 1) by {
            if pat.len() == 0 {
                assert(s.subrange(0, 0) =~= pat);
            }
        }
        let d = s.drop_first();
        lemma_find_sub(d, pat);
        assert(forall|j: int|
            0 <= j && j + pat.len() <= d.len() ==> #[trigger] d.subrange(j, j + pat.len())
                =~= s.subrange(j + 1, j + 1 + pat.len()));
        match find_sub(d, pat) {
            Option::Some(j) => {
                assert(occurs_at(d, pat, j));
                assert(occurs_at(s, pat, j + 1));
                assert(forall|k: int| 1 <= k < j + 1 ==> !occurs_at(s, pat, k)) by {
                    assert(forall|k: int|
                        1 <= k < j + 1 && occurs_at(s, pat, k) ==> occurs_at(d, pat, k - 1));
                }
                assert(!occurs_at(s, pat, 0));
            },
            Option::None => {
                assert(forall|k: int| 1 <= k && occurs_at(s, pat, k) ==> occurs_at(d, pat, k - 1));
                assert(forall|k: int| !occurs_at(s, pat, k));
            },
        }
    }
}

pub proof fn lemma_find_sub_of_first(s: Seq<char>, pat: Seq<char>, i: int)
    requires
        first_occurrence(s, pat, i),
    ensures
        find_sub(s, pat) == Option::Some(i),
{
    lemma_find_sub(s, pat);
    match find_sub(s, pat) {
        Option::Some(j) => {
            if j < i {
                assert(!occurs_at(s, pat, j));
            }
            if i < j {
                assert(!occurs_at(s, pat, i));
            }
        },
        Option::None => {
            assert(occurs_at(s, pat, i));
        },
    }
}

/// The first line that mentions `name`.
pub open spec fn spec_first_match(lines: Seq<Seq<char>>, name: Seq<char>) -> Option<Seq<char>>
    decreases lines.len(),
{
    if lines.len() == 0 {
        Option::None
    } else if contains_seq(lines[0], name) {
        Option::Some(lines[0])
    } else {
        spec_first_match(lines.drop_first(), name)
    }
}

/// The quoted value of the first `UUID="…"` token of a line, without its
/// quotes: everything between the key and the next quote.
pub open spec fn spec_token_value(line: Seq<char>) -> Option<Seq<char>> {
    let key = "UUID=\""@;
    match find_sub(line, key) {
        Option::None => Option::None,
        Option::Some(i) => {
            let rest = line.skip(i + key.len() as int);
            match char_index(rest, '"') {
                Option::None => Option::None,
                Option::Some(j) => Option::Some(rest.subrange(0, j)),
            }
        },
    }
}

/// What the extractor finds in a device listing: the token value of the
/// first line mentioning `name`, if both exist.
pub open spec fn spec_find_identifier(output: Seq<char>, name: Seq<char>) -> Option<Seq<char>> {
    match spec_first_match(split_on(output, '\n'), name) {
        Option::None => Option::None,
        Option::Some(line) => spec_token_value(line),
    }
}

/// Find the stable identifier named by the first `UUID="…"` token of the
/// first listing line that contains `name`.  Fails with the not-found
/// error when no line matches, and also when the matching line carries no
/// such token.
pub fn find_identifier(output: &str, name: &str) -> (r: Result<String, ExtractError>)
    ensures
        match r {
            Ok(u) => spec_find_identifier(output@, name@) == Option::Some(u@),
            Err(_) => spec_find_identifier(output@, name@) is None,
        },
{
    proof {
        reveal_strlit("UUID=\"");
    }
    let lines = split_str(output, '\n');
    let line = match first_matching_line(&lines, name) {
        Some(k) => &lines[k],
        None => {
            return Err(ExtractError::NotFound);
        },
    };
    proof {
        assert(spec_first_match(lines.deep_view(), name@) == Option::Some(line@));
    }
    let i = match find_first(line.as_str(), "UUID=\"") {
        Some(i) => i,
        None => {
            proof {
                lemma_find_sub(line@, "UUID=\""@);
                match find_sub(line@, "UUID=\""@) {
                    Option::Some(j) => {
                        assert(occurs_at(line@, "UUID=\""@, j));
                    },
                    Option::None => {},
                }
            }
            return Err(ExtractError::NotFound);
        },
    };
    proof {
        lemma_find_sub_of_first(line@, "UUID=\""@, i as int);
    }
    let n = line.as_str().unicode_len();
    let rest = line.as_str().substring_char(i + 6, n);
    proof {
        assert(rest@ =~= line@.skip(i + 6));
    }
    match find_char(rest, '"') {
        None => Err(ExtractError::NotFound),
        Some(j) => {
            proof {
                lemma_char_index(rest@, '"');
            }
            let value = rest.substring_char(0, j);
            Ok(value.to_owned())
        },
    }
}

/// Index of the first line that contains `name`.
pub fn first_matching_line(lines: &Vec<String>, name: &str) -> (r: Option<usize>)
    ensures
        match r {
            Some(k) => k < lines@.len() && spec_first_match(lines.deep_view(), name@)
                == Option::Some(lines@[k as int]@),
            None => spec_first_match(lines.deep_view(), name@) is None,
        },
{
    let ghost all = lines.deep_view();
    let mut k: usize = 0;
    proof {
        assert(all.skip(0) =~= all);
    }
    while k < lines.len()
        invariant
            all == lines.deep_view(),
            0 <= k <= lines@.len(),
            spec_first_match(all, name@) == spec_first_match(all.skip(k as int), name@),
        decreases lines@.len() - k,
    {
        proof {
            assert(all.skip(k as int)[0] == all[k as int]);
            assert(all[k as int] == lines@[k as int]@);
        }
        if contains_str(lines[k].as_str(), name) {
            return Some(k);
        }
        proof {
            assert(all.skip(k as int).drop_first() =~= all.skip(k + 1));
        }
        k = k + 1;
    }
    proof {
        assert(all.skip(lines@.len() as int) =~= Seq::<Seq<char>>::empty());
    }
    None
}

// ---------------------------------------------------------------------------
// Laws
// ---------------------------------------------------------------------------

/// A listing none of whose lines mentions `name` yields nothing.
pub proof fn lemma_first_match_none(lines: Seq<Seq<char>>, name: Seq<char>)
    requires
        forall|i: int| 0 <= i < lines.len() ==> !contains_seq(#[trigger] lines[i], name),
    ensures
        spec_first_match(lines, name) is None,
    decreases lines.len(),
{
    if lines.len() > 0 {
        assert(forall|i: int|
            0 <= i < lines.drop_first().len() ==> lines.drop_first()[i] == lines[i + 1]);
        lemma_first_match_none(lines.drop_first(), name);
    }
}

/// The extractor returns the not-found error on a listing with no matching
/// line.
pub proof fn lemma_identifier_not_found(output: Seq<char>, name: Seq<char>)
    requires
        forall|i: int|
            0 <= i < split_on(output, '\n').len() ==> !contains_seq(
                #[trigger] split_on(output, '\n')[i],
                name,
            ),
    ensures
        spec_find_identifier(output, name) is None,
{
    lemma_first_match_none(split_on(output, '\n'), name);
}

proof fn lemma_char_index_at_append(u: Seq<char>, c: char, tail: Seq<char>)
    requires
        char_index(u, c) is None,
    ensures
        char_index(u + seq![c] + tail, c) == Option::Some(u.len() as int),
    decreases u.len(),
{
    let s = u + seq![c] + tail;
    if u.len() == 0 {
        assert(s[0] == c);
    } else {
        lemma_char_index(u, c);
        assert(s[0] == u[0]);
        assert(s[0] != c);
        assert(char_index(u.drop_first(), c) is None) by {
            lemma_char_index(u.drop_first(), c);
            if char_index(u.drop_first(), c) is Some {
                let j = char_index(u.drop_first(), c)->Some_0;
                assert(u.drop_first()[j] == u[j + 1]);
            }
        }
        lemma_char_index_at_append(u.drop_first(), c, tail);
        assert(s.drop_first() =~= u.drop_first() + seq![c] + tail);
    }
}

/// A line of the shape `… UUID="u" …`, whose key occurs there first and
/// whose value holds no quote, yields exactly `u`.
pub proof fn lemma_token_value_of_line(line: Seq<char>, i: int, u: Seq<char>, tail: Seq<char>)
    requires
        first_occurrence(line, "UUID=\""@, i),
        char_index(u, '"') is None,
        line.skip(i + "UUID=\""@.len() as int) == u + seq!['"'] + tail,
    ensures
        spec_token_value(line) == Option::Some(u),
{
    let key = "UUID=\""@;
    lemma_find_sub_of_first(line, key, i);
    let rest = line.skip(i + key.len() as int);
    lemma_char_index_at_append(u, '"', tail);
    assert(char_index(rest, '"') == Option::Some(u.len() as int));
    assert(rest.subrange(0, u.len() as int) =~= u);
}

/// The extractor returns `u` whenever the first line mentioning `name`
/// carries `UUID="u"` as its first key token, `u` itself quote-free.
pub proof fn lemma_identifier_found(
    output: Seq<char>,
    name: Seq<char>,
    line: Seq<char>,
    i: int,
    u: Seq<char>,
    tail: Seq<char>,
)
    requires
        spec_first_match(split_on(output, '\n'), name) == Option::Some(line),
        first_occurrence(line, "UUID=\""@, i),
        char_index(u, '"') is None,
        line.skip(i + "UUID=\""@.len() as int) == u + seq!['"'] + tail,
    ensures
        spec_find_identifier(output, name) == Option::Some(u),
{
    lemma_token_value_of_line(line, i, u, tail);
}

} // verus!
