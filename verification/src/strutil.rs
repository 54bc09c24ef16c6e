//! Character-sequence utilities shared by the parser, the patcher and the
//! extractor: substring search, line splitting, repetition and decimal
//! digits, each with an exact specification over `Seq<char>`.

use vstd::prelude::*;

verus! {

// ---------------------------------------------------------------------------
// Substring occurrence
// ---------------------------------------------------------------------------

/// `pat` occurs in `s` starting at position `i`.
pub open spec fn occurs_at(s: Seq<char>, pat: Seq<char>, i: int) -> bool {
    0 <= i && i + pat.len() <= s.len() && s.subrange(i, i + pat.len() as int) == pat
}

/// `pat` occurs somewhere in `s`.
pub open spec fn contains_seq(s: Seq<char>, pat: Seq<char>) -> bool {
    exists|i: int| occurs_at(s, pat, i)
}

/// `i` is the first position at which `pat` occurs in `s`.
pub open spec fn first_occurrence(s: Seq<char>, pat: Seq<char>, i: int) -> bool {
    occurs_at(s, pat, i) && forall|j: int| 0 <= j < i ==> !occurs_at(s, pat, j)
}

/// Does `pat` occur in `s` starting exactly at `i`?
pub fn matches_at(s: &str, pat: &str, i: usize) -> (r: bool)
    requires
        i + pat@.len() <= s@.len(),
    ensures
        r == occurs_at(s@, pat@, i as int),
{
    let slen = s.unicode_len();
    let n = pat.unicode_len();
    let mut j: usize = 0;
    while j < n
        invariant
            slen == s@.len(),
            n == pat@.len(),
            i + n <= s@.len(),
            0 <= j <= n,
            forall|k: int| 0 <= k < j ==> s@[i + k] == pat@[k],
        decreases n - j,
    {
        if s.get_char(i + j) != pat.get_char(j) {
            proof {
                assert(s@.subrange(i as int, i + pat@.len()) != pat@) by {
                    assert(s@.subrange(i as int, i + pat@.len())[j as int] == s@[i + j]);
                }
            }
            return false;
        }
        j = j + 1;
    }
    proof {
        assert(s@.subrange(i as int, i + pat@.len()) =~= pat@);
    }
    true
}

/// Position of the first occurrence of `pat` in `s`, if any.
pub fn find_first(s: &str, pat: &str) -> (r: Option<usize>)
    ensures
        match r {
            Some(i) => first_occurrence(s@, pat@, i as int),
            None => !contains_seq(s@, pat@),
        },
{
    let slen = s.unicode_len();
    let plen = pat.unicode_len();
    if plen > slen {
        proof {
            assert(forall|i: int| !occurs_at(s@, pat@, i));
        }
        return None;
    }
    if plen == 0 {
        proof {
            assert(s@.subrange(0, 0) =~= pat@);
        }
        return Some(0);
    }
    let limit = slen - plen;
    let mut i: usize = 0;
    while i <= limit
        invariant
            slen == s@.len(),
            plen == pat@.len(),
            1 <= plen <= slen,
            limit == slen - plen,
            0 <= i <= limit + 1,
            forall|j: int| 0 <= j < i ==> !occurs_at(s@, pat@, j),
        decreases limit + 1 - i,
    {
        if matches_at(s, pat, i) {
            return Some(i);
        }
        i = i + 1;
    }
    proof {
        assert(forall|j: int| !occurs_at(s@, pat@, j)) by {
            assert(forall|j: int| j > limit ==> !occurs_at(s@, pat@, j));
        }
    }
    None
}

/// Does `pat` occur anywhere in `s`?
pub fn contains_str(s: &str, pat: &str) -> (r: bool)
    ensures
        r == contains_seq(s@, pat@),
{
    match find_first(s, pat) {
        Some(_) => true,
        None => false,
    }
}

/// Are the two strings equal, character for character?
pub fn str_eq(a: &str, b: &str) -> (r: bool)
    ensures
        r == (a@ == b@),
{
    let n = a.unicode_len();
    if n != b.unicode_len() {
        return false;
    }
    let mut i: usize = 0;
    while i < n
        invariant
            n == a@.len(),
            n == b@.len(),
            0 <= i <= n,
            forall|k: int| 0 <= k < i ==> a@[k] == b@[k],
        decreases n - i,
    {
        if a.get_char(i) != b.get_char(i) {
            return false;
        }
        i = i + 1;
    }
    proof {
        assert(a@ =~= b@);
    }
    true
}

// ---------------------------------------------------------------------------
// Single characters
// ---------------------------------------------------------------------------

/// Position of the first occurrence of character `c` in `s`, at the
/// specification level.
pub open spec fn char_index(s: Seq<char>, c: char) -> Option<int>
    decreases s.len(),
{
    if s.len() == 0 {
        None
    } else if s[0] == c {
        Some(0)
    } else {
        match char_index(s.drop_first(), c) {
            None => None,
            Some(j) => Some(j + 1),
        }
    }
}

pub proof fn lemma_char_index(s: Seq<char>, c: char)
    ensures
        match char_index(s, c) {
            Some(i) => 0 <= i < s.len() && s[i] == c && forall|j: int| 0 <= j < i ==> s[j] != c,
            None => forall|j: int| 0 <= j < s.len() ==> s[j] != c,
        },
    decreases s.len(),
{
    if s.len() > 0 && s[0] != c {
        lemma_char_index(s.drop_first(), c);
        let d = s.drop_first();
        assert(forall|k: int| 0 <= k < d.len() ==> d[k] == s[k + 1]);
        match char_index(d, c) {
            Some(j) => {
                assert(char_index(s, c) == Some(j + 1));
                assert(forall|k: int| 1 <= k < j + 1 ==> s[k] == d[k - 1] && d[k - 1] != c);
            },
            None => {
                assert(forall|k: int| 1 <= k < s.len() ==> s[k] == d[k - 1] && d[k - 1] != c);
            },
        }
    }
}

pub proof fn lemma_char_index_none(s: Seq<char>, c: char)
    requires
        forall|j: int| 0 <= j < s.len() ==> s[j] != c,
    ensures
        char_index(s, c) is None,
    decreases s.len(),
{
    if s.len() > 0 {
        let d = s.drop_first();
        assert(forall|k: int| 0 <= k < d.len() ==> d[k] == s[k + 1] && s[k + 1] != c);
        lemma_char_index_none(d, c);
    }
}

/// A character absent from two strings is absent from their concatenation.
pub proof fn lemma_char_free_concat(a: Seq<char>, b: Seq<char>, c: char)
    requires
        char_index(a, c) is None,
        char_index(b, c) is None,
    ensures
        char_index(a + b, c) is None,
{
    lemma_char_index(a, c);
    lemma_char_index(b, c);
    assert(forall|j: int| 0 <= j < a.len() ==> (a + b)[j] == a[j]);
    assert(forall|j: int| a.len() <= j < a.len() + b.len() ==> (a + b)[j] == b[j - a.len()]);
    lemma_char_index_none(a + b, c);
}

/// A character absent from a string is absent from every subrange of it.
pub proof fn lemma_char_free_subrange(s: Seq<char>, c: char, i: int, j: int)
    requires
        char_index(s, c) is None,
        0 <= i <= j <= s.len(),
    ensures
        char_index(s.subrange(i, j), c) is None,
{
    lemma_char_index(s, c);
    assert(forall|k: int| 0 <= k < j - i ==> s.subrange(i, j)[k] == s[i + k]);
    lemma_char_index_none(s.subrange(i, j), c);
}

/// No part of a split holds the separator.
pub proof fn lemma_split_on_parts_free(s: Seq<char>, sep: char)
    ensures
        forall|i: int|
            0 <= i < split_on(s, sep).len() ==> char_index(
                #[trigger] split_on(s, sep)[i],
                sep,
            ) is None,
    decreases s.len(),
{
    if s.len() == 0 {
        lemma_char_index_none(Seq::<char>::empty(), sep);
    } else if s[0] == sep {
        lemma_split_on_parts_free(s.drop_first(), sep);
        lemma_char_index_none(Seq::<char>::empty(), sep);
        let r = split_on(s, sep);
        let rest = split_on(s.drop_first(), sep);
        assert(forall|i: int| 1 <= i < r.len() ==> r[i] == rest[i - 1]);
    } else {
        lemma_split_on_parts_free(s.drop_first(), sep);
        let rest = split_on(s.drop_first(), sep);
        lemma_split_on_len(s.drop_first(), sep);
        let first = seq![s[0]] + rest[0];
        lemma_char_index(rest[0], sep);
        assert(forall|k: int| 0 <= k < first.len() ==> first[k] != sep) by {
            assert(forall|k: int| 1 <= k < first.len() ==> first[k] == rest[0][k - 1]);
        }
        lemma_char_index_none(first, sep);
        let r = split_on(s, sep);
        assert(forall|i: int| 1 <= i < r.len() ==> r[i] == rest[i]);
    }
}

/// Position of the first occurrence of character `c` in `s`.
pub fn find_char(s: &str, c: char) -> (r: Option<usize>)
    ensures
        match r {
            Some(i) => char_index(s@, c) == Some(i as int),
            None => char_index(s@, c) is None,
        },
{
    let n = s.unicode_len();
    let mut i: usize = 0;
    while i < n
        invariant
            n == s@.len(),
            0 <= i <= n,
            forall|j: int| 0 <= j < i ==> s@[j] != c,
        decreases n - i,
    {
        if s.get_char(i) == c {
            proof {
                lemma_char_index(s@, c);
                if char_index(s@, c) is None {
                    assert(false);
                } else {
                    let k = char_index(s@, c)->Some_0;
                    if k < i {
                        assert(s@[k] != c);
                    }
                    if k > i {
                        assert(s@[i as int] != c);
                    }
                }
            }
            return Some(i);
        }
        i = i + 1;
    }
    proof {
        lemma_char_index(s@, c);
        if char_index(s@, c) is Some {
            let k = char_index(s@, c)->Some_0;
            assert(s@[k] != c);
        }
    }
    None
}

// ---------------------------------------------------------------------------
// Splitting on a separator character
// ---------------------------------------------------------------------------

/// Split `s` on every occurrence of `sep`.  The result always has at least
/// one part; separators are not kept.
pub open spec fn split_on(s: Seq<char>, sep: char) -> Seq<Seq<char>>
    decreases s.len(),
{
    if s.len() == 0 {
        seq![Seq::<char>::empty()]
    } else if s[0] == sep {
        seq![Seq::<char>::empty()] + split_on(s.drop_first(), sep)
    } else {
        let rest = split_on(s.drop_first(), sep);
        seq![seq![s[0]] + rest[0]] + rest.drop_first()
    }
}

pub proof fn lemma_split_on_len(s: Seq<char>, sep: char)
    ensures
        split_on(s, sep).len() >= 1,
    decreases s.len(),
{
    if s.len() > 0 {
        lemma_split_on_len(s.drop_first(), sep);
    }
}

/// When `s` holds no separator, the split is `s` alone.
pub proof fn lemma_split_on_whole(s: Seq<char>, sep: char)
    requires
        char_index(s, sep) is None,
    ensures
        split_on(s, sep) =~= seq![s],
    decreases s.len(),
{
    if s.len() == 0 {
        assert(s =~= Seq::<char>::empty());
        assert(split_on(s, sep) =~= seq![s]);
    } else {
        lemma_char_index(s, sep);
        assert(s[0] != sep);
        assert(char_index(s.drop_first(), sep) is None) by {
            lemma_char_index(s.drop_first(), sep);
            if char_index(s.drop_first(), sep) is Some {
                assert(char_index(s, sep) is Some);
            }
        }
        lemma_split_on_whole(s.drop_first(), sep);
        let rest = split_on(s.drop_first(), sep);
        assert(rest == seq![s.drop_first()]);
        assert(rest[0] == s.drop_first());
        assert(seq![s[0]] + rest[0] =~= s);
        assert(rest.drop_first() =~= Seq::<Seq<char>>::empty());
        assert(split_on(s, sep) =~= seq![seq![s[0]] + rest[0]] + rest.drop_first());
        assert(seq![seq![s[0]] + rest[0]] + rest.drop_first() =~= seq![s]);
    }
}

/// Splitting at the first separator peels off one part.
pub proof fn lemma_split_on_step(s: Seq<char>, sep: char, i: int)
    requires
        char_index(s, sep) == Some(i),
    ensures
        0 <= i < s.len(),
        split_on(s, sep) =~= seq![s.subrange(0, i)] + split_on(
            s.subrange(i + 1, s.len() as int),
            sep,
        ),
    decreases s.len(),
{
    lemma_char_index(s, sep);
    if i == 0 {
        assert(s.drop_first() =~= s.subrange(1, s.len() as int));
        assert(s.subrange(0, 0) =~= Seq::<char>::empty());
    } else {
        assert(char_index(s.drop_first(), sep) == Some(i - 1));
        lemma_split_on_step(s.drop_first(), sep, i - 1);
        let rest = split_on(s.drop_first(), sep);
        lemma_split_on_len(s.subrange(i + 1, s.len() as int), sep);
        assert(rest[0] =~= s.drop_first().subrange(0, i - 1));
        assert(seq![s[0]] + rest[0] =~= s.subrange(0, i));
        assert(s.drop_first().subrange(i, s.len() - 1) =~= s.subrange(i + 1, s.len() as int));
        assert(rest.drop_first() =~= split_on(s.subrange(i + 1, s.len() as int), sep));
    }
}

/// Prepending a separator-free part and a separator prepends that part to
/// the split.
pub proof fn lemma_split_on_prepend(a: Seq<char>, b: Seq<char>, sep: char)
    requires
        char_index(a, sep) is None,
    ensures
        split_on(a + seq![sep] + b, sep) =~= seq![a] + split_on(b, sep),
    decreases a.len(),
{
    let s = a + seq![sep] + b;
    lemma_char_index(a, sep);
    if a.len() == 0 {
        assert(s[0] == sep);
        assert(s.drop_first() =~= b);
        assert(split_on(s, sep) == seq![Seq::<char>::empty()] + split_on(b, sep));
        assert(a =~= Seq::<char>::empty());
        assert(seq![Seq::<char>::empty()] + split_on(b, sep) =~= seq![a] + split_on(b, sep));
    } else {
        assert(s[0] == a[0]);
        assert(s[0] != sep);
        assert(char_index(a.drop_first(), sep) is None) by {
            lemma_char_index(a.drop_first(), sep);
            if char_index(a.drop_first(), sep) is Some {
                let j = char_index(a.drop_first(), sep)->Some_0;
                assert(a[j + 1] == sep);
            }
        }
        assert(s.drop_first() =~= a.drop_first() + seq![sep] + b);
        lemma_split_on_prepend(a.drop_first(), b, sep);
        let rest = split_on(s.drop_first(), sep);
        lemma_split_on_len(b, sep);
        assert(rest == seq![a.drop_first()] + split_on(b, sep));
        assert(rest[0] == a.drop_first());
        assert(seq![s[0]] + rest[0] =~= a);
        assert(rest.drop_first() =~= split_on(b, sep));
        assert(split_on(s, sep) == seq![seq![s[0]] + rest[0]] + rest.drop_first());
    }
}

/// Split `s` on `sep`, returning owned parts.
pub fn split_str(s: &str, sep: char) -> (r: Vec<String>)
    ensures
        r.deep_view() == split_on(s@, sep),
{
    let mut parts: Vec<String> = Vec::new();
    let mut rest: &str = s;
    let ghost mut done: Seq<Seq<char>> = Seq::empty();
    loop
        invariant
            parts.deep_view() == done,
            split_on(s@, sep) == done + split_on(rest@, sep),
        decreases rest@.len(),
    {
        match find_char(rest, sep) {
            None => {
                proof {
                    lemma_split_on_whole(rest@, sep);
                }
                parts.push(rest.to_owned());
                proof {
                    assert(parts.deep_view() =~= done + seq![rest@]);
                    assert(done + seq![rest@] =~= split_on(s@, sep));
                }
                return parts;
            },
            Some(i) => {
                proof {
                    lemma_split_on_step(rest@, sep, i as int);
                }
                let n = rest.unicode_len();
                let part = rest.substring_char(0, i);
                parts.push(part.to_owned());
                let next: &str = rest.substring_char(i + 1, n);
                proof {
                    done = done + seq![rest@.subrange(0, i as int)];
                    assert(parts.deep_view() =~= done);
                    assert(split_on(s@, sep) == done + split_on(next@, sep));
                }
                rest = next;
            },
        }
    }
}

// ---------------------------------------------------------------------------
// Whitespace-separated tokens
// ---------------------------------------------------------------------------

/// Blank characters separating the tokens of a table line.
pub open spec fn is_ws(c: char) -> bool {
    c == ' ' || c == '\t'
}

/// `s` without its leading blanks.
pub open spec fn drop_ws(s: Seq<char>) -> Seq<char>
    decreases s.len(),
{
    if s.len() > 0 && is_ws(s[0]) {
        drop_ws(s.drop_first())
    } else {
        s
    }
}

/// The longest blank-free prefix of `s`.
pub open spec fn take_tok(s: Seq<char>) -> Seq<char>
    decreases s.len(),
{
    if s.len() > 0 && !is_ws(s[0]) {
        seq![s[0]] + take_tok(s.drop_first())
    } else {
        Seq::empty()
    }
}

/// The first whitespace-separated token of a line; empty when the line is
/// all blanks.
pub open spec fn spec_first_token(s: Seq<char>) -> Seq<char> {
    take_tok(drop_ws(s))
}

fn is_ws_char(c: char) -> (r: bool)
    ensures
        r == is_ws(c),
{
    c == ' ' || c == '\t'
}

/// Extract the first whitespace-separated token of a line.
pub fn first_token(s: &str) -> (r: String)
    ensures
        r@ == spec_first_token(s@),
{
    let n = s.unicode_len();
    let mut i: usize = 0;
    proof {
        assert(s@.skip(0) =~= s@);
    }
    while i < n && is_ws_char(s.get_char(i))
        invariant
            n == s@.len(),
            0 <= i <= n,
            drop_ws(s@) == drop_ws(s@.skip(i as int)),
        decreases n - i,
    {
        proof {
            assert(s@.skip(i as int).drop_first() =~= s@.skip(i + 1));
        }
        i = i + 1;
    }
    proof {
        assert(drop_ws(s@) == s@.skip(i as int));
    }
    let mut out = String::new();
    let mut j: usize = i;
    while j < n && !is_ws_char(s.get_char(j))
        invariant
            n == s@.len(),
            0 <= i <= j <= n,
            drop_ws(s@) == s@.skip(i as int),
            take_tok(s@.skip(i as int)) == out@ + take_tok(s@.skip(j as int)),
        decreases n - j,
    {
        proof {
            assert(s@.skip(j as int).drop_first() =~= s@.skip(j + 1));
            assert(seq![s@.skip(j as int)[0]] =~= s@.subrange(j as int, j + 1));
        }
        let piece = s.substring_char(j, j + 1);
        out.append(piece);
        j = j + 1;
    }
    proof {
        assert(take_tok(s@.skip(j as int)) == Seq::<char>::empty());
        assert(out@ + Seq::<char>::empty() =~= out@);
    }
    out
}

// ---------------------------------------------------------------------------
// Repetition
// ---------------------------------------------------------------------------

/// `u` repeated `n` times.
pub open spec fn repeat_seq(u: Seq<char>, n: nat) -> Seq<char>
    decreases n,
{
    if n == 0 {
        Seq::empty()
    } else {
        u + repeat_seq(u, (n - 1) as nat)
    }
}

pub proof fn lemma_repeat_seq_snoc(u: Seq<char>, n: nat)
    ensures
        repeat_seq(u, n + 1) =~= repeat_seq(u, n) + u,
    decreases n,
{
    if n > 0 {
        lemma_repeat_seq_snoc(u, (n - 1) as nat);
    }
}

/// `unit` repeated `n` times.
pub fn repeat_str(unit: &str, n: usize) -> (r: String)
    requires
        n * unit@.len() <= usize::MAX,
    ensures
        r@ == repeat_seq(unit@, n as nat),
{
    let mut out = String::new();
    let mut i: usize = 0;
    while i < n
        invariant
            0 <= i <= n,
            out@ == repeat_seq(unit@, i as nat),
        decreases n - i,
    {
        out.append(unit);
        proof {
            lemma_repeat_seq_snoc(unit@, i as nat);
        }
        i = i + 1;
    }
    out
}

// ---------------------------------------------------------------------------
// Decimal digits
// ---------------------------------------------------------------------------

pub open spec fn is_digit(c: char) -> bool {
    c == '0' || c == '1' || c == '2' || c == '3' || c == '4' || c == '5' || c == '6' || c == '7'
        || c == '8' || c == '9'
}

pub open spec fn digit_val(c: char) -> int {
    if c == '0' {
        0
    } else if c == '1' {
        1
    } else if c == '2' {
        2
    } else if c == '3' {
        3
    } else if c == '4' {
        4
    } else if c == '5' {
        5
    } else if c == '6' {
        6
    } else if c == '7' {
        7
    } else if c == '8' {
        8
    } else {
        9
    }
}

pub open spec fn digit_char(d: int) -> char {
    if d == 0 {
        '0'
    } else if d == 1 {
        '1'
    } else if d == 2 {
        '2'
    } else if d == 3 {
        '3'
    } else if d == 4 {
        '4'
    } else if d == 5 {
        '5'
    } else if d == 6 {
        '6'
    } else if d == 7 {
        '7'
    } else if d == 8 {
        '8'
    } else {
        '9'
    }
}

pub open spec fn all_digits(s: Seq<char>) -> bool {
    forall|i: int| 0 <= i < s.len() ==> is_digit(s[i])
}

/// Numeric value of a digit string, most significant digit first.
pub open spec fn dec_val(s: Seq<char>) -> int
    decreases s.len(),
{
    if s.len() == 0 {
        0
    } else {
        dec_val(s.drop_last()) * 10 + digit_val(s.last())
    }
}

/// Decimal rendering of `n`, without leading zeros.
pub open spec fn dec_render(n: int) -> Seq<char>
    decreases n,
{
    if n < 10 {
        seq![digit_char(n)]
    } else {
        dec_render(n / 10).push(digit_char(n % 10))
    }
}

pub proof fn lemma_dec_render_val(n: int)
    requires
        0 <= n,
    ensures
        dec_render(n).len() >= 1,
        all_digits(dec_render(n)),
        dec_val(dec_render(n)) == n,
    decreases n,
{
    if n < 10 {
        assert(dec_render(n) =~= seq![digit_char(n)]);
        assert(dec_render(n).drop_last() =~= Seq::<char>::empty());
        assert(is_digit(digit_char(n)));
        assert(digit_val(digit_char(n)) == n);
        assert(dec_val(dec_render(n)) == dec_val(Seq::<char>::empty()) * 10 + digit_val(
            digit_char(n),
        ));
    } else {
        lemma_dec_render_val(n / 10);
        let r = dec_render(n);
        assert(r =~= dec_render(n / 10).push(digit_char(n % 10)));
        assert(r.drop_last() =~= dec_render(n / 10));
        assert(r.last() == digit_char(n % 10));
        assert(is_digit(digit_char(n % 10)));
        assert(digit_val(digit_char(n % 10)) == n % 10);
        assert(dec_val(r) == (n / 10) * 10 + n % 10);
        assert(forall|i: int| 0 <= i < r.len() ==> is_digit(r[i])) by {
            assert(forall|i: int|
                0 <= i < r.len() - 1 ==> r[i] == #[trigger] dec_render(n / 10)[i]);
        }
    }
}

/// Prefixes of a digit string never exceed the value of the whole.
pub proof fn lemma_dec_val_prefix(s: Seq<char>, i: int)
    requires
        all_digits(s),
        0 <= i <= s.len(),
    ensures
        dec_val(s.subrange(0, i)) <= dec_val(s),
        dec_val(s) >= 0,
    decreases s.len() - i,
{
    if i == s.len() {
        assert(s.subrange(0, i) =~= s);
        lemma_dec_val_nonneg(s);
    } else {
        lemma_dec_val_prefix(s, i + 1);
        let p = s.subrange(0, i + 1);
        assert(p.drop_last() =~= s.subrange(0, i));
        lemma_dec_val_nonneg(s.subrange(0, i));
        assert(dec_val(p) == dec_val(s.subrange(0, i)) * 10 + digit_val(p.last()));
        assert(dec_val(s.subrange(0, i)) * 10 >= dec_val(s.subrange(0, i))) by (nonlinear_arith)
            requires
                dec_val(s.subrange(0, i)) >= 0,
        ;
    }
}

pub proof fn lemma_dec_val_nonneg(s: Seq<char>)
    ensures
        dec_val(s) >= 0,
    decreases s.len(),
{
    if s.len() > 0 {
        lemma_dec_val_nonneg(s.drop_last());
        assert(dec_val(s.drop_last()) * 10 >= 0) by (nonlinear_arith)
            requires
                dec_val(s.drop_last()) >= 0,
        ;
        assert(digit_val(s.last()) >= 0);
    }
}

/// Value of a digit string, `None` when the string is empty, holds a
/// non-digit, or exceeds `u8::MAX`.
pub open spec fn spec_parse_u8(s: Seq<char>) -> Option<u8> {
    if s.len() >= 1 && all_digits(s) && dec_val(s) <= 255 {
        Some(dec_val(s) as u8)
    } else {
        None
    }
}

fn digit_of(c: char) -> (r: Option<u8>)
    ensures
        match r {
            Some(d) => is_digit(c) && d == digit_val(c),
            None => !is_digit(c),
        },
{
    match c {
        '0' => Some(0),
        '1' => Some(1),
        '2' => Some(2),
        '3' => Some(3),
        '4' => Some(4),
        '5' => Some(5),
        '6' => Some(6),
        '7' => Some(7),
        '8' => Some(8),
        '9' => Some(9),
        _ => None,
    }
}

/// Parse a decimal `u8`, strictly: digits only, value at most 255.
pub fn parse_u8(s: &str) -> (r: Option<u8>)
    ensures
        r == spec_parse_u8(s@),
{
    let n = s.unicode_len();
    if n == 0 {
        return None;
    }
    let mut acc: u32 = 0;
    let mut i: usize = 0;
    while i < n
        invariant
            n == s@.len(),
            0 <= i <= n,
            all_digits(s@.subrange(0, i as int)),
            acc == dec_val(s@.subrange(0, i as int)),
            acc <= 255,
        decreases n - i,
    {
        let c = s.get_char(i);
        let ghost pre = s@.subrange(0, i as int);
        match digit_of(c) {
            None => {
                proof {
                    assert(!all_digits(s@));
                }
                return None;
            },
            Some(d) => {
                proof {
                    assert(s@.subrange(0, i + 1).drop_last() =~= pre);
                }
                acc = acc * 10 + (d as u32);
                if acc > 255 {
                    proof {
                        if s@.len() >= 1 && all_digits(s@) && dec_val(s@) <= 255 {
                            lemma_dec_val_prefix(s@, i + 1);
                        }
                    }
                    return None;
                }
            },
        }
        i = i + 1;
    }
    proof {
        assert(s@.subrange(0, n as int) =~= s@);
    }
    Some(acc as u8)
}

fn digit_str(d: u8) -> (r: &'static str)
    requires
        d <= 9,
    ensures
        r@ =~= seq![digit_char(d as int)],
{
    proof {
        reveal_strlit("0");
        reveal_strlit("1");
        reveal_strlit("2");
        reveal_strlit("3");
        reveal_strlit("4");
        reveal_strlit("5");
        reveal_strlit("6");
        reveal_strlit("7");
        reveal_strlit("8");
        reveal_strlit("9");
    }
    match d {
        0 => "0",
        1 => "1",
        2 => "2",
        3 => "3",
        4 => "4",
        5 => "5",
        6 => "6",
        7 => "7",
        8 => "8",
        _ => "9",
    }
}

/// Render `n` in decimal, without leading zeros.
pub fn render_u8(n: u8) -> (r: String)
    ensures
        r@ == dec_render(n as int),
    decreases n,
{
    if n < 10 {
        digit_str(n).to_owned()
    } else {
        let mut r = render_u8(n / 10);
        r.append(digit_str(n % 10));
        proof {
            assert(dec_render((n / 10) as int).push(digit_char((n % 10) as int)) =~= dec_render(
                (n / 10) as int,
            ) + seq![digit_char((n % 10) as int)]);
        }
        r
    }
}

/// Rendered decimal lengths for small values.
pub proof fn lemma_dec_render_len(n: int)
    requires
        0 <= n,
    ensures
        n < 10 ==> dec_render(n).len() == 1,
        10 <= n < 100 ==> dec_render(n).len() == 2,
        100 <= n < 1000 ==> dec_render(n).len() == 3,
    decreases n,
{
    if n >= 10 {
        lemma_dec_render_len(n / 10);
    }
}

/// Parsing inverts rendering.
pub proof fn lemma_u8_round_trip(n: u8)
    ensures
        spec_parse_u8(dec_render(n as int)) == Some(n),
{
    lemma_dec_render_val(n as int);
}

} // verus!
