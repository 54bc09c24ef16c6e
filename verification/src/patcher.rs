//! The text patcher: ordered literal (non-regex) substring replacement over
//! a configuration file's content.  Each replacement substitutes every
//! non-overlapping occurrence, left to right.  The driver reads the file,
//! calls this module, and writes the result back.

use vstd::prelude::*;
use vstd::string::StrSliceExecFns;
use vstd::string::StringExecFns;
use crate::strutil::{contains_seq, occurs_at, matches_at, find_first};

verus! {

/// One literal substitution: every occurrence of `from` becomes `to`.
pub struct Replacement {
    pub from: String,
    pub to: String,
}

/// Mathematical view of a replacement pair.
pub struct ReplacementV {
    pub from: Seq<char>,
    pub to: Seq<char>,
}

impl View for Replacement {
    type V = ReplacementV;

    open spec fn view(&self) -> ReplacementV {
        ReplacementV { from: self.from@, to: self.to@ }
    }
}

impl DeepView for Replacement {
    type V = ReplacementV;

    open spec fn deep_view(&self) -> ReplacementV {
        self.view()
    }
}

impl Replacement {
    pub fn new(from: &str, to: &str) -> (r: Replacement)
        ensures
            r@ == (ReplacementV { from: from@, to: to@ }),
    {
        Replacement { from: from.to_owned(), to: to.to_owned() }
    }
}

/// Left-to-right replacement of every non-overlapping occurrence of `from`
/// by `to`.  An empty `from` leaves the text unchanged.
pub open spec fn spec_replace(s: Seq<char>, from: Seq<char>, to: Seq<char>) -> Seq<char>
    decreases s.len(),
{
    if from.len() == 0 || s.len() < from.len() {
        s
    } else if s.subrange(0, from.len() as int) == from {
        to + spec_replace(s.skip(from.len() as int), from, to)
    } else {
        seq![s[0]] + spec_replace(s.skip(1), from, to)
    }
}

/// The replacements of a patch, applied in order.
pub open spec fn spec_apply(s: Seq<char>, rs: Seq<ReplacementV>) -> Seq<char>
    decreases rs.len(),
{
    if rs.len() == 0 {
        s
    } else {
        spec_apply(spec_replace(s, rs[0].from, rs[0].to), rs.drop_first())
    }
}

/// Replace every occurrence of `from` in `s` by `to`.
pub fn replace_all(s: &str, from: &str, to: &str) -> (r: String)
    ensures
        r@ == spec_replace(s@, from@, to@),
{
    let n = s.unicode_len();
    let flen = from.unicode_len();
    if flen == 0 {
        return s.to_owned();
    }
    let mut out = String::new();
    let mut i: usize = 0;
    proof {
        assert(s@.skip(0) =~= s@);
        assert(Seq::<char>::empty() + spec_replace(s@, from@, to@) =~= spec_replace(
            s@,
            from@,
            to@,
        ));
    }
    while i < n
        invariant
            n == s@.len(),
            flen == from@.len(),
            1 <= flen,
            0 <= i <= n,
            spec_replace(s@, from@, to@) == out@ + spec_replace(s@.skip(i as int), from@, to@),
        decreases n - i,
    {
        let ghost rest = s@.skip(i as int);
        if flen <= n - i && matches_at(s, from, i) {
            proof {
                assert(rest.subrange(0, flen as int) =~= s@.subrange(i as int, i + flen));
                assert(rest.skip(flen as int) =~= s@.skip(i + flen));
            }
            out.append(to);
            i = i + flen;
        } else {
            proof {
                if rest.len() >= flen {
                    assert(rest.subrange(0, flen as int) =~= s@.subrange(i as int, i + flen));
                    assert(rest.subrange(0, flen as int) != from@);
                    assert(rest.skip(1) =~= s@.skip(i + 1));
                    assert(spec_replace(rest, from@, to@) == seq![rest[0]] + spec_replace(
                        rest.skip(1),
                        from@,
                        to@,
                    ));
                } else {
                    assert(spec_replace(rest, from@, to@) == rest);
                    assert(rest.skip(1) =~= s@.skip(i + 1));
                    assert(spec_replace(rest.skip(1), from@, to@) == rest.skip(1));
                    assert(rest =~= seq![rest[0]] + rest.skip(1));
                }
                assert(seq![rest[0]] =~= s@.subrange(i as int, i + 1));
            }
            let piece = s.substring_char(i, i + 1);
            out.append(piece);
            i = i + 1;
        }
    }
    proof {
        assert(s@.skip(n as int) =~= Seq::<char>::empty());
        assert(spec_replace(Seq::<char>::empty(), from@, to@) == Seq::<char>::empty());
        assert(out@ + Seq::<char>::empty() =~= out@);
    }
    out
}

/// Apply a patch: every replacement in order, each over the result of the
/// previous one.
pub fn apply_replacements(content: &str, replacements: &Vec<Replacement>) -> (r: String)
    ensures
        r@ == spec_apply(content@, replacements.deep_view()),
{
    let ghost rdv = replacements.deep_view();
    let mut cur = content.to_owned();
    let mut i: usize = 0;
    proof {
        assert(rdv.skip(0) =~= rdv);
    }
    while i < replacements.len()
        invariant
            rdv == replacements.deep_view(),
            0 <= i <= replacements.len(),
            spec_apply(content@, rdv) == spec_apply(cur@, rdv.skip(i as int)),
        decreases replacements.len() - i,
    {
        proof {
            assert(rdv.skip(i as int)[0] == rdv[i as int]);
            assert(rdv.skip(i as int).drop_first() =~= rdv.skip(i + 1));
            assert(rdv[i as int] == replacements@[i as int]@);
        }
        let next = replace_all(cur.as_str(), replacements[i].from.as_str(), replacements[i].to.as_str());
        cur = next;
        i = i + 1;
    }
    proof {
        assert(rdv.skip(replacements.len() as int) =~= Seq::<ReplacementV>::empty());
    }
    cur
}

// ---------------------------------------------------------------------------
// Laws
// ---------------------------------------------------------------------------

/// Replacing a pattern that does not occur changes nothing.
pub proof fn lemma_replace_absent(s: Seq<char>, from: Seq<char>, to: Seq<char>)
    requires
        !contains_seq(s, from),
    ensures
        spec_replace(s, from, to) == s,
    decreases s.len(),
{
    assert(from.len() >= 1) by {
        if from.len() == 0 {
            assert(s.subrange(0, 0) =~= from);
            assert(occurs_at(s, from, 0));
        }
    }
    if s.len() >= from.len() {
        assert(s.subrange(0, from.len() as int) != from) by {
            if s.subrange(0, from.len() as int) == from {
                assert(occurs_at(s, from, 0));
            }
        }
        assert(!contains_seq(s.skip(1), from)) by {
            if contains_seq(s.skip(1), from) {
                let j = choose|j: int| occurs_at(s.skip(1), from, j);
                assert(s.skip(1).subrange(j, j + from.len()) =~= s.subrange(j + 1, j + 1 + from.len()));
                assert(occurs_at(s, from, j + 1));
            }
        }
        lemma_replace_absent(s.skip(1), from, to);
        assert(seq![s[0]] + s.skip(1) =~= s);
    }
}

/// A patch whose patterns are all absent changes nothing.
pub proof fn lemma_apply_absent(s: Seq<char>, rs: Seq<ReplacementV>)
    requires
        forall|i: int| 0 <= i < rs.len() ==> !contains_seq(s, #[trigger] rs[i].from),
    ensures
        spec_apply(s, rs) == s,
    decreases rs.len(),
{
    if rs.len() > 0 {
        lemma_replace_absent(s, rs[0].from, rs[0].to);
        assert(forall|i: int|
            0 <= i < rs.drop_first().len() ==> rs.drop_first()[i] == rs[i + 1]);
        lemma_apply_absent(s, rs.drop_first());
    }
}

/// Applying a patch twice gives the same text as applying it once, whenever
/// the first application has removed every `from` pattern — the second pass
/// then finds nothing to do.
pub proof fn lemma_patch_idempotent(s: Seq<char>, rs: Seq<ReplacementV>)
    requires
        forall|i: int|
            0 <= i < rs.len() ==> !contains_seq(spec_apply(s, rs), #[trigger] rs[i].from),
    ensures
        spec_apply(spec_apply(s, rs), rs) == spec_apply(s, rs),
{
    lemma_apply_absent(spec_apply(s, rs), rs);
}

} // verus!
