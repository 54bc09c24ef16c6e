//! The persisted-state record: a line-oriented text encoding of the
//! provisioning state, one field per line in a fixed order, with optional
//! fields carried in an explicit present/absent encoding.  Encoding and
//! decoding are exact inverses on well-formed states.

use vstd::prelude::*;
use vstd::string::StrSliceExecFns;
use vstd::string::StringExecFns;
use crate::config::{AppConfig, ConfigV, opt_view, opt_ok, line_ok, quoted_ok};
use crate::strutil::{
    char_index, split_on, spec_parse_u8, dec_render, parse_u8, render_u8, split_str, str_eq,
    matches_at, find_char, lemma_char_index, lemma_char_index_none, lemma_char_free_concat,
    lemma_char_free_subrange, lemma_split_on_parts_free, lemma_split_on_prepend,
    lemma_split_on_whole, lemma_dec_render_val, lemma_u8_round_trip, is_digit,
};

verus! {

/// Why a persisted record could not be loaded.
#[derive(Clone, Copy, PartialEq, Eq, Structural, Debug)]
pub enum LoadError {
    /// The record does not have the expected field count or field shapes.
    CorruptState,
}

// ---------------------------------------------------------------------------
// Field encodings
// ---------------------------------------------------------------------------

pub open spec fn spec_render_bool(b: bool) -> Seq<char> {
    if b {
        "true"@
    } else {
        "false"@
    }
}

pub open spec fn spec_parse_bool(s: Seq<char>) -> Option<bool> {
    if s == "true"@ {
        Option::Some(true)
    } else if s == "false"@ {
        Option::Some(false)
    } else {
        Option::None
    }
}

pub open spec fn spec_render_opt(o: Option<Seq<char>>) -> Seq<char> {
    match o {
        Option::None => "None"@,
        Option::Some(v) => "Some(\""@ + v + "\")"@,
    }
}

pub open spec fn spec_parse_opt(s: Seq<char>) -> Option<Option<Seq<char>>> {
    if s == "None"@ {
        Option::Some(Option::None)
    } else if s.len() >= 8 && s.subrange(0, 6) == "Some(\""@ && s.subrange(
        s.len() - 2,
        s.len() as int,
    ) == "\")"@ && char_index(s.subrange(6, s.len() - 2), '"') is None {
        Option::Some(Option::Some(s.subrange(6, s.len() - 2)))
    } else {
        Option::None
    }
}

fn render_bool(b: bool) -> (r: &'static str)
    ensures
        r@ == spec_render_bool(b),
{
    if b {
        "true"
    } else {
        "false"
    }
}

fn parse_bool_field(s: &str) -> (r: Option<bool>)
    ensures
        r == spec_parse_bool(s@),
{
    if str_eq(s, "true") {
        Some(true)
    } else if str_eq(s, "false") {
        Some(false)
    } else {
        None
    }
}

fn render_opt(o: &Option<String>) -> (r: String)
    ensures
        r@ == spec_render_opt(opt_view(*o)),
{
    match o {
        None => "None".to_owned(),
        Some(v) => {
            let mut out = "Some(\"".to_owned();
            out.append(v.as_str());
            out.append("\")");
            out
        },
    }
}

fn parse_opt_field(s: &str) -> (r: Option<Option<String>>)
    ensures
        match r {
            Some(o) => spec_parse_opt(s@) == Option::Some(opt_view(o)) && (line_ok(s@)
                ==> opt_ok(opt_view(o))),
            None => spec_parse_opt(s@) is None,
        },
{
    proof {
        reveal_strlit("Some(\"");
        reveal_strlit("\")");
    }
    if str_eq(s, "None") {
        return Some(None);
    }
    let n = s.unicode_len();
    if n < 8 {
        return None;
    }
    if !matches_at(s, "Some(\"", 0) {
        return None;
    }
    if !matches_at(s, "\")", n - 2) {
        return None;
    }
    let middle = s.substring_char(6, n - 2);
    match find_char(middle, '"') {
        Some(_) => {
            proof {
                lemma_char_index(middle@, '"');
            }
            None
        },
        None => {
            proof {
                assert(s@.subrange(0, 6) == "Some(\""@);
                assert(s@.subrange(n - 2, n as int) == "\")"@);
                if char_index(s@, '\n') is None {
                    lemma_char_free_subrange(s@, '\n', 6, n - 2);
                    assert(quoted_ok(middle@));
                }
            }
            Some(Some(middle.to_owned()))
        },
    }
}

// ---------------------------------------------------------------------------
// The whole record
// ---------------------------------------------------------------------------

/// The persisted text of a state: ten fields, one per line, in the fixed
/// order firmware mode, UEFI / boot partition, root partition, home
/// partition, username, encryption flag, swap partition, current step,
/// total steps.
pub open spec fn spec_render_config(c: ConfigV) -> Seq<char> {
    spec_render_bool(c.uefi_install) + "\n"@ + spec_render_opt(c.uefi_partition) + "\n"@
        + spec_render_opt(c.boot_partition) + "\n"@ + c.root_partition + "\n"@ + spec_render_opt(
        c.home_partition,
    ) + "\n"@ + c.username + "\n"@ + spec_render_bool(c.encrypted_partitions) + "\n"@
        + spec_render_opt(c.swap_partition) + "\n"@ + dec_render(c.current_step as int) + "\n"@
        + dec_render(c.total_steps as int)
}

pub open spec fn spec_parse_fields(parts: Seq<Seq<char>>) -> Option<ConfigV> {
    if spec_parse_bool(parts[0]) is Some && spec_parse_opt(parts[1]) is Some && spec_parse_opt(
        parts[2],
    ) is Some && spec_parse_opt(parts[4]) is Some && spec_parse_bool(parts[6]) is Some
        && spec_parse_opt(parts[7]) is Some && spec_parse_u8(parts[8]) is Some && spec_parse_u8(
        parts[9],
    ) is Some {
        Option::Some(
            ConfigV {
                uefi_install: spec_parse_bool(parts[0])->Some_0,
                uefi_partition: spec_parse_opt(parts[1])->Some_0,
                boot_partition: spec_parse_opt(parts[2])->Some_0,
                root_partition: parts[3],
                home_partition: spec_parse_opt(parts[4])->Some_0,
                username: parts[5],
                encrypted_partitions: spec_parse_bool(parts[6])->Some_0,
                swap_partition: spec_parse_opt(parts[7])->Some_0,
                current_step: spec_parse_u8(parts[8])->Some_0,
                total_steps: spec_parse_u8(parts[9])->Some_0,
            },
        )
    } else {
        Option::None
    }
}

/// Decoding of a persisted record: exactly ten lines, each of the expected
/// shape, else the record is corrupt.
pub open spec fn spec_parse_config(s: Seq<char>) -> Option<ConfigV> {
    let parts = split_on(s, '\n');
    if parts.len() == 10 {
        spec_parse_fields(parts)
    } else {
        Option::None
    }
}

/// Encode a state as the persisted record text.
pub fn render_config(c: &AppConfig) -> (r: String)
    ensures
        r@ == spec_render_config(c@),
{
    let mut out = String::new();
    out.append(render_bool(c.uefi_install));
    out.append("\n");
    let f1 = render_opt(&c.uefi_partition);
    out.append(f1.as_str());
    out.append("\n");
    let f2 = render_opt(&c.boot_partition);
    out.append(f2.as_str());
    out.append("\n");
    out.append(c.root_partition.as_str());
    out.append("\n");
    let f4 = render_opt(&c.home_partition);
    out.append(f4.as_str());
    out.append("\n");
    out.append(c.username.as_str());
    out.append("\n");
    out.append(render_bool(c.encrypted_partitions));
    out.append("\n");
    let f7 = render_opt(&c.swap_partition);
    out.append(f7.as_str());
    out.append("\n");
    let f8 = render_u8(c.current_installation_step);
    out.append(f8.as_str());
    out.append("\n");
    let f9 = render_u8(c.total_installation_steps);
    out.append(f9.as_str());
    out
}

/// Decode a persisted record.  Returns the corrupt-state error exactly when
/// the text is not a well-shaped ten-field record.
pub fn parse_config(s: &str) -> (r: Result<AppConfig, LoadError>)
    ensures
        match r {
            Ok(c) => spec_parse_config(s@) == Option::Some(c@) && c@.strings_wf(),
            Err(e) => spec_parse_config(s@) is None && e == LoadError::CorruptState,
        },
{
    let parts = split_str(s, '\n');
    if parts.len() != 10 {
        return Err(LoadError::CorruptState);
    }
    proof {
        lemma_split_on_parts_free(s@, '\n');
        assert(forall|i: int| 0 <= i < 10 ==> parts.deep_view()[i] == parts@[i]@);
        assert(forall|i: int| 0 <= i < 10 ==> line_ok(#[trigger] parts@[i]@));
    }
    let uefi_install = match parse_bool_field(parts[0].as_str()) {
        Some(b) => b,
        None => {
            return Err(LoadError::CorruptState);
        },
    };
    let uefi_partition = match parse_opt_field(parts[1].as_str()) {
        Some(o) => o,
        None => {
            return Err(LoadError::CorruptState);
        },
    };
    let boot_partition = match parse_opt_field(parts[2].as_str()) {
        Some(o) => o,
        None => {
            return Err(LoadError::CorruptState);
        },
    };
    let root_partition = parts[3].clone();
    let home_partition = match parse_opt_field(parts[4].as_str()) {
        Some(o) => o,
        None => {
            return Err(LoadError::CorruptState);
        },
    };
    let username = parts[5].clone();
    let encrypted_partitions = match parse_bool_field(parts[6].as_str()) {
        Some(b) => b,
        None => {
            return Err(LoadError::CorruptState);
        },
    };
    let swap_partition = match parse_opt_field(parts[7].as_str()) {
        Some(o) => o,
        None => {
            return Err(LoadError::CorruptState);
        },
    };
    let current_installation_step = match parse_u8(parts[8].as_str()) {
        Some(v) => v,
        None => {
            return Err(LoadError::CorruptState);
        },
    };
    let total_installation_steps = match parse_u8(parts[9].as_str()) {
        Some(v) => v,
        None => {
            return Err(LoadError::CorruptState);
        },
    };
    let c = AppConfig {
        uefi_install,
        uefi_partition,
        boot_partition,
        root_partition,
        home_partition,
        username,
        encrypted_partitions,
        swap_partition,
        current_installation_step,
        total_installation_steps,
    };
    proof {
        let sp = split_on(s@, '\n');
        assert(c@ == spec_parse_fields(sp)->Some_0);
    }
    Ok(c)
}

impl AppConfig {
    /// The bare value carried inside a present optional field of the
    /// persisted record.
    pub fn extract_some_value(some: &str) -> (r: String)
        requires
            spec_parse_opt(some@) matches Option::Some(o) && o is Some,
        ensures
            Option::Some(Option::Some(r@)) == spec_parse_opt(some@),
    {
        proof {
            reveal_strlit("None");
        }
        let n = some.unicode_len();
        proof {
            assert(some@ != "None"@);
            assert(n >= 8);
        }
        let middle = some.substring_char(6, n - 2);
        middle.to_owned()
    }
}

// ---------------------------------------------------------------------------
// Round trip
// ---------------------------------------------------------------------------

proof fn lemma_bool_field(b: bool)
    ensures
        line_ok(spec_render_bool(b)),
        spec_parse_bool(spec_render_bool(b)) == Option::Some(b),
{
    reveal_strlit("true");
    reveal_strlit("false");
    assert("true"@.len() == 4);
    assert("false"@.len() == 5);
    assert("true"@ != "false"@);
    if b {
        lemma_char_index_none("true"@, '\n');
    } else {
        lemma_char_index_none("false"@, '\n');
    }
}

proof fn lemma_opt_field(o: Option<Seq<char>>)
    requires
        opt_ok(o),
    ensures
        line_ok(spec_render_opt(o)),
        spec_parse_opt(spec_render_opt(o)) == Option::Some(o),
{
    reveal_strlit("None");
    reveal_strlit("Some(\"");
    reveal_strlit("\")");
    assert("None"@.len() == 4);
    assert("Some(\""@.len() == 6);
    assert("\")"@.len() == 2);
    match o {
        Option::None => {
            lemma_char_index_none("None"@, '\n');
        },
        Option::Some(v) => {
            let r = spec_render_opt(o);
            assert(r == "Some(\""@ + v + "\")"@);
            assert(r.len() == v.len() + 8);
            lemma_char_index_none("Some(\""@, '\n');
            lemma_char_index_none("\")"@, '\n');
            lemma_char_free_concat("Some(\""@, v, '\n');
            lemma_char_free_concat("Some(\""@ + v, "\")"@, '\n');
            assert(line_ok(r));
            assert(r != "None"@);
            assert(r.subrange(0, 6) =~= "Some(\""@);
            assert(r.subrange(r.len() - 2, r.len() as int) =~= "\")"@);
            assert(r.subrange(6, r.len() - 2) =~= v);
            assert(char_index(v, '"') is None);
        },
    }
}

proof fn lemma_u8_field(n: u8)
    ensures
        line_ok(dec_render(n as int)),
        spec_parse_u8(dec_render(n as int)) == Option::Some(n),
{
    lemma_dec_render_val(n as int);
    lemma_u8_round_trip(n);
    let r = dec_render(n as int);
    assert(forall|j: int| 0 <= j < r.len() ==> r[j] != '\n') by {
        assert(forall|j: int| 0 <= j < r.len() ==> is_digit(r[j]));
    }
    lemma_char_index_none(r, '\n');
}

proof fn lemma_fold_step(p: Seq<char>, nl: Seq<char>, f: Seq<char>, t: Seq<char>)
    ensures
        p + nl + f + nl + t == p + nl + (f + nl + t),
{
    assert(p + nl + f + nl + t =~= p + nl + (f + nl + t));
}

/// The nested right-to-left grouping of the rendered record, equal to the
/// flat rendering.
spec fn nested_fields(
    f0: Seq<char>,
    f1: Seq<char>,
    f2: Seq<char>,
    f3: Seq<char>,
    f4: Seq<char>,
    f5: Seq<char>,
    f6: Seq<char>,
    f7: Seq<char>,
    f8: Seq<char>,
    f9: Seq<char>,
) -> Seq<char> {
    f0 + "\n"@ + (f1 + "\n"@ + (f2 + "\n"@ + (f3 + "\n"@ + (f4 + "\n"@ + (f5 + "\n"@ + (f6 + "\n"@
        + (f7 + "\n"@ + (f8 + "\n"@ + f9))))))))
}

#[verifier::rlimit(100)]
proof fn lemma_flat_eq_nested(
    f0: Seq<char>,
    f1: Seq<char>,
    f2: Seq<char>,
    f3: Seq<char>,
    f4: Seq<char>,
    f5: Seq<char>,
    f6: Seq<char>,
    f7: Seq<char>,
    f8: Seq<char>,
    f9: Seq<char>,
)
    ensures
        f0 + "\n"@ + f1 + "\n"@ + f2 + "\n"@ + f3 + "\n"@ + f4 + "\n"@ + f5 + "\n"@ + f6 + "\n"@
            + f7 + "\n"@ + f8 + "\n"@ + f9 == nested_fields(f0, f1, f2, f3, f4, f5, f6, f7, f8, f9),
{
    let nl = "\n"@;
    let t9 = f9;
    let t8 = f8 + nl + t9;
    let t7 = f7 + nl + t8;
    let t6 = f6 + nl + t7;
    let t5 = f5 + nl + t6;
    let t4 = f4 + nl + t5;
    let t3 = f3 + nl + t4;
    let t2 = f2 + nl + t3;
    let t1 = f1 + nl + t2;
    let p1 = f0 + nl + f1;
    let p2 = p1 + nl + f2;
    let p3 = p2 + nl + f3;
    let p4 = p3 + nl + f4;
    let p5 = p4 + nl + f5;
    let p6 = p5 + nl + f6;
    let p7 = p6 + nl + f7;
    lemma_fold_step(p7, nl, f8, t9);
    lemma_fold_step(p6, nl, f7, t8);
    lemma_fold_step(p5, nl, f6, t7);
    lemma_fold_step(p4, nl, f5, t6);
    lemma_fold_step(p3, nl, f4, t5);
    lemma_fold_step(p2, nl, f3, t4);
    lemma_fold_step(p1, nl, f2, t3);
    lemma_fold_step(f0, nl, f1, t2);
}

#[verifier::rlimit(100)]
proof fn lemma_split_nested(
    f0: Seq<char>,
    f1: Seq<char>,
    f2: Seq<char>,
    f3: Seq<char>,
    f4: Seq<char>,
    f5: Seq<char>,
    f6: Seq<char>,
    f7: Seq<char>,
    f8: Seq<char>,
    f9: Seq<char>,
)
    requires
        line_ok(f0),
        line_ok(f1),
        line_ok(f2),
        line_ok(f3),
        line_ok(f4),
        line_ok(f5),
        line_ok(f6),
        line_ok(f7),
        line_ok(f8),
        line_ok(f9),
    ensures
        split_on(nested_fields(f0, f1, f2, f3, f4, f5, f6, f7, f8, f9), '\n') == seq![
            f0,
            f1,
            f2,
            f3,
            f4,
            f5,
            f6,
            f7,
            f8,
            f9,
        ],
{
    reveal_strlit("\n");
    assert("\n"@ =~= seq!['\n']);
    let nl = "\n"@;
    let t9 = f9;
    let t8 = f8 + nl + t9;
    let t7 = f7 + nl + t8;
    let t6 = f6 + nl + t7;
    let t5 = f5 + nl + t6;
    let t4 = f4 + nl + t5;
    let t3 = f3 + nl + t4;
    let t2 = f2 + nl + t3;
    let t1 = f1 + nl + t2;
    let t0 = f0 + nl + t1;
    lemma_split_on_whole(t9, '\n');
    lemma_split_on_prepend(f8, t9, '\n');
    lemma_split_on_prepend(f7, t8, '\n');
    lemma_split_on_prepend(f6, t7, '\n');
    lemma_split_on_prepend(f5, t6, '\n');
    lemma_split_on_prepend(f4, t5, '\n');
    lemma_split_on_prepend(f3, t4, '\n');
    lemma_split_on_prepend(f2, t3, '\n');
    lemma_split_on_prepend(f1, t2, '\n');
    lemma_split_on_prepend(f0, t1, '\n');
    assert(split_on(t0, '\n') =~= seq![f0, f1, f2, f3, f4, f5, f6, f7, f8, f9]);
}

/// Persisting and reloading a well-formed state yields the state back,
/// every field unchanged.
#[verifier::rlimit(100)]
pub proof fn lemma_config_round_trip(c: ConfigV)
    requires
        c.strings_wf(),
    ensures
        spec_parse_config(spec_render_config(c)) == Option::Some(c),
{
    let f0 = spec_render_bool(c.uefi_install);
    let f1 = spec_render_opt(c.uefi_partition);
    let f2 = spec_render_opt(c.boot_partition);
    let f3 = c.root_partition;
    let f4 = spec_render_opt(c.home_partition);
    let f5 = c.username;
    let f6 = spec_render_bool(c.encrypted_partitions);
    let f7 = spec_render_opt(c.swap_partition);
    let f8 = dec_render(c.current_step as int);
    let f9 = dec_render(c.total_steps as int);
    lemma_bool_field(c.uefi_install);
    lemma_bool_field(c.encrypted_partitions);
    lemma_opt_field(c.uefi_partition);
    lemma_opt_field(c.boot_partition);
    lemma_opt_field(c.home_partition);
    lemma_opt_field(c.swap_partition);
    lemma_u8_field(c.current_step);
    lemma_u8_field(c.total_steps);
    lemma_flat_eq_nested(f0, f1, f2, f3, f4, f5, f6, f7, f8, f9);
    lemma_split_nested(f0, f1, f2, f3, f4, f5, f6, f7, f8, f9);
    let parts = split_on(spec_render_config(c), '\n');
    assert(parts == seq![f0, f1, f2, f3, f4, f5, f6, f7, f8, f9]);
    assert(parts.len() == 10);
    assert(spec_parse_fields(parts) == Option::Some(c));
}

} // verus!
