//! Rendering of the installer's text banners and progress reports.  Every
//! function returns the exact text; the driver owns printing and coloring.

use vstd::prelude::*;
use vstd::string::StrSliceExecFns;
use vstd::string::StringExecFns;
use crate::config::{AppConfig, ConfigV};
use crate::strutil::{repeat_seq, repeat_str, dec_render, render_u8, lemma_dec_render_len};

verus! {

/// Width of a banner line, in characters.
pub const MAX_LINE_LENGTH: u8 = 64;

/// The banner shapes used by the installer.
pub enum PrintFormat {
    Bordered,
    DoubleDashedLine,
    DashedLine,
}

/// How a completed or failed operation is reported.
pub enum OperationResult {
    Done,
    Error,
}

pub open spec fn fill_seq(format: PrintFormat) -> Seq<char> {
    match format {
        PrintFormat::Bordered => " "@,
        PrintFormat::DoubleDashedLine => "="@,
        PrintFormat::DashedLine => "-"@,
    }
}

/// The exact text of a banner: the given text centred in a 64-column line,
/// padded with the shape's fill, framed according to the shape.
pub open spec fn spec_formatted_text(text: Seq<char>, format: PrintFormat) -> Seq<char> {
    let remaining = 64 - text.len();
    let ind = (remaining - 1) / 2;
    let fs = repeat_seq(fill_seq(format), (ind - 2) as nat);
    let empty = repeat_seq(" "@, 62);
    match format {
        PrintFormat::Bordered => {
            let full = repeat_seq("="@, 64);
            if remaining % 2 == 0 {
                full + "\n|"@ + empty + "|\n| "@ + fs + " "@ + text + " "@ + fs + " |\n|"@ + empty
                    + "|\n"@ + full + "\n"@
            } else {
                full + "\n|"@ + empty + "|\n|"@ + fs + " "@ + text + " "@ + fs + " |\n|"@ + empty
                    + "|\n"@ + full + "\n"@
            }
        },
        PrintFormat::DoubleDashedLine => {
            if remaining % 2 == 0 {
                " "@ + empty + " \n=="@ + fs + " "@ + text + " "@ + fs + "==\n "@ + empty + " \n"@
            } else {
                " "@ + empty + " \n="@ + fs + " "@ + text + " "@ + fs + "==\n "@ + empty + " \n"@
            }
        },
        PrintFormat::DashedLine => {
            if remaining % 2 == 0 {
                " "@ + empty + " \n--"@ + fs + " "@ + text + " "@ + fs + "--\n "@ + empty + " \n"@
            } else {
                " "@ + empty + " \n-"@ + fs + " "@ + text + " "@ + fs + "--\n "@ + empty + " \n"@
            }
        },
    }
}

fn fill_str(format: &PrintFormat) -> (r: &'static str)
    ensures
        r@ == fill_seq(*format),
        r@.len() == 1,
{
    proof {
        reveal_strlit(" ");
        reveal_strlit("=");
        reveal_strlit("-");
    }
    match format {
        PrintFormat::Bordered => " ",
        PrintFormat::DoubleDashedLine => "=",
        PrintFormat::DashedLine => "-",
    }
}

/// Render a banner of the given shape around `text`.
pub fn formatted_text(text: &str, format: PrintFormat) -> (r: String)
    requires
        text@.len() <= 59,
    ensures
        r@ == spec_formatted_text(text@, format),
{
    proof {
        reveal_strlit(" ");
        reveal_strlit("=");
    }
    let len = text.unicode_len();
    let remaining: usize = 64 - len;
    let ind: usize = (remaining - 1) / 2;
    let fs = repeat_str(fill_str(&format), ind - 2);
    let empty = repeat_str(" ", 62);
    let mut out = String::new();
    match format {
        PrintFormat::Bordered => {
            let full = repeat_str("=", 64);
            out.append(full.as_str());
            out.append("\n|");
            out.append(empty.as_str());
            if remaining % 2 == 0 {
                out.append("|\n| ");
            } else {
                out.append("|\n|");
            }
            out.append(fs.as_str());
            out.append(" ");
            out.append(text);
            out.append(" ");
            out.append(fs.as_str());
            out.append(" |\n|");
            out.append(empty.as_str());
            out.append("|\n");
            out.append(full.as_str());
            out.append("\n");
        },
        PrintFormat::DoubleDashedLine => {
            out.append(" ");
            out.append(empty.as_str());
            if remaining % 2 == 0 {
                out.append(" \n==");
            } else {
                out.append(" \n=");
            }
            out.append(fs.as_str());
            out.append(" ");
            out.append(text);
            out.append(" ");
            out.append(fs.as_str());
            out.append("==\n ");
            out.append(empty.as_str());
            out.append(" \n");
        },
        PrintFormat::DashedLine => {
            out.append(" ");
            out.append(empty.as_str());
            if remaining % 2 == 0 {
                out.append(" \n--");
            } else {
                out.append(" \n-");
            }
            out.append(fs.as_str());
            out.append(" ");
            out.append(text);
            out.append(" ");
            out.append(fs.as_str());
            out.append("--\n ");
            out.append(empty.as_str());
            out.append(" \n");
        },
    }
    out
}

/// The text reporting that an operation finished or failed: the word framed
/// by a dashed-line banner.
pub open spec fn spec_operation_result_text(operation_result: OperationResult) -> Seq<char> {
    match operation_result {
        OperationResult::Done => spec_formatted_text("Done"@, PrintFormat::DashedLine),
        OperationResult::Error => spec_formatted_text("Error"@, PrintFormat::DashedLine),
    }
}

/// Render the operation-outcome banner shown after each step.
pub fn print_operation_result(operation_result: OperationResult) -> (r: String)
    ensures
        r@ == spec_operation_result_text(operation_result),
{
    proof {
        reveal_strlit("Done");
        reveal_strlit("Error");
    }
    match operation_result {
        OperationResult::Done => formatted_text("Done", PrintFormat::DashedLine),
        OperationResult::Error => formatted_text("Error", PrintFormat::DashedLine),
    }
}

/// The progress fraction and truncated percentage, as shown in the step
/// banner: `current/total | percent`.
pub open spec fn spec_percentage_text(current: u8, total: u8) -> Seq<char> {
    dec_render(current as int) + "/"@ + dec_render(total as int) + " | "@ + dec_render(
        (current as int) * 100 / (total as int),
    )
}

fn percentage_text(current: u8, total: u8) -> (r: String)
    requires
        1 <= total,
        current <= total,
    ensures
        r@ == spec_percentage_text(current, total),
        r@.len() <= 13,
{
    let p32: u32 = (current as u32) * 100 / (total as u32);
    proof {
        reveal_strlit("/");
        reveal_strlit(" | ");
        assert((current as int) * 100 / (total as int) <= 100) by (nonlinear_arith)
            requires
                1 <= total as int,
                current as int <= total as int,
        ;
        lemma_dec_render_len(current as int);
        lemma_dec_render_len(total as int);
        lemma_dec_render_len((current as int) * 100 / (total as int));
        assert((current as int) * 100 >= 0) by (nonlinear_arith)
            requires
                current as int >= 0,
        ;
    }
    let pct = p32 as u8;
    let mut out = render_u8(current);
    out.append("/");
    let t = render_u8(total);
    out.append(t.as_str());
    out.append(" | ");
    let p = render_u8(pct);
    out.append(p.as_str());
    out
}

/// The banner announcing a step: its title centred between dashes, an empty
/// bordered line, then the progress fraction and percentage.
pub open spec fn spec_status_text(c: ConfigV, title: Seq<char>) -> Seq<char> {
    let remaining = 64 - title.len();
    let ind = (remaining - 1) / 2;
    let fs = repeat_seq("-"@, (ind - 1) as nat);
    let empty = repeat_seq(" "@, 62);
    let head = if remaining % 2 == 0 {
        "\n-"@
    } else {
        "\n"@
    };
    let pct = spec_percentage_text(c.current_step, c.total_steps);
    let remaining2 = 64 - pct.len();
    let ind2 = (remaining2 - 1) / 2;
    let fs2 = repeat_seq("-"@, (ind2 - 3) as nat);
    let tail = if remaining2 % 2 == 0 {
        "-\n\n"@
    } else {
        "\n\n"@
    };
    head + fs + " "@ + title + " "@ + fs + "-\n|"@ + empty + "|\n"@ + fs2 + "> ["@ + pct + "%] <"@
        + fs2 + tail
}

/// Render the banner announcing the step named `title`.
pub fn installation_status_text(c: &AppConfig, title: &str) -> (r: String)
    requires
        title@.len() <= 61,
        1 <= c@.total_steps,
        c@.current_step <= c@.total_steps,
    ensures
        r@ == spec_status_text(c@, title@),
{
    proof {
        reveal_strlit("-");
        reveal_strlit(" ");
    }
    let len = title.unicode_len();
    let remaining: usize = 64 - len;
    let ind: usize = (remaining - 1) / 2;
    let fs = repeat_str("-", ind - 1);
    let empty = repeat_str(" ", 62);
    let mut out = String::new();
    if remaining % 2 == 0 {
        out.append("\n-");
    } else {
        out.append("\n");
    }
    out.append(fs.as_str());
    out.append(" ");
    out.append(title);
    out.append(" ");
    out.append(fs.as_str());
    out.append("-\n|");
    out.append(empty.as_str());
    out.append("|\n");
    let pct = percentage_text(c.current_installation_step, c.total_installation_steps);
    let pct_len = pct.as_str().unicode_len();
    let remaining2: usize = 64 - pct_len;
    let ind2: usize = (remaining2 - 1) / 2;
    let fs2 = repeat_str("-", ind2 - 3);
    out.append(fs2.as_str());
    out.append("> [");
    out.append(pct.as_str());
    out.append("%] <");
    out.append(fs2.as_str());
    if remaining2 % 2 == 0 {
        out.append("-\n\n");
    } else {
        out.append("\n\n");
    }
    out
}

} // verus!
