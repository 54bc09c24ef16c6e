//! Interpretation of operator answers.  The driver owns the terminal; this
//! module owns the meaning of what was typed: yes/no recognition and
//! 1-based menu selection, both re-asked by the driver until recognized.

use vstd::prelude::*;
use vstd::string::StrSliceExecFns;
use crate::strutil::{spec_parse_u8, parse_u8};

verus! {

/// Recognition of a yes/no answer: `y`/`Y` and `n`/`N`, nothing else.
pub open spec fn spec_yes_no(s: Seq<char>) -> Option<bool> {
    if s == seq!['y'] || s == seq!['Y'] {
        Option::Some(true)
    } else if s == seq!['n'] || s == seq!['N'] {
        Option::Some(false)
    } else {
        Option::None
    }
}

/// Recognition of a menu selection: a decimal number between 1 and
/// `choice_count`.
pub open spec fn spec_selection(s: Seq<char>, choice_count: u8) -> Option<u8> {
    match spec_parse_u8(s) {
        Option::Some(v) => if 1 <= v && v <= choice_count {
            Option::Some(v)
        } else {
            Option::None
        },
        Option::None => Option::None,
    }
}

/// The operator's most recent trimmed answer, as read by the driver.
pub struct Question {
    pub answer: String,
}

impl Question {
    pub fn new() -> (r: Question)
        ensures
            r.answer@ == Seq::<char>::empty(),
    {
        Question { answer: String::new() }
    }

    /// Interpret the current answer as a yes/no reply.  `None` means the
    /// answer was not recognized and must be asked again.
    pub fn bool_ask(&self) -> (r: Option<bool>)
        ensures
            r == spec_yes_no(self.answer@),
    {
        let n = self.answer.as_str().unicode_len();
        if n != 1 {
            proof {
                assert(self.answer@ != seq!['y']);
                assert(self.answer@ != seq!['Y']);
                assert(self.answer@ != seq!['n']);
                assert(self.answer@ != seq!['N']);
            }
            return None;
        }
        let c = self.answer.as_str().get_char(0);
        proof {
            assert(self.answer@ =~= seq![self.answer@[0]]);
        }
        match c {
            'y' => Some(true),
            'Y' => Some(true),
            'n' => Some(false),
            'N' => Some(false),
            _ => None,
        }
    }

    /// Interpret the current answer as a selection out of `choice_count`
    /// offered options.  `None` means the answer was not a valid 1-based
    /// index and must be asked again.
    pub fn selecting_ask(&self, choice_count: u8) -> (r: Option<u8>)
        ensures
            r == spec_selection(self.answer@, choice_count),
    {
        match parse_u8(self.answer.as_str()) {
            Some(v) => {
                if 1 <= v && v <= choice_count {
                    Some(v)
                } else {
                    None
                }
            },
            None => None,
        }
    }
}

} // verus!
