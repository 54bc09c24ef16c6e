//! The provisioning state: the single mutable record of operator answers,
//! resolved flags and installation progress, together with its mathematical
//! view.

use vstd::prelude::*;
use crate::strutil::char_index;

verus! {

/// Number of steps in the configured installation catalogue.
pub const INSTALLATION_STEPS_COUNT: u8 = 34;

/// The mutable record describing installation progress and choices.
///
/// `current_installation_step` is the 1-based index of the next step to
/// execute; partitions other than root are optional, and the UEFI partition
/// is recorded exactly when the firmware mode is UEFI.
pub struct AppConfig {
    pub uefi_install: bool,
    pub uefi_partition: Option<String>,
    pub boot_partition: Option<String>,
    pub root_partition: String,
    pub home_partition: Option<String>,
    pub username: String,
    pub encrypted_partitions: bool,
    pub swap_partition: Option<String>,
    pub current_installation_step: u8,
    pub total_installation_steps: u8,
}

/// Mathematical view of `AppConfig`: every string becomes a `Seq<char>`.
pub struct ConfigV {
    pub uefi_install: bool,
    pub uefi_partition: Option<Seq<char>>,
    pub boot_partition: Option<Seq<char>>,
    pub root_partition: Seq<char>,
    pub home_partition: Option<Seq<char>>,
    pub username: Seq<char>,
    pub encrypted_partitions: bool,
    pub swap_partition: Option<Seq<char>>,
    pub current_step: u8,
    pub total_steps: u8,
}

pub open spec fn opt_view(o: Option<String>) -> Option<Seq<char>> {
    match o {
        Option::None => Option::None,
        Option::Some(s) => Option::Some(s@),
    }
}

impl View for AppConfig {
    type V = ConfigV;

    open spec fn view(&self) -> ConfigV {
        ConfigV {
            uefi_install: self.uefi_install,
            uefi_partition: opt_view(self.uefi_partition),
            boot_partition: opt_view(self.boot_partition),
            root_partition: self.root_partition@,
            home_partition: opt_view(self.home_partition),
            username: self.username@,
            encrypted_partitions: self.encrypted_partitions,
            swap_partition: opt_view(self.swap_partition),
            current_step: self.current_installation_step,
            total_steps: self.total_installation_steps,
        }
    }
}

/// A string that fits on one line of the persisted record.
pub open spec fn line_ok(s: Seq<char>) -> bool {
    char_index(s, '\n') is None
}

/// A string that can be carried inside the quoted optional-value encoding.
pub open spec fn quoted_ok(s: Seq<char>) -> bool {
    line_ok(s) && char_index(s, '"') is None
}

pub open spec fn opt_ok(o: Option<Seq<char>>) -> bool {
    match o {
        Option::None => true,
        Option::Some(v) => quoted_ok(v),
    }
}

impl ConfigV {
    /// The fresh state: defaults everywhere, next step 1.
    pub open spec fn init(total_steps: u8) -> ConfigV {
        ConfigV {
            uefi_install: false,
            uefi_partition: Option::None,
            boot_partition: Option::None,
            root_partition: Seq::empty(),
            home_partition: Option::None,
            username: Seq::empty(),
            encrypted_partitions: false,
            swap_partition: Option::None,
            current_step: 1,
            total_steps: total_steps,
        }
    }

    /// Every collected string can survive the line-oriented persisted
    /// encoding.
    pub open spec fn strings_wf(self) -> bool {
        &&& line_ok(self.root_partition)
        &&& line_ok(self.username)
        &&& opt_ok(self.uefi_partition)
        &&& opt_ok(self.boot_partition)
        &&& opt_ok(self.home_partition)
        &&& opt_ok(self.swap_partition)
    }

    /// The step index is 1-based.
    pub open spec fn step_wf(self) -> bool {
        1 <= self.current_step
    }

    pub open spec fn wf(self) -> bool {
        self.strings_wf() && self.step_wf()
    }
}

impl AppConfig {
    /// A fresh state for a catalogue of `total_installation_steps` steps.
    pub fn new(total_installation_steps: u8) -> (r: AppConfig)
        ensures
            r@ == ConfigV::init(total_installation_steps),
            r@.wf(),
    {
        let r = AppConfig {
            uefi_install: false,
            uefi_partition: None,
            boot_partition: None,
            root_partition: String::new(),
            home_partition: None,
            username: String::new(),
            encrypted_partitions: false,
            swap_partition: None,
            current_installation_step: 1,
            total_installation_steps,
        };
        proof {
            assert(r@ == ConfigV::init(total_installation_steps));
        }
        r
    }

    /// Discard every collected answer and return to step 1, keeping only
    /// the catalogue size.  Declining to resume is thereby the same as a
    /// fresh run.
    pub fn reset(&mut self)
        ensures
            final(self)@ == ConfigV::init(old(self)@.total_steps),
            final(self)@.wf(),
    {
        self.uefi_install = false;
        self.uefi_partition = None;
        self.boot_partition = None;
        self.root_partition = String::new();
        self.home_partition = None;
        self.username = String::new();
        self.encrypted_partitions = false;
        self.swap_partition = None;
        self.current_installation_step = 1;
        proof {
            assert(self@ == ConfigV::init(self@.total_steps));
        }
    }

    /// Record that the step at `current_installation_step` completed:
    /// progress advances by one and nothing else changes.
    pub fn advance(&mut self)
        requires
            old(self)@.current_step < u8::MAX,
        ensures
            final(self)@ == (ConfigV { current_step: (old(self)@.current_step + 1) as u8, ..old(self)@ }),
    {
        self.current_installation_step = self.current_installation_step + 1;
    }
}

} // verus!
