//! The step catalogue: what each of the 34 installation steps asks, which
//! state fields it records, which external actions it performs, and how it
//! reacts to a failed command.

use vstd::prelude::*;
use vstd::string::StringExecFns;
use crate::config::{AppConfig, ConfigV, opt_view};
use crate::strutil::{
    char_index, find_char, split_on, spec_first_token, first_token, split_str,
    lemma_split_on_step, lemma_split_on_whole,
};
use crate::extract::{
    spec_first_match, first_matching_line, spec_find_identifier, find_identifier,
};
use crate::plan::{
    Action, ActionV, Command, plan_view, runv, capturev, patchv, writev, appendv, rv,
    run_action, run0, run1, run2, run3, run4, run5, patch1, patch2, patch3, write_action,
    append_action, dev_path,
};
use crate::patcher::{Replacement, ReplacementV};

verus! {

/// The operator's answers feeding one step, gathered by the driver before
/// the step's actions are planned.
pub enum StepInput {
    /// The step asks nothing.
    NoInput,
    /// Installation mode: UEFI or BIOS.
    Mode { uefi: bool },
    /// Whether root and home partitions are to be encrypted.
    Encrypt { enabled: bool },
    /// The disk to partition.
    Disk { name: String },
    /// The recorded partition names; the UEFI name is present exactly when
    /// the firmware mode is UEFI.
    PartitionNames { root: String, boot: Option<String>, uefi: Option<String>, home: Option<String> },
    /// Which present partitions the operator chose to format.
    FormatChoices { root: bool, boot: bool, uefi: bool, home: bool },
    /// The swap partition to enable, if any.
    SwapChoice { name: Option<String> },
    /// The mirror country.
    Country { name: String },
    /// The CPU brand for the microcode package.
    Cpu { brand: String },
    /// The time zone, continent/city.
    TimeZone { zone: String },
    /// The host name.
    HostName { name: String },
    /// The name of the user to create.
    NewUser { name: String },
    /// Under BIOS, the disk for the bootloader; absent under UEFI.
    GrubDisk { disk: Option<String> },
    /// Whether another operating system lives alongside this one.
    Windows { alongside: bool },
    /// Which GPU drivers to configure.
    Gpu { nvidia: bool, intel: bool },
}

/// Mathematical view of a step input.
pub enum InputV {
    NoInput,
    Mode { uefi: bool },
    Encrypt { enabled: bool },
    Disk { name: Seq<char> },
    PartitionNames {
        root: Seq<char>,
        boot: Option<Seq<char>>,
        uefi: Option<Seq<char>>,
        home: Option<Seq<char>>,
    },
    FormatChoices { root: bool, boot: bool, uefi: bool, home: bool },
    SwapChoice { name: Option<Seq<char>> },
    Country { name: Seq<char> },
    Cpu { brand: Seq<char> },
    TimeZone { zone: Seq<char> },
    HostName { name: Seq<char> },
    NewUser { name: Seq<char> },
    GrubDisk { disk: Option<Seq<char>> },
    Windows { alongside: bool },
    Gpu { nvidia: bool, intel: bool },
}

impl View for StepInput {
    type V = InputV;

    open spec fn view(&self) -> InputV {
        match self {
            StepInput::NoInput => InputV::NoInput,
            StepInput::Mode { uefi } => InputV::Mode { uefi: *uefi },
            StepInput::Encrypt { enabled } => InputV::Encrypt { enabled: *enabled },
            StepInput::Disk { name } => InputV::Disk { name: name@ },
            StepInput::PartitionNames { root, boot, uefi, home } => InputV::PartitionNames {
                root: root@,
                boot: opt_view(*boot),
                uefi: opt_view(*uefi),
                home: opt_view(*home),
            },
            StepInput::FormatChoices { root, boot, uefi, home } => InputV::FormatChoices {
                root: *root,
                boot: *boot,
                uefi: *uefi,
                home: *home,
            },
            StepInput::SwapChoice { name } => InputV::SwapChoice { name: opt_view(*name) },
            StepInput::Country { name } => InputV::Country { name: name@ },
            StepInput::Cpu { brand } => InputV::Cpu { brand: brand@ },
            StepInput::TimeZone { zone } => InputV::TimeZone { zone: zone@ },
            StepInput::HostName { name } => InputV::HostName { name: name@ },
            StepInput::NewUser { name } => InputV::NewUser { name: name@ },
            StepInput::GrubDisk { disk } => InputV::GrubDisk { disk: opt_view(*disk) },
            StepInput::Windows { alongside } => InputV::Windows { alongside: *alongside },
            StepInput::Gpu { nvidia, intel } => InputV::Gpu { nvidia: *nvidia, intel: *intel },
        }
    }
}

impl DeepView for StepInput {
    type V = InputV;

    open spec fn deep_view(&self) -> InputV {
        self.view()
    }
}

/// Captured texts a few steps plan against: a device listing for the
/// encrypted-volume steps, the filesystem table for the encrypted-swap
/// step.
pub struct StepEnv {
    pub listing: Option<String>,
    pub fstab: Option<String>,
}

/// Mathematical view of the captured environment.
pub struct EnvV {
    pub listing: Option<Seq<char>>,
    pub fstab: Option<Seq<char>>,
}

impl View for StepEnv {
    type V = EnvV;

    open spec fn view(&self) -> EnvV {
        EnvV { listing: opt_view(self.listing), fstab: opt_view(self.fstab) }
    }
}

impl StepEnv {
    /// The environment for steps that capture nothing.
    pub fn none() -> (r: StepEnv)
        ensures
            r@ == (EnvV { listing: Option::None, fstab: Option::None }),
    {
        StepEnv { listing: None, fstab: None }
    }
}

/// How a step reacts when one of its commands fails.
#[derive(Clone, Copy, PartialEq, Eq, Structural, Debug)]
pub enum Policy {
    /// The failure aborts the run at once.
    Fatal,
    /// The operator may re-run the whole step, with fresh input.
    RetryAsk,
    /// The operator may accept the failure and let the step count as done.
    ContinueAsk,
}

// ---------------------------------------------------------------------------
// Which input shape each step takes
// ---------------------------------------------------------------------------

/// The input shape the catalogue expects at `step`.  A mismatch is a
/// driver programming error and fails the run fatally.
pub open spec fn spec_input_fits(c: ConfigV, step: u8, i: InputV) -> bool {
    if step == 1 {
        i is Mode
    } else if step == 2 {
        i is Encrypt
    } else if step == 4 {
        i is Disk
    } else if step == 5 {
        i matches InputV::PartitionNames { uefi, .. } && (uefi is Some <==> c.uefi_install)
    } else if step == 6 {
        i is FormatChoices
    } else if step == 7 {
        i is SwapChoice
    } else if step == 9 {
        i is Country
    } else if step == 11 {
        i is Cpu
    } else if step == 15 {
        i is TimeZone
    } else if step == 18 || step == 19 {
        i is HostName
    } else if step == 21 {
        i is NewUser
    } else if step == 25 {
        i matches InputV::GrubDisk { disk } && (disk is None <==> c.uefi_install)
    } else if step == 26 {
        i is Windows
    } else if step == 27 {
        i is Gpu
    } else if 1 <= step <= 34 {
        i is NoInput
    } else {
        false
    }
}

/// Step-local validation of operator input; a failure here is re-asked,
/// the driver prompting again until satisfied or declined.
pub open spec fn spec_input_valid(c: ConfigV, step: u8, i: InputV) -> bool {
    if step == 5 {
        i matches InputV::PartitionNames { root, .. } ==> root.len() > 0
    } else if step == 15 {
        i matches InputV::TimeZone { zone } ==> char_index(zone, '/') is Some
    } else if step == 21 {
        i matches InputV::NewUser { name } ==> name.len() > 0
    } else {
        true
    }
}

/// Does this input have the shape the catalogue expects at `step`?
pub fn input_fits(c: &AppConfig, step: u8, input: &StepInput) -> (r: bool)
    ensures
        r == spec_input_fits(c@, step, input@),
{
    if step == 1 {
        matches!(input, StepInput::Mode { .. })
    } else if step == 2 {
        matches!(input, StepInput::Encrypt { .. })
    } else if step == 4 {
        matches!(input, StepInput::Disk { .. })
    } else if step == 5 {
        match input {
            StepInput::PartitionNames { uefi, .. } => uefi.is_some() == c.uefi_install,
            _ => false,
        }
    } else if step == 6 {
        matches!(input, StepInput::FormatChoices { .. })
    } else if step == 7 {
        matches!(input, StepInput::SwapChoice { .. })
    } else if step == 9 {
        matches!(input, StepInput::Country { .. })
    } else if step == 11 {
        matches!(input, StepInput::Cpu { .. })
    } else if step == 15 {
        matches!(input, StepInput::TimeZone { .. })
    } else if step == 18 || step == 19 {
        matches!(input, StepInput::HostName { .. })
    } else if step == 21 {
        matches!(input, StepInput::NewUser { .. })
    } else if step == 25 {
        match input {
            StepInput::GrubDisk { disk } => disk.is_none() == c.uefi_install,
            _ => false,
        }
    } else if step == 26 {
        matches!(input, StepInput::Windows { .. })
    } else if step == 27 {
        matches!(input, StepInput::Gpu { .. })
    } else if 1 <= step && step <= 34 {
        matches!(input, StepInput::NoInput)
    } else {
        false
    }
}

/// Does this input pass the step's local validation rule?
pub fn input_valid(c: &AppConfig, step: u8, input: &StepInput) -> (r: bool)
    ensures
        r == spec_input_valid(c@, step, input@),
{
    if step == 5 {
        match input {
            StepInput::PartitionNames { root, .. } => !root.as_str().is_empty(),
            _ => true,
        }
    } else if step == 15 {
        match input {
            StepInput::TimeZone { zone } => find_char(zone.as_str(), '/').is_some(),
            _ => true,
        }
    } else if step == 21 {
        match input {
            StepInput::NewUser { name } => !name.as_str().is_empty(),
            _ => true,
        }
    } else {
        true
    }
}

// ---------------------------------------------------------------------------
// Failure policy and captured environment
// ---------------------------------------------------------------------------

/// The retry-or-abort policy of each step.  The password and user-creation
/// steps offer a retry; the initramfs rebuild may be accepted as failed;
/// every other command failure is fatal at once.
pub open spec fn spec_step_policy(step: u8) -> Policy {
    if step == 20 || step == 21 || step == 22 {
        Policy::RetryAsk
    } else if step == 27 {
        Policy::ContinueAsk
    } else {
        Policy::Fatal
    }
}

pub fn step_policy(step: u8) -> (p: Policy)
    ensures
        p == spec_step_policy(step),
{
    if step == 20 || step == 21 || step == 22 {
        Policy::RetryAsk
    } else if step == 27 {
        Policy::ContinueAsk
    } else {
        Policy::Fatal
    }
}

/// What the driver must capture before planning `step`: whether a device
/// listing is needed, and whether the filesystem table is needed.
pub fn step_env_needs(c: &AppConfig, step: u8) -> (r: (bool, bool))
    ensures
        r.0 == (step == 26 && c@.encrypted_partitions || step == 29 && c@.encrypted_partitions
            && c@.home_partition is Some),
        r.1 == (step == 13 && c@.encrypted_partitions && c@.swap_partition is Some),
{
    let listing = step == 26 && c.encrypted_partitions || step == 29 && c.encrypted_partitions
        && c.home_partition.is_some();
    let fstab = step == 13 && c.encrypted_partitions && c.swap_partition.is_some();
    (listing, fstab)
}

// ---------------------------------------------------------------------------
// State recording
// ---------------------------------------------------------------------------

/// How a successfully completed step records its answers in the state.
/// Only the mode, encryption, partition-naming, swap and user-creation
/// steps write fields; every other step leaves the state unchanged.
pub open spec fn spec_apply_step(c: ConfigV, step: u8, i: InputV) -> ConfigV {
    if step == 1 {
        match i {
            InputV::Mode { uefi } => ConfigV { uefi_install: uefi, ..c },
            _ => c,
        }
    } else if step == 2 {
        match i {
            InputV::Encrypt { enabled } => ConfigV { encrypted_partitions: enabled, ..c },
            _ => c,
        }
    } else if step == 5 {
        match i {
            InputV::PartitionNames { root, boot, uefi, home } => ConfigV {
                root_partition: root,
                boot_partition: boot,
                uefi_partition: uefi,
                home_partition: home,
                ..c
            },
            _ => c,
        }
    } else if step == 7 {
        match i {
            InputV::SwapChoice { name } => ConfigV { swap_partition: name, ..c },
            _ => c,
        }
    } else if step == 21 {
        match i {
            InputV::NewUser { name } => ConfigV { username: name, ..c },
            _ => c,
        }
    } else {
        c
    }
}

/// Record a completed step's answers in the state.
pub fn apply_step(c: &mut AppConfig, step: u8, input: &StepInput)
    ensures
        final(c)@ == spec_apply_step(old(c)@, step, input@),
{
    if step == 1 {
        match input {
            StepInput::Mode { uefi } => {
                c.uefi_install = *uefi;
            },
            _ => {},
        }
    } else if step == 2 {
        match input {
            StepInput::Encrypt { enabled } => {
                c.encrypted_partitions = *enabled;
            },
            _ => {},
        }
    } else if step == 5 {
        match input {
            StepInput::PartitionNames { root, boot, uefi, home } => {
                c.root_partition = root.clone();
                c.boot_partition = clone_opt(boot);
                c.uefi_partition = clone_opt(uefi);
                c.home_partition = clone_opt(home);
            },
            _ => {},
        }
    } else if step == 7 {
        match input {
            StepInput::SwapChoice { name } => {
                c.swap_partition = clone_opt(name);
            },
            _ => {},
        }
    } else if step == 21 {
        match input {
            StepInput::NewUser { name } => {
                c.username = name.clone();
            },
            _ => {},
        }
    }
}

/// Clone an optional string, keeping its view.
pub fn clone_opt(o: &Option<String>) -> (r: Option<String>)
    ensures
        opt_view(r) == opt_view(*o),
{
    match o {
        None => None,
        Some(s) => Some(s.clone()),
    }
}

// ---------------------------------------------------------------------------
// The plans: steps 1 to 12
// ---------------------------------------------------------------------------

/// Actions shown before the step's questions: only the partitioning step
/// lists the disks first, so the operator can answer by what was shown.
pub open spec fn spec_pre_plan(step: u8) -> Seq<ActionV> {
    if step == 4 {
        seq![runv("fdisk"@, seq!["-l"@])]
    } else {
        Seq::empty()
    }
}

/// The actions the driver performs before asking the step's questions.
pub fn step_pre_plan(step: u8) -> (r: Vec<Action>)
    ensures
        plan_view(r@) == spec_pre_plan(step),
{
    let mut v: Vec<Action> = Vec::new();
    if step == 4 {
        v.push(run1("fdisk", "-l"));
        proof {
            assert(plan_view(v@) =~= spec_pre_plan(step));
        }
    } else {
        proof {
            assert(plan_view(v@) =~= spec_pre_plan(step));
        }
    }
    v
}

pub open spec fn spec_plan_3() -> Seq<ActionV> {
    seq![
        runv("timedatectl"@, seq!["set-ntp"@, "true"@]),
        runv("timedatectl"@, seq!["status"@]),
    ]
}

fn plan_step_3() -> (r: Vec<Action>)
    ensures
        plan_view(r@) == spec_plan_3(),
{
    let mut v: Vec<Action> = Vec::new();
    v.push(run2("timedatectl", "set-ntp", "true"));
    v.push(run1("timedatectl", "status"));
    proof {
        assert(plan_view(v@) =~= spec_plan_3());
    }
    v
}

pub open spec fn spec_plan_4(disk: Seq<char>) -> Seq<ActionV> {
    seq![runv("fdisk"@, seq!["/dev/"@ + disk]), runv("lsblk"@, Seq::empty())]
}

fn plan_step_4(disk: &str) -> (r: Vec<Action>)
    ensures
        plan_view(r@) == spec_plan_4(disk@),
{
    let mut v: Vec<Action> = Vec::new();
    let c = Command::new("fdisk").arg_string(dev_path(disk));
    proof {
        assert(c@.args =~= seq!["/dev/"@ + disk@]);
    }
    v.push(run_action(c));
    v.push(run0("lsblk"));
    proof {
        assert(plan_view(v@) =~= spec_plan_4(disk@));
    }
    v
}

/// Formatting of the root partition, honoring the encryption choice.
pub open spec fn spec_plan_6_root(c: ConfigV, format_root: bool) -> Seq<ActionV> {
    if format_root && c.encrypted_partitions {
        seq![
            runv("cryptsetup"@, seq!["luksFormat"@, "/dev/"@ + c.root_partition]),
            runv("cryptsetup"@, seq!["open"@, "/dev/"@ + c.root_partition, "cryptroot"@]),
            runv("mkfs.btrfs"@, seq!["-f"@, "/dev/mapper/cryptroot"@]),
        ]
    } else if format_root {
        seq![runv("mkfs.btrfs"@, seq!["-f"@, "/dev/"@ + c.root_partition])]
    } else if c.encrypted_partitions {
        seq![runv("cryptsetup"@, seq!["open"@, "/dev/"@ + c.root_partition, "cryptroot"@])]
    } else {
        Seq::empty()
    }
}

fn plan_6_root(c: &AppConfig, format_root: bool) -> (r: Vec<Action>)
    ensures
        plan_view(r@) == spec_plan_6_root(c@, format_root),
{
    let mut v: Vec<Action> = Vec::new();
    if format_root && c.encrypted_partitions {
        let luks = Command::new("cryptsetup").arg("luksFormat").arg_string(
            dev_path(c.root_partition.as_str()),
        );
        proof {
            assert(luks@.args =~= seq!["luksFormat"@, "/dev/"@ + c@.root_partition]);
        }
        v.push(run_action(luks));
        let open = Command::new("cryptsetup").arg("open").arg_string(
            dev_path(c.root_partition.as_str()),
        ).arg("cryptroot");
        proof {
            assert(open@.args =~= seq!["open"@, "/dev/"@ + c@.root_partition, "cryptroot"@]);
        }
        v.push(run_action(open));
        v.push(run2("mkfs.btrfs", "-f", "/dev/mapper/cryptroot"));
    } else if format_root {
        let mk = Command::new("mkfs.btrfs").arg("-f").arg_string(
            dev_path(c.root_partition.as_str()),
        );
        proof {
            assert(mk@.args =~= seq!["-f"@, "/dev/"@ + c@.root_partition]);
        }
        v.push(run_action(mk));
    } else if c.encrypted_partitions {
        let open = Command::new("cryptsetup").arg("open").arg_string(
            dev_path(c.root_partition.as_str()),
        ).arg("cryptroot");
        proof {
            assert(open@.args =~= seq!["open"@, "/dev/"@ + c@.root_partition, "cryptroot"@]);
        }
        v.push(run_action(open));
    }
    proof {
        assert(plan_view(v@) =~= spec_plan_6_root(c@, format_root));
    }
    v
}

/// Formatting of the optional boot partition.
pub open spec fn spec_plan_6_boot(c: ConfigV, format_boot: bool) -> Seq<ActionV> {
    match c.boot_partition {
        Option::Some(b) => if format_boot {
            seq![runv("mkfs.btrfs"@, seq!["-f"@, "/dev/"@ + b])]
        } else {
            Seq::empty()
        },
        Option::None => Seq::empty(),
    }
}

fn plan_6_boot(c: &AppConfig, format_boot: bool) -> (r: Vec<Action>)
    ensures
        plan_view(r@) == spec_plan_6_boot(c@, format_boot),
{
    let mut v: Vec<Action> = Vec::new();
    match &c.boot_partition {
        Some(b) => {
            if format_boot {
                let mk = Command::new("mkfs.btrfs").arg("-f").arg_string(dev_path(b.as_str()));
                proof {
                    assert(mk@.args =~= seq!["-f"@, "/dev/"@ + b@]);
                }
                v.push(run_action(mk));
            }
        },
        None => {},
    }
    proof {
        assert(plan_view(v@) =~= spec_plan_6_boot(c@, format_boot));
    }
    v
}

/// Formatting of the optional UEFI partition.
pub open spec fn spec_plan_6_uefi(c: ConfigV, format_uefi: bool) -> Seq<ActionV> {
    match c.uefi_partition {
        Option::Some(u) => if format_uefi {
            seq![runv("mkfs.fat"@, seq!["-F32"@, "/dev/"@ + u])]
        } else {
            Seq::empty()
        },
        Option::None => Seq::empty(),
    }
}

fn plan_6_uefi(c: &AppConfig, format_uefi: bool) -> (r: Vec<Action>)
    ensures
        plan_view(r@) == spec_plan_6_uefi(c@, format_uefi),
{
    let mut v: Vec<Action> = Vec::new();
    match &c.uefi_partition {
        Some(u) => {
            if format_uefi {
                let mk = Command::new("mkfs.fat").arg("-F32").arg_string(dev_path(u.as_str()));
                proof {
                    assert(mk@.args =~= seq!["-F32"@, "/dev/"@ + u@]);
                }
                v.push(run_action(mk));
            }
        },
        None => {},
    }
    proof {
        assert(plan_view(v@) =~= spec_plan_6_uefi(c@, format_uefi));
    }
    v
}

/// Formatting of the optional home partition, honoring the encryption
/// choice.
pub open spec fn spec_plan_6_home(c: ConfigV, format_home: bool) -> Seq<ActionV> {
    match c.home_partition {
        Option::Some(h) => if format_home && c.encrypted_partitions {
            seq![
                runv("cryptsetup"@, seq!["luksFormat"@, "/dev/"@ + h]),
                runv("cryptsetup"@, seq!["open"@, "/dev/"@ + h, "crypthome"@]),
                runv("mkfs.btrfs"@, seq!["-f"@, "/dev/mapper/crypthome"@]),
            ]
        } else if format_home {
            seq![runv("mkfs.btrfs"@, seq!["-f"@, "/dev/"@ + h])]
        } else if c.encrypted_partitions {
            seq![runv("cryptsetup"@, seq!["open"@, "/dev/"@ + h, "crypthome"@])]
        } else {
            Seq::empty()
        },
        Option::None => Seq::empty(),
    }
}

fn plan_6_home(c: &AppConfig, format_home: bool) -> (r: Vec<Action>)
    ensures
        plan_view(r@) == spec_plan_6_home(c@, format_home),
{
    let mut v: Vec<Action> = Vec::new();
    match &c.home_partition {
        Some(h) => {
            if format_home && c.encrypted_partitions {
                let luks = Command::new("cryptsetup").arg("luksFormat").arg_string(
                    dev_path(h.as_str()),
                );
                proof {
                    assert(luks@.args =~= seq!["luksFormat"@, "/dev/"@ + h@]);
                }
                v.push(run_action(luks));
                let open = Command::new("cryptsetup").arg("open").arg_string(
                    dev_path(h.as_str()),
                ).arg("crypthome");
                proof {
                    assert(open@.args =~= seq!["open"@, "/dev/"@ + h@, "crypthome"@]);
                }
                v.push(run_action(open));
                v.push(run2("mkfs.btrfs", "-f", "/dev/mapper/crypthome"));
            } else if format_home {
                let mk = Command::new("mkfs.btrfs").arg("-f").arg_string(dev_path(h.as_str()));
                proof {
                    assert(mk@.args =~= seq!["-f"@, "/dev/"@ + h@]);
                }
                v.push(run_action(mk));
            } else if c.encrypted_partitions {
                let open = Command::new("cryptsetup").arg("open").arg_string(
                    dev_path(h.as_str()),
                ).arg("crypthome");
                proof {
                    assert(open@.args =~= seq!["open"@, "/dev/"@ + h@, "crypthome"@]);
                }
                v.push(run_action(open));
            }
        },
        None => {},
    }
    proof {
        assert(plan_view(v@) =~= spec_plan_6_home(c@, format_home));
    }
    v
}

/// The whole formatting step: root, then boot, then UEFI, then home.
pub open spec fn spec_plan_6(
    c: ConfigV,
    format_root: bool,
    format_boot: bool,
    format_uefi: bool,
    format_home: bool,
) -> Seq<ActionV> {
    spec_plan_6_root(c, format_root) + spec_plan_6_boot(c, format_boot) + spec_plan_6_uefi(
        c,
        format_uefi,
    ) + spec_plan_6_home(c, format_home)
}

fn plan_step_6(
    c: &AppConfig,
    format_root: bool,
    format_boot: bool,
    format_uefi: bool,
    format_home: bool,
) -> (r: Vec<Action>)
    ensures
        plan_view(r@) == spec_plan_6(c@, format_root, format_boot, format_uefi, format_home),
{
    let mut v = plan_6_root(c, format_root);
    let mut b = plan_6_boot(c, format_boot);
    let mut u = plan_6_uefi(c, format_uefi);
    let mut h = plan_6_home(c, format_home);
    v.append(&mut b);
    v.append(&mut u);
    v.append(&mut h);
    proof {
        assert(plan_view(v@) =~= spec_plan_6(
            c@,
            format_root,
            format_boot,
            format_uefi,
            format_home,
        ));
    }
    v
}

pub open spec fn spec_plan_7(name: Option<Seq<char>>) -> Seq<ActionV> {
    match name {
        Option::Some(n) => seq![
            runv("mkswap"@, seq!["/dev/"@ + n]),
            runv("swapon"@, seq!["/dev/"@ + n]),
        ],
        Option::None => Seq::empty(),
    }
}

fn plan_step_7(name: &Option<String>) -> (r: Vec<Action>)
    ensures
        plan_view(r@) == spec_plan_7(opt_view(*name)),
{
    let mut v: Vec<Action> = Vec::new();
    match name {
        Some(n) => {
            let mkswap = Command::new("mkswap").arg_string(dev_path(n.as_str()));
            proof {
                assert(mkswap@.args =~= seq!["/dev/"@ + n@]);
            }
            v.push(run_action(mkswap));
            let swapon = Command::new("swapon").arg_string(dev_path(n.as_str()));
            proof {
                assert(swapon@.args =~= seq!["/dev/"@ + n@]);
            }
            v.push(run_action(swapon));
        },
        None => {},
    }
    proof {
        assert(plan_view(v@) =~= spec_plan_7(opt_view(*name)));
    }
    v
}

/// Mounting: root first, then boot, UEFI and home when present, each under
/// its mount point, the encrypted mapper devices standing in for root and
/// home when encryption is on.
pub open spec fn spec_plan_8(c: ConfigV) -> Seq<ActionV> {
    let root = if c.encrypted_partitions {
        seq![runv("mount"@, seq!["/dev/mapper/cryptroot"@, "/mnt"@])]
    } else {
        seq![runv("mount"@, seq!["/dev/"@ + c.root_partition, "/mnt"@])]
    };
    let boot = match c.boot_partition {
        Option::Some(b) => seq![
            runv("mkdir"@, seq!["-p"@, "/mnt/boot"@]),
            runv("mount"@, seq!["/dev/"@ + b, "/mnt/boot"@]),
        ],
        Option::None => Seq::empty(),
    };
    let uefi = match c.uefi_partition {
        Option::Some(u) => seq![
            runv("mkdir"@, seq!["-p"@, "/mnt/boot/EFI"@]),
            runv("mount"@, seq!["/dev/"@ + u, "/mnt/boot/EFI"@]),
        ],
        Option::None => Seq::empty(),
    };
    let home = match c.home_partition {
        Option::Some(h) => if c.encrypted_partitions {
            seq![
                runv("mkdir"@, seq!["-p"@, "/mnt/home"@]),
                runv("mount"@, seq!["/dev/mapper/crypthome"@, "/mnt/home"@]),
            ]
        } else {
            seq![
                runv("mkdir"@, seq!["-p"@, "/mnt/home"@]),
                runv("mount"@, seq!["/dev/"@ + h, "/mnt/home"@]),
            ]
        },
        Option::None => Seq::empty(),
    };
    root + boot + uefi + home
}

fn plan_step_8(c: &AppConfig) -> (r: Vec<Action>)
    ensures
        plan_view(r@) == spec_plan_8(c@),
{
    let mut v: Vec<Action> = Vec::new();
    if c.encrypted_partitions {
        v.push(run2("mount", "/dev/mapper/cryptroot", "/mnt"));
    } else {
        let m = Command::new("mount").arg_string(dev_path(c.root_partition.as_str())).arg("/mnt");
        proof {
            assert(m@.args =~= seq!["/dev/"@ + c@.root_partition, "/mnt"@]);
        }
        v.push(run_action(m));
    }
    match &c.boot_partition {
        Some(b) => {
            v.push(run2("mkdir", "-p", "/mnt/boot"));
            let m = Command::new("mount").arg_string(dev_path(b.as_str())).arg("/mnt/boot");
            proof {
                assert(m@.args =~= seq!["/dev/"@ + b@, "/mnt/boot"@]);
            }
            v.push(run_action(m));
        },
        None => {},
    }
    match &c.uefi_partition {
        Some(u) => {
            v.push(run2("mkdir", "-p", "/mnt/boot/EFI"));
            let m = Command::new("mount").arg_string(dev_path(u.as_str())).arg("/mnt/boot/EFI");
            proof {
                assert(m@.args =~= seq!["/dev/"@ + u@, "/mnt/boot/EFI"@]);
            }
            v.push(run_action(m));
        },
        None => {},
    }
    match &c.home_partition {
        Some(h) => {
            v.push(run2("mkdir", "-p", "/mnt/home"));
            if c.encrypted_partitions {
                v.push(run2("mount", "/dev/mapper/crypthome", "/mnt/home"));
            } else {
                let m = Command::new("mount").arg_string(dev_path(h.as_str())).arg("/mnt/home");
                proof {
                    assert(m@.args =~= seq!["/dev/"@ + h@, "/mnt/home"@]);
                }
                v.push(run_action(m));
            }
        },
        None => {},
    }
    proof {
        assert(plan_view(v@) =~= spec_plan_8(c@));
    }
    v
}

pub open spec fn spec_plan_9(country: Seq<char>) -> Seq<ActionV> {
    seq![
        runv(
            "reflector"@,
            seq![
                "--latest"@,
                "10"@,
                "--country"@,
                country,
                "--protocol"@,
                "http,https"@,
                "--sort"@,
                "rate"@,
                "--save"@,
                "/etc/pacman.d/mirrorlist"@,
            ],
        ),
    ]
}

fn plan_step_9(country: &str) -> (r: Vec<Action>)
    ensures
        plan_view(r@) == spec_plan_9(country@),
{
    let c = Command::new("reflector").arg("--latest").arg("10").arg("--country").arg(
        country,
    ).arg("--protocol").arg("http,https").arg("--sort").arg("rate").arg("--save").arg(
        "/etc/pacman.d/mirrorlist",
    );
    proof {
        assert(c@.args =~= seq![
            "--latest"@,
            "10"@,
            "--country"@,
            country@,
            "--protocol"@,
            "http,https"@,
            "--sort"@,
            "rate"@,
            "--save"@,
            "/etc/pacman.d/mirrorlist"@,
        ]);
    }
    let mut v: Vec<Action> = Vec::new();
    v.push(run_action(c));
    proof {
        assert(plan_view(v@) =~= spec_plan_9(country@));
    }
    v
}

/// The three pacman-configuration replacements shared by steps 10 and 14.
pub open spec fn spec_pacman_patch(path: Seq<char>) -> ActionV {
    patchv(
        path,
        seq![
            rv("#Color"@, "Color"@),
            rv("#VerbosePkgLists"@, "VerbosePkgLists"@),
            rv("#ParallelDownloads = 5"@, "ParallelDownloads = 5\nILoveCandy"@),
        ],
    )
}

fn pacman_patch(path: &str) -> (r: Action)
    ensures
        r@ == spec_pacman_patch(path@),
{
    patch3(
        path,
        Replacement::new("#Color", "Color"),
        Replacement::new("#VerbosePkgLists", "VerbosePkgLists"),
        Replacement::new("#ParallelDownloads = 5", "ParallelDownloads = 5\nILoveCandy"),
    )
}

pub open spec fn spec_plan_10() -> Seq<ActionV> {
    seq![spec_pacman_patch("/etc/pacman.conf"@)]
}

fn plan_step_10() -> (r: Vec<Action>)
    ensures
        plan_view(r@) == spec_plan_10(),
{
    let mut v: Vec<Action> = Vec::new();
    v.push(pacman_patch("/etc/pacman.conf"));
    proof {
        assert(plan_view(v@) =~= spec_plan_10());
    }
    v
}

pub open spec fn spec_plan_11(brand: Seq<char>) -> Seq<ActionV> {
    seq![
        runv(
            "pacstrap"@,
            seq![
                "/mnt"@,
                "base"@,
                "linux"@,
                "linux-firmware"@,
                brand + "-ucode"@,
                "sudo"@,
                "helix"@,
                "grub"@,
                "dosfstools"@,
                "mtools"@,
                "networkmanager"@,
                "git"@,
                "base-devel"@,
            ],
        ),
    ]
}

fn plan_step_11(brand: &str) -> (r: Vec<Action>)
    ensures
        plan_view(r@) == spec_plan_11(brand@),
{
    let mut ucode = brand.to_owned();
    ucode.append("-ucode");
    let c = Command::new("pacstrap").arg("/mnt").arg("base").arg("linux").arg(
        "linux-firmware",
    ).arg_string(ucode).arg("sudo").arg("helix").arg("grub").arg("dosfstools").arg(
        "mtools",
    ).arg("networkmanager").arg("git").arg("base-devel");
    proof {
        assert(c@.args =~= seq![
            "/mnt"@,
            "base"@,
            "linux"@,
            "linux-firmware"@,
            brand@ + "-ucode"@,
            "sudo"@,
            "helix"@,
            "grub"@,
            "dosfstools"@,
            "mtools"@,
            "networkmanager"@,
            "git"@,
            "base-devel"@,
        ]);
    }
    let mut v: Vec<Action> = Vec::new();
    v.push(run_action(c));
    proof {
        assert(plan_view(v@) =~= spec_plan_11(brand@));
    }
    v
}

/// Why a plan could not be produced; each failure is fatal to the run.
#[derive(Clone, Copy, PartialEq, Eq, Structural, Debug)]
pub enum PlanError {
    /// The step index lies outside the catalogue.
    UnknownStep,
    /// A needed identifier was not found in the captured device listing.
    IdentifierNotFound,
    /// The filesystem table holds no swap entry to rewrite.
    SwapEntryNotFound,
}

pub open spec fn spec_plan_12() -> Seq<ActionV> {
    seq![capturev("genfstab"@, seq!["-U"@, "/mnt"@], "/mnt/etc/fstab"@)]
}

fn plan_step_12() -> (r: Vec<Action>)
    ensures
        plan_view(r@) == spec_plan_12(),
{
    let c = Command::new("genfstab").arg("-U").arg("/mnt");
    proof {
        assert(c@.args =~= seq!["-U"@, "/mnt"@]);
    }
    let mut v: Vec<Action> = Vec::new();
    v.push(Action::CaptureToFile(c, "/mnt/etc/fstab".to_owned()));
    proof {
        assert(plan_view(v@) =~= spec_plan_12());
    }
    v
}

// ---------------------------------------------------------------------------
// The plans: steps 13 to 22
// ---------------------------------------------------------------------------

/// The device token of the filesystem table's swap line: the first
/// whitespace-separated token of the first line mentioning swap.
pub open spec fn spec_swap_token(fstab: Seq<char>) -> Option<Seq<char>> {
    match spec_first_match(split_on(fstab, '\n'), "swap"@) {
        Option::None => Option::None,
        Option::Some(line) => {
            let tok = spec_first_token(line);
            if tok.len() == 0 {
                Option::None
            } else {
                Option::Some(tok)
            }
        },
    }
}

/// When encryption covers a recorded swap partition: relabel it and point
/// the filesystem table's swap entry at the mapper device.  `None` when
/// the table holds no swap line to rewrite.
pub open spec fn spec_plan_13(c: ConfigV, fstab: Option<Seq<char>>) -> Option<Seq<ActionV>> {
    if c.encrypted_partitions && c.swap_partition is Some {
        match fstab {
            Option::None => Option::None,
            Option::Some(f) => match spec_swap_token(f) {
                Option::None => Option::None,
                Option::Some(tok) => Option::Some(
                    seq![
                        runv("swapoff"@, seq!["/dev/"@ + c.swap_partition->Some_0]),
                        runv(
                            "mkfs.ext2"@,
                            seq![
                                "-L"@,
                                "cryptswap"@,
                                "/dev/"@ + c.swap_partition->Some_0,
                                "1M"@,
                            ],
                        ),
                        patchv("/mnt/etc/fstab"@, seq![rv(tok, "/dev/mapper/swap"@)]),
                    ],
                ),
            },
        }
    } else {
        Option::Some(Seq::empty())
    }
}

fn plan_step_13(c: &AppConfig, env: &StepEnv) -> (r: Result<Vec<Action>, PlanError>)
    ensures
        match r {
            Ok(v) => spec_plan_13(c@, env@.fstab) == Option::Some(plan_view(v@)),
            Err(e) => spec_plan_13(c@, env@.fstab) is None && e == PlanError::SwapEntryNotFound,
        },
{
    let mut v: Vec<Action> = Vec::new();
    if !(c.encrypted_partitions && c.swap_partition.is_some()) {
        proof {
            assert(plan_view(v@) =~= Seq::<ActionV>::empty());
        }
        return Ok(v);
    }
    let sw = match &c.swap_partition {
        Some(s) => s,
        None => {
            proof {
                assert(false);
            }
            return Err(PlanError::SwapEntryNotFound);
        },
    };
    let fstab = match &env.fstab {
        Some(f) => f,
        None => {
            return Err(PlanError::SwapEntryNotFound);
        },
    };
    let lines = split_str(fstab.as_str(), '\n');
    let line = match first_matching_line(&lines, "swap") {
        Some(k) => &lines[k],
        None => {
            return Err(PlanError::SwapEntryNotFound);
        },
    };
    let tok = first_token(line.as_str());
    if tok.as_str().is_empty() {
        return Err(PlanError::SwapEntryNotFound);
    }
    let ghost tokv = tok@;
    let swapoff = Command::new("swapoff").arg_string(dev_path(sw.as_str()));
    proof {
        assert(swapoff@.args =~= seq!["/dev/"@ + sw@]);
    }
    v.push(run_action(swapoff));
    let mkfs = Command::new("mkfs.ext2").arg("-L").arg("cryptswap").arg_string(
        dev_path(sw.as_str()),
    ).arg("1M");
    proof {
        assert(mkfs@.args =~= seq!["-L"@, "cryptswap"@, "/dev/"@ + sw@, "1M"@]);
    }
    v.push(run_action(mkfs));
    v.push(patch1("/mnt/etc/fstab", Replacement { from: tok, to: "/dev/mapper/swap".to_owned() }));
    proof {
        assert(spec_swap_token(fstab@) == Option::Some(tokv));
        assert(plan_view(v@) =~= spec_plan_13(c@, env@.fstab)->Some_0);
    }
    Ok(v)
}

pub open spec fn spec_plan_14() -> Seq<ActionV> {
    seq![spec_pacman_patch("/mnt/etc/pacman.conf"@)]
}

fn plan_step_14() -> (r: Vec<Action>)
    ensures
        plan_view(r@) == spec_plan_14(),
{
    let mut v: Vec<Action> = Vec::new();
    v.push(pacman_patch("/mnt/etc/pacman.conf"));
    proof {
        assert(plan_view(v@) =~= spec_plan_14());
    }
    v
}

/// Link the zone file named by the first two segments of the answered
/// time zone.
pub open spec fn spec_plan_15(zone: Seq<char>) -> Seq<ActionV> {
    let parts = split_on(zone, '/');
    seq![
        runv(
            "arch-chroot"@,
            seq![
                "/mnt"@,
                "ln"@,
                "-sf"@,
                "/mnt/etc/usr/share/zoneinfo/"@ + parts[0] + "/"@ + parts[1],
                "/etc/localtime"@,
            ],
        ),
    ]
}

fn plan_step_15(zone: &str) -> (r: Vec<Action>)
    requires
        char_index(zone@, '/') is Some,
    ensures
        plan_view(r@) == spec_plan_15(zone@),
{
    let n = zone.unicode_len();
    let i = match find_char(zone, '/') {
        Some(i) => i,
        None => {
            proof {
                assert(false);
            }
            0
        },
    };
    proof {
        lemma_split_on_step(zone@, '/', i as int);
    }
    let p0 = zone.substring_char(0, i);
    let rest = zone.substring_char(i + 1, n);
    let ghost parts = split_on(zone@, '/');
    proof {
        assert(parts[0] == p0@);
        assert(split_on(rest@, '/') == parts.drop_first());
    }
    let mut path = "/mnt/etc/usr/share/zoneinfo/".to_owned();
    path.append(p0);
    path.append("/");
    match find_char(rest, '/') {
        None => {
            proof {
                lemma_split_on_whole(rest@, '/');
                assert(parts[1] == rest@);
            }
            path.append(rest);
        },
        Some(j) => {
            proof {
                lemma_split_on_step(rest@, '/', j as int);
                assert(parts.drop_first()[0] == rest@.subrange(0, j as int));
                assert(parts[1] == rest@.subrange(0, j as int));
            }
            let p1 = rest.substring_char(0, j);
            path.append(p1);
        },
    }
    let c = Command::new("arch-chroot").arg("/mnt").arg("ln").arg("-sf").arg_string(path).arg(
        "/etc/localtime",
    );
    proof {
        assert(c@.args =~= seq![
            "/mnt"@,
            "ln"@,
            "-sf"@,
            "/mnt/etc/usr/share/zoneinfo/"@ + parts[0] + "/"@ + parts[1],
            "/etc/localtime"@,
        ]);
    }
    let mut v: Vec<Action> = Vec::new();
    v.push(run_action(c));
    proof {
        assert(plan_view(v@) =~= spec_plan_15(zone@));
    }
    v
}

pub open spec fn spec_plan_16() -> Seq<ActionV> {
    seq![runv("arch-chroot"@, seq!["/mnt"@, "hwclock"@, "--systohc"@])]
}

fn plan_step_16() -> (r: Vec<Action>)
    ensures
        plan_view(r@) == spec_plan_16(),
{
    let mut v: Vec<Action> = Vec::new();
    v.push(run3("arch-chroot", "/mnt", "hwclock", "--systohc"));
    proof {
        assert(plan_view(v@) =~= spec_plan_16());
    }
    v
}

pub open spec fn spec_plan_17() -> Seq<ActionV> {
    seq![
        patchv(
            "/mnt/etc/locale.gen"@,
            seq![rv("#en_US.UTF-8 UTF-8"@, "en_US.UTF-8 UTF-8"@)],
        ),
        runv("arch-chroot"@, seq!["/mnt"@, "locale-gen"@]),
    ]
}

fn plan_step_17() -> (r: Vec<Action>)
    ensures
        plan_view(r@) == spec_plan_17(),
{
    let mut v: Vec<Action> = Vec::new();
    v.push(patch1("/mnt/etc/locale.gen", Replacement::new("#en_US.UTF-8 UTF-8", "en_US.UTF-8 UTF-8")));
    v.push(run2("arch-chroot", "/mnt", "locale-gen"));
    proof {
        assert(plan_view(v@) =~= spec_plan_17());
    }
    v
}

pub open spec fn spec_plan_18(host: Seq<char>) -> Seq<ActionV> {
    seq![writev("/mnt/etc/hostname"@, host)]
}

fn plan_step_18(host: &str) -> (r: Vec<Action>)
    ensures
        plan_view(r@) == spec_plan_18(host@),
{
    let mut v: Vec<Action> = Vec::new();
    v.push(write_action("/mnt/etc/hostname", host.to_owned()));
    proof {
        assert(plan_view(v@) =~= spec_plan_18(host@));
    }
    v
}

/// The hosts file for the answered host name: loopback entries and the
/// host under its local domain.
pub open spec fn spec_hosts_content(host: Seq<char>) -> Seq<char> {
    "127.0.0.1\tlocalhost\n::1 \t\tlocalhost\n127.0.1.1\t"@ + host + ".localdomain\t"@ + host
}

pub open spec fn spec_plan_19(host: Seq<char>) -> Seq<ActionV> {
    seq![writev("/mnt/etc/hosts"@, spec_hosts_content(host))]
}

fn plan_step_19(host: &str) -> (r: Vec<Action>)
    ensures
        plan_view(r@) == spec_plan_19(host@),
{
    let mut content = "127.0.0.1\tlocalhost\n::1 \t\tlocalhost\n127.0.1.1\t".to_owned();
    content.append(host);
    content.append(".localdomain\t");
    content.append(host);
    let mut v: Vec<Action> = Vec::new();
    v.push(write_action("/mnt/etc/hosts", content));
    proof {
        assert(plan_view(v@) =~= spec_plan_19(host@));
    }
    v
}

pub open spec fn spec_plan_20() -> Seq<ActionV> {
    seq![runv("arch-chroot"@, seq!["/mnt"@, "passwd"@])]
}

fn plan_step_20() -> (r: Vec<Action>)
    ensures
        plan_view(r@) == spec_plan_20(),
{
    let mut v: Vec<Action> = Vec::new();
    v.push(run2("arch-chroot", "/mnt", "passwd"));
    proof {
        assert(plan_view(v@) =~= spec_plan_20());
    }
    v
}

pub open spec fn spec_plan_21(name: Seq<char>) -> Seq<ActionV> {
    seq![runv("arch-chroot"@, seq!["/mnt"@, "useradd"@, "-m"@, name])]
}

fn plan_step_21(name: &str) -> (r: Vec<Action>)
    ensures
        plan_view(r@) == spec_plan_21(name@),
{
    let c = Command::new("arch-chroot").arg("/mnt").arg("useradd").arg("-m").arg(name);
    proof {
        assert(c@.args =~= seq!["/mnt"@, "useradd"@, "-m"@, name@]);
    }
    let mut v: Vec<Action> = Vec::new();
    v.push(run_action(c));
    proof {
        assert(plan_view(v@) =~= spec_plan_21(name@));
    }
    v
}

/// The user password is set for the recorded username.
pub open spec fn spec_plan_22(c: ConfigV) -> Seq<ActionV> {
    seq![runv("arch-chroot"@, seq!["/mnt"@, "passwd"@, c.username])]
}

fn plan_step_22(c: &AppConfig) -> (r: Vec<Action>)
    ensures
        plan_view(r@) == spec_plan_22(c@),
{
    let cmd = Command::new("arch-chroot").arg("/mnt").arg("passwd").arg(c.username.as_str());
    proof {
        assert(cmd@.args =~= seq!["/mnt"@, "passwd"@, c@.username]);
    }
    let mut v: Vec<Action> = Vec::new();
    v.push(run_action(cmd));
    proof {
        assert(plan_view(v@) =~= spec_plan_22(c@));
    }
    v
}

// ---------------------------------------------------------------------------
// The plans: steps 23 to 34
// ---------------------------------------------------------------------------

/// The recorded user joins the wheel group.
pub open spec fn spec_plan_23(c: ConfigV) -> Seq<ActionV> {
    seq![runv("arch-chroot"@, seq!["/mnt"@, "usermod"@, "-aG"@, "wheel"@, c.username])]
}

fn plan_step_23(c: &AppConfig) -> (r: Vec<Action>)
    ensures
        plan_view(r@) == spec_plan_23(c@),
{
    let cmd = Command::new("arch-chroot").arg("/mnt").arg("usermod").arg("-aG").arg("wheel").arg(
        c.username.as_str(),
    );
    proof {
        assert(cmd@.args =~= seq!["/mnt"@, "usermod"@, "-aG"@, "wheel"@, c@.username]);
    }
    let mut v: Vec<Action> = Vec::new();
    v.push(run_action(cmd));
    proof {
        assert(plan_view(v@) =~= spec_plan_23(c@));
    }
    v
}

pub open spec fn spec_plan_24() -> Seq<ActionV> {
    seq![
        patchv(
            "/mnt/etc/sudoers"@,
            seq![rv("# %wheel ALL=(ALL:ALL) ALL"@, "%wheel ALL=(ALL:ALL) ALL"@)],
        ),
    ]
}

fn plan_step_24() -> (r: Vec<Action>)
    ensures
        plan_view(r@) == spec_plan_24(),
{
    let mut v: Vec<Action> = Vec::new();
    v.push(
        patch1(
            "/mnt/etc/sudoers",
            Replacement::new("# %wheel ALL=(ALL:ALL) ALL", "%wheel ALL=(ALL:ALL) ALL"),
        ),
    );
    proof {
        assert(plan_view(v@) =~= spec_plan_24());
    }
    v
}

/// Bootloader installation: under UEFI the EFI boot manager and the EFI
/// grub install; under BIOS a grub install onto the answered disk.
pub open spec fn spec_plan_25(c: ConfigV, disk: Option<Seq<char>>) -> Option<Seq<ActionV>> {
    if c.uefi_install && disk is None {
        Option::Some(
            seq![
                runv("arch-chroot"@, seq!["/mnt"@, "pacman"@, "-Sy"@, "efibootmgr"@, "--noconfirm"@]),
                runv(
                    "arch-chroot"@,
                    seq![
                        "/mnt"@,
                        "grub-install"@,
                        "--target=x86_64-efi"@,
                        "--bootloader-id=grub_uefi"@,
                        "--recheck"@,
                    ],
                ),
            ],
        )
    } else if !c.uefi_install && disk is Some {
        Option::Some(
            seq![
                runv(
                    "arch-chroot"@,
                    seq!["/mnt"@, "grub-install"@, "--target=i386-pc"@, "/dev/"@ + disk->Some_0],
                ),
            ],
        )
    } else {
        Option::None
    }
}

fn plan_step_25(c: &AppConfig, disk: &Option<String>) -> (r: Vec<Action>)
    requires
        opt_view(*disk) is None <==> c@.uefi_install,
    ensures
        spec_plan_25(c@, opt_view(*disk)) == Option::Some(plan_view(r@)),
{
    let mut v: Vec<Action> = Vec::new();
    match disk {
        None => {
            v.push(run5("arch-chroot", "/mnt", "pacman", "-Sy", "efibootmgr", "--noconfirm"));
            v.push(
                run5(
                    "arch-chroot",
                    "/mnt",
                    "grub-install",
                    "--target=x86_64-efi",
                    "--bootloader-id=grub_uefi",
                    "--recheck",
                ),
            );
        },
        Some(d) => {
            let cmd = Command::new("arch-chroot").arg("/mnt").arg("grub-install").arg(
                "--target=i386-pc",
            ).arg_string(dev_path(d.as_str()));
            proof {
                assert(cmd@.args =~= seq![
                    "/mnt"@,
                    "grub-install"@,
                    "--target=i386-pc"@,
                    "/dev/"@ + d@,
                ]);
            }
            v.push(run_action(cmd));
        },
    }
    proof {
        assert(plan_view(v@) =~= spec_plan_25(c@, opt_view(*disk))->Some_0);
    }
    v
}

/// The kernel command line pointing grub at the encrypted root: the raw
/// partition's identifier opens the container, the opened container is the
/// root.
pub open spec fn spec_grub_cmdline(root_uuid: Seq<char>, crypt_uuid: Seq<char>) -> Seq<char> {
    "GRUB_CMDLINE_LINUX_DEFAULT=\"loglevel=3 cryptdevice=UUID="@ + root_uuid
        + ":cryptroot root=UUID="@ + crypt_uuid + "\""@
}

/// The grub configuration edits common to every mode: quieting is removed;
/// alongside another system the OS prober is enabled, else the menu
/// timeout is dropped.
pub open spec fn spec_plan_26_base(alongside: bool) -> Seq<ActionV> {
    if alongside {
        seq![
            runv("arch-chroot"@, seq!["/mnt"@, "pacman"@, "-Sy"@, "os-prober"@, "--noconfirm"@]),
            patchv(
                "/mnt/etc/default/grub"@,
                seq![
                    rv(
                        "GRUB_CMDLINE_LINUX_DEFAULT=\"loglevel=3 quiet\""@,
                        "GRUB_CMDLINE_LINUX_DEFAULT=\"loglevel=3\""@,
                    ),
                    rv("#GRUB_DISABLE_OS_PROBER=false"@, "GRUB_DISABLE_OS_PROBER=false"@),
                ],
            ),
        ]
    } else {
        seq![
            patchv(
                "/mnt/etc/default/grub"@,
                seq![
                    rv(
                        "GRUB_CMDLINE_LINUX_DEFAULT=\"loglevel=3 quiet\""@,
                        "GRUB_CMDLINE_LINUX_DEFAULT=\"loglevel=3\""@,
                    ),
                    rv("GRUB_TIMEOUT=5"@, "GRUB_TIMEOUT=0"@),
                ],
            ),
        ]
    }
}

/// Grub configuration; under encryption both the raw root's and the opened
/// container's identifiers are read from the captured listing, and the
/// kernel command line is rewritten accordingly.
pub open spec fn spec_plan_26(c: ConfigV, alongside: bool, listing: Option<Seq<char>>) -> Option<
    Seq<ActionV>,
> {
    if c.encrypted_partitions {
        match listing {
            Option::None => Option::None,
            Option::Some(l) => match spec_find_identifier(l, c.root_partition) {
                Option::None => Option::None,
                Option::Some(root_uuid) => match spec_find_identifier(l, "cryptroot"@) {
                    Option::None => Option::None,
                    Option::Some(crypt_uuid) => Option::Some(
                        spec_plan_26_base(alongside) + seq![
                            patchv(
                                "/mnt/etc/default/grub"@,
                                seq![
                                    rv(
                                        "GRUB_CMDLINE_LINUX_DEFAULT=\"loglevel=3\""@,
                                        spec_grub_cmdline(root_uuid, crypt_uuid),
                                    ),
                                    rv("GRUB_TIMEOUT=5"@, "GRUB_TIMEOUT=0"@),
                                ],
                            ),
                        ],
                    ),
                },
            },
        }
    } else {
        Option::Some(spec_plan_26_base(alongside))
    }
}

fn plan_26_base(alongside: bool) -> (r: Vec<Action>)
    ensures
        plan_view(r@) == spec_plan_26_base(alongside),
{
    let mut v: Vec<Action> = Vec::new();
    if alongside {
        v.push(run5("arch-chroot", "/mnt", "pacman", "-Sy", "os-prober", "--noconfirm"));
        v.push(
            patch2(
                "/mnt/etc/default/grub",
                Replacement::new(
                    "GRUB_CMDLINE_LINUX_DEFAULT=\"loglevel=3 quiet\"",
                    "GRUB_CMDLINE_LINUX_DEFAULT=\"loglevel=3\"",
                ),
                Replacement::new("#GRUB_DISABLE_OS_PROBER=false", "GRUB_DISABLE_OS_PROBER=false"),
            ),
        );
    } else {
        v.push(
            patch2(
                "/mnt/etc/default/grub",
                Replacement::new(
                    "GRUB_CMDLINE_LINUX_DEFAULT=\"loglevel=3 quiet\"",
                    "GRUB_CMDLINE_LINUX_DEFAULT=\"loglevel=3\"",
                ),
                Replacement::new("GRUB_TIMEOUT=5", "GRUB_TIMEOUT=0"),
            ),
        );
    }
    proof {
        assert(plan_view(v@) =~= spec_plan_26_base(alongside));
    }
    v
}

fn plan_step_26(c: &AppConfig, alongside: bool, env: &StepEnv) -> (r: Result<
    Vec<Action>,
    PlanError,
>)
    ensures
        match r {
            Ok(v) => spec_plan_26(c@, alongside, env@.listing) == Option::Some(plan_view(v@)),
            Err(e) => spec_plan_26(c@, alongside, env@.listing) is None && e
                == PlanError::IdentifierNotFound,
        },
{
    let mut v = plan_26_base(alongside);
    if !c.encrypted_partitions {
        return Ok(v);
    }
    let listing = match &env.listing {
        Some(l) => l,
        None => {
            return Err(PlanError::IdentifierNotFound);
        },
    };
    let root_uuid = match find_identifier(listing.as_str(), c.root_partition.as_str()) {
        Ok(u) => u,
        Err(_) => {
            return Err(PlanError::IdentifierNotFound);
        },
    };
    let crypt_uuid = match find_identifier(listing.as_str(), "cryptroot") {
        Ok(u) => u,
        Err(_) => {
            return Err(PlanError::IdentifierNotFound);
        },
    };
    let ghost root_uuid_v = root_uuid@;
    let ghost crypt_uuid_v = crypt_uuid@;
    let mut line = "GRUB_CMDLINE_LINUX_DEFAULT=\"loglevel=3 cryptdevice=UUID=".to_owned();
    line.append(root_uuid.as_str());
    line.append(":cryptroot root=UUID=");
    line.append(crypt_uuid.as_str());
    line.append("\"");
    v.push(
        patch2(
            "/mnt/etc/default/grub",
            Replacement { from: "GRUB_CMDLINE_LINUX_DEFAULT=\"loglevel=3\"".to_owned(), to: line },
            Replacement::new("GRUB_TIMEOUT=5", "GRUB_TIMEOUT=0"),
        ),
    );
    proof {
        assert(plan_view(v@) =~= spec_plan_26(c@, alongside, env@.listing)->Some_0);
    }
    Ok(v)
}

/// The kernel-module edit for the answered GPUs: both load both modules,
/// the Nvidia module first.
pub open spec fn spec_modules_replacement(nvidia: bool, intel: bool) -> Option<ReplacementV> {
    if nvidia && intel {
        Option::Some(rv("MODULES=()"@, "MODULES=(nvidia i915)"@))
    } else if nvidia {
        Option::Some(rv("MODULES=()"@, "MODULES=(nvidia)"@))
    } else if intel {
        Option::Some(rv("MODULES=()"@, "MODULES=(i915)"@))
    } else {
        Option::None
    }
}

/// Initramfs configuration: the Nvidia driver is installed when present;
/// with any GPU answered the module list is rewritten, the encrypt hook is
/// added under encryption, and the initramfs is rebuilt.  With no GPU
/// answered nothing is changed and nothing is rebuilt.
pub open spec fn spec_plan_27(c: ConfigV, nvidia: bool, intel: bool) -> Seq<ActionV> {
    let head = if nvidia {
        seq![runv("arch-chroot"@, seq!["/mnt"@, "pacman"@, "-Sy"@, "nvidia"@, "--noconfirm"@])]
    } else {
        Seq::empty()
    };
    match spec_modules_replacement(nvidia, intel) {
        Option::None => head,
        Option::Some(m) => head + seq![patchv("/mnt/etc/mkinitcpio.conf"@, seq![m])] + (
        if c.encrypted_partitions {
            seq![
                patchv(
                    "/mnt/etc/mkinitcpio.conf"@,
                    seq![
                        rv(
                            "HOOKS=(base udev autodetect modconf kms keyboard keymap consolefont block filesystems fsck)"@,
                            "HOOKS=(base udev autodetect modconf kms keyboard keymap consolefont block encrypt filesystems fsck)"@,
                        ),
                    ],
                ),
            ]
        } else {
            Seq::empty()
        }) + seq![runv("arch-chroot"@, seq!["/mnt"@, "mkinitcpio"@, "-p"@, "linux"@])],
    }
}

fn plan_step_27(c: &AppConfig, nvidia: bool, intel: bool) -> (r: Vec<Action>)
    ensures
        plan_view(r@) == spec_plan_27(c@, nvidia, intel),
{
    let mut v: Vec<Action> = Vec::new();
    if nvidia {
        v.push(run5("arch-chroot", "/mnt", "pacman", "-Sy", "nvidia", "--noconfirm"));
    }
    if nvidia || intel {
        let modules = if nvidia && intel {
            Replacement::new("MODULES=()", "MODULES=(nvidia i915)")
        } else if nvidia {
            Replacement::new("MODULES=()", "MODULES=(nvidia)")
        } else {
            Replacement::new("MODULES=()", "MODULES=(i915)")
        };
        v.push(patch1("/mnt/etc/mkinitcpio.conf", modules));
        if c.encrypted_partitions {
            v.push(
                patch1(
                    "/mnt/etc/mkinitcpio.conf",
                    Replacement::new(
                        "HOOKS=(base udev autodetect modconf kms keyboard keymap consolefont block filesystems fsck)",
                        "HOOKS=(base udev autodetect modconf kms keyboard keymap consolefont block encrypt filesystems fsck)",
                    ),
                ),
            );
        }
        v.push(run4("arch-chroot", "/mnt", "mkinitcpio", "-p", "linux"));
    }
    proof {
        assert(plan_view(v@) =~= spec_plan_27(c@, nvidia, intel));
    }
    v
}

pub open spec fn spec_plan_28() -> Seq<ActionV> {
    seq![runv("arch-chroot"@, seq!["/mnt"@, "grub-mkconfig"@, "-o"@, "/boot/grub/grub.cfg"@])]
}

fn plan_step_28() -> (r: Vec<Action>)
    ensures
        plan_view(r@) == spec_plan_28(),
{
    let mut v: Vec<Action> = Vec::new();
    v.push(run4("arch-chroot", "/mnt", "grub-mkconfig", "-o", "/boot/grub/grub.cfg"));
    proof {
        assert(plan_view(v@) =~= spec_plan_28());
    }
    v
}

/// The crypttab line for the encrypted home volume.
pub open spec fn spec_crypttab_line(uuid: Seq<char>) -> Seq<char> {
    "home UUID="@ + uuid + " none"@
}

/// Crypttab configuration: under encryption the swap entry is enabled and
/// relabelled when a swap partition was recorded, and the home volume's
/// identifier is read from the captured listing and appended when a home
/// partition was recorded.
pub open spec fn spec_plan_29(c: ConfigV, listing: Option<Seq<char>>) -> Option<Seq<ActionV>> {
    if c.encrypted_partitions {
        let swap_edit = if c.swap_partition is Some {
            seq![
                patchv(
                    "/mnt/etc/crypttab"@,
                    seq![
                        rv("# swap"@, "swap"@),
                        rv("/dev/sdx4"@, "LABEL=cryptswap"@),
                        rv("size=256"@, "size=256,offset=2048"@),
                    ],
                ),
            ]
        } else {
            Seq::empty()
        };
        match c.home_partition {
            Option::None => Option::Some(swap_edit),
            Option::Some(h) => match listing {
                Option::None => Option::None,
                Option::Some(l) => match spec_find_identifier(l, h) {
                    Option::None => Option::None,
                    Option::Some(u) => Option::Some(
                        swap_edit + seq![appendv("/mnt/etc/crypttab"@, spec_crypttab_line(u))],
                    ),
                },
            },
        }
    } else {
        Option::Some(Seq::empty())
    }
}

fn plan_step_29(c: &AppConfig, env: &StepEnv) -> (r: Result<Vec<Action>, PlanError>)
    ensures
        match r {
            Ok(v) => spec_plan_29(c@, env@.listing) == Option::Some(plan_view(v@)),
            Err(e) => spec_plan_29(c@, env@.listing) is None && e == PlanError::IdentifierNotFound,
        },
{
    let mut v: Vec<Action> = Vec::new();
    if !c.encrypted_partitions {
        proof {
            assert(plan_view(v@) =~= Seq::<ActionV>::empty());
        }
        return Ok(v);
    }
    if c.swap_partition.is_some() {
        v.push(
            patch3(
                "/mnt/etc/crypttab",
                Replacement::new("# swap", "swap"),
                Replacement::new("/dev/sdx4", "LABEL=cryptswap"),
                Replacement::new("size=256", "size=256,offset=2048"),
            ),
        );
    }
    match &c.home_partition {
        None => {},
        Some(h) => {
            let listing = match &env.listing {
                Some(l) => l,
                None => {
                    return Err(PlanError::IdentifierNotFound);
                },
            };
            let uuid = match find_identifier(listing.as_str(), h.as_str()) {
                Ok(u) => u,
                Err(_) => {
                    return Err(PlanError::IdentifierNotFound);
                },
            };
            let mut entry = "home UUID=".to_owned();
            entry.append(uuid.as_str());
            entry.append(" none");
            v.push(append_action("/mnt/etc/crypttab", entry));
        },
    }
    proof {
        assert(plan_view(v@) =~= spec_plan_29(c@, env@.listing)->Some_0);
    }
    Ok(v)
}

pub open spec fn spec_plan_30() -> Seq<ActionV> {
    seq![runv("arch-chroot"@, seq!["/mnt"@, "systemctl"@, "enable"@, "NetworkManager"@])]
}

fn plan_step_30() -> (r: Vec<Action>)
    ensures
        plan_view(r@) == spec_plan_30(),
{
    let mut v: Vec<Action> = Vec::new();
    v.push(run4("arch-chroot", "/mnt", "systemctl", "enable", "NetworkManager"));
    proof {
        assert(plan_view(v@) =~= spec_plan_30());
    }
    v
}

pub open spec fn spec_plan_31() -> Seq<ActionV> {
    seq![
        runv(
            "arch-chroot"@,
            seq![
                "/mnt"@,
                "pacman"@,
                "-Sy"@,
                "sddm"@,
                "bluedevil"@,
                "breeze"@,
                "breeze-gtk"@,
                "kactivitymanagerd"@,
                "kde-gtk-config"@,
                "kgamma5"@,
                "kpipewire"@,
                "kscreen"@,
                "kscreenlocker"@,
                "ksystemstats"@,
                "kwayland-integration"@,
                "kwin"@,
                "libkscreen"@,
                "libksysguard"@,
                "plasma-desktop"@,
                "plasma-disks"@,
                "plasma-firewall"@,
                "plasma-nm"@,
                "plasma-pa"@,
                "plasma-systemmonitor"@,
                "plasma-workspace"@,
                "plasma-workspace-wallpapers"@,
                "powerdevil"@,
                "sddm-kcm"@,
                "systemsettings"@,
                "ark"@,
                "dolphin"@,
                "elisa"@,
                "gwenview"@,
                "kalarm"@,
                "kcalc"@,
                "kdeconnect"@,
                "kdialog"@,
                "konsole"@,
                "ktimer"@,
                "okular"@,
                "partitionmanager"@,
                "print-manager"@,
                "spectacle"@,
                "firefox"@,
            ],
        ),
    ]
}

#[verifier::rlimit(50)]
fn plan_step_31() -> (r: Vec<Action>)
    ensures
        plan_view(r@) == spec_plan_31(),
{
    let c = Command::new("arch-chroot").arg("/mnt").arg("pacman").arg("-Sy").arg("sddm").arg(
        "bluedevil",
    ).arg("breeze").arg("breeze-gtk").arg("kactivitymanagerd").arg("kde-gtk-config").arg(
        "kgamma5",
    ).arg("kpipewire").arg("kscreen").arg("kscreenlocker").arg("ksystemstats").arg(
        "kwayland-integration",
    ).arg("kwin").arg("libkscreen").arg("libksysguard").arg("plasma-desktop").arg(
        "plasma-disks",
    ).arg("plasma-firewall").arg("plasma-nm").arg("plasma-pa").arg("plasma-systemmonitor").arg(
        "plasma-workspace",
    ).arg("plasma-workspace-wallpapers").arg("powerdevil").arg("sddm-kcm").arg(
        "systemsettings",
    ).arg("ark").arg("dolphin").arg("elisa").arg("gwenview").arg("kalarm").arg("kcalc").arg(
        "kdeconnect",
    ).arg("kdialog").arg("konsole").arg("ktimer").arg("okular").arg("partitionmanager").arg(
        "print-manager",
    ).arg("spectacle").arg("firefox");
    proof {
        assert(c@.args =~= seq![
            "/mnt"@,
            "pacman"@,
            "-Sy"@,
            "sddm"@,
            "bluedevil"@,
            "breeze"@,
            "breeze-gtk"@,
            "kactivitymanagerd"@,
            "kde-gtk-config"@,
            "kgamma5"@,
            "kpipewire"@,
            "kscreen"@,
            "kscreenlocker"@,
            "ksystemstats"@,
            "kwayland-integration"@,
            "kwin"@,
            "libkscreen"@,
            "libksysguard"@,
            "plasma-desktop"@,
            "plasma-disks"@,
            "plasma-firewall"@,
            "plasma-nm"@,
            "plasma-pa"@,
            "plasma-systemmonitor"@,
            "plasma-workspace"@,
            "plasma-workspace-wallpapers"@,
            "powerdevil"@,
            "sddm-kcm"@,
            "systemsettings"@,
            "ark"@,
            "dolphin"@,
            "elisa"@,
            "gwenview"@,
            "kalarm"@,
            "kcalc"@,
            "kdeconnect"@,
            "kdialog"@,
            "konsole"@,
            "ktimer"@,
            "okular"@,
            "partitionmanager"@,
            "print-manager"@,
            "spectacle"@,
            "firefox"@,
        ]);
    }
    let mut v: Vec<Action> = Vec::new();
    v.push(run_action(c));
    proof {
        assert(plan_view(v@) =~= spec_plan_31());
    }
    v
}

pub open spec fn spec_plan_32() -> Seq<ActionV> {
    seq![runv("arch-chroot"@, seq!["/mnt"@, "systemctl"@, "enable"@, "sddm"@])]
}

fn plan_step_32() -> (r: Vec<Action>)
    ensures
        plan_view(r@) == spec_plan_32(),
{
    let mut v: Vec<Action> = Vec::new();
    v.push(run4("arch-chroot", "/mnt", "systemctl", "enable", "sddm"));
    proof {
        assert(plan_view(v@) =~= spec_plan_32());
    }
    v
}

/// The recorded user's helper-build script: cloned repository, a script
/// that builds it, its run, and the cleanup of both.
pub open spec fn spec_plan_33(c: ConfigV) -> Seq<ActionV> {
    let u = c.username;
    let script = "/home/"@ + u + "/makepkg.sh"@;
    let clone_dir = "/home/"@ + u + "/paru-bin"@;
    seq![
        runv(
            "arch-chroot"@,
            seq![
                "-u"@,
                u,
                "/mnt"@,
                "git"@,
                "clone"@,
                "https://aur.archlinux.org/paru-bin.git"@,
                clone_dir,
            ],
        ),
        writev(
            "/mnt/home/"@ + u + "/makepkg.sh"@,
            "#!/bin/bash\ncd /home/"@ + u + "/paru-bin\nmakepkg -si"@,
        ),
        runv("arch-chroot"@, seq!["-u"@, u, "/mnt"@, "sudo"@, "chmod"@, "+x"@, script]),
        runv("arch-chroot"@, seq!["-u"@, u, "/mnt"@, script]),
        runv("arch-chroot"@, seq!["/mnt"@, "rm"@, script]),
        runv("arch-chroot"@, seq!["/mnt"@, "rm"@, "-r"@, clone_dir]),
    ]
}

fn home_file(user: &str, rest: &str) -> (r: String)
    ensures
        r@ == "/home/"@ + user@ + rest@,
{
    let mut out = "/home/".to_owned();
    out.append(user);
    out.append(rest);
    out
}

#[verifier::rlimit(50)]
fn plan_step_33(c: &AppConfig) -> (r: Vec<Action>)
    ensures
        plan_view(r@) == spec_plan_33(c@),
{
    let u = c.username.as_str();
    let ghost uv = c@.username;
    let mut v: Vec<Action> = Vec::new();
    let clone_cmd = Command::new("arch-chroot").arg("-u").arg(u).arg("/mnt").arg("git").arg(
        "clone",
    ).arg("https://aur.archlinux.org/paru-bin.git").arg_string(home_file(u, "/paru-bin"));
    proof {
        assert(clone_cmd@.args =~= seq![
            "-u"@,
            uv,
            "/mnt"@,
            "git"@,
            "clone"@,
            "https://aur.archlinux.org/paru-bin.git"@,
            "/home/"@ + uv + "/paru-bin"@,
        ]);
    }
    v.push(run_action(clone_cmd));
    let mut script_path = "/mnt/home/".to_owned();
    script_path.append(u);
    script_path.append("/makepkg.sh");
    let ghost script_path_v = script_path@;
    let mut script_body = "#!/bin/bash\ncd /home/".to_owned();
    script_body.append(u);
    script_body.append("/paru-bin\nmakepkg -si");
    let ghost script_body_v = script_body@;
    v.push(Action::WriteFile(script_path, script_body));
    proof {
        assert(script_path_v == "/mnt/home/"@ + uv + "/makepkg.sh"@);
        assert(v@[1]@ == writev(
            "/mnt/home/"@ + uv + "/makepkg.sh"@,
            "#!/bin/bash\ncd /home/"@ + uv + "/paru-bin\nmakepkg -si"@,
        ));
    }
    let chmod_cmd = Command::new("arch-chroot").arg("-u").arg(u).arg("/mnt").arg("sudo").arg(
        "chmod",
    ).arg("+x").arg_string(home_file(u, "/makepkg.sh"));
    proof {
        assert(chmod_cmd@.args =~= seq![
            "-u"@,
            uv,
            "/mnt"@,
            "sudo"@,
            "chmod"@,
            "+x"@,
            "/home/"@ + uv + "/makepkg.sh"@,
        ]);
    }
    v.push(run_action(chmod_cmd));
    let run_cmd = Command::new("arch-chroot").arg("-u").arg(u).arg("/mnt").arg_string(
        home_file(u, "/makepkg.sh"),
    );
    proof {
        assert(run_cmd@.args =~= seq!["-u"@, uv, "/mnt"@, "/home/"@ + uv + "/makepkg.sh"@]);
    }
    v.push(run_action(run_cmd));
    let rm_cmd = Command::new("arch-chroot").arg("/mnt").arg("rm").arg_string(
        home_file(u, "/makepkg.sh"),
    );
    proof {
        assert(rm_cmd@.args =~= seq!["/mnt"@, "rm"@, "/home/"@ + uv + "/makepkg.sh"@]);
    }
    v.push(run_action(rm_cmd));
    let rmr_cmd = Command::new("arch-chroot").arg("/mnt").arg("rm").arg("-r").arg_string(
        home_file(u, "/paru-bin"),
    );
    proof {
        assert(rmr_cmd@.args =~= seq!["/mnt"@, "rm"@, "-r"@, "/home/"@ + uv + "/paru-bin"@]);
    }
    v.push(run_action(rmr_cmd));
    proof {
        assert(plan_view(v@) =~= spec_plan_33(c@));
    }
    v
}

/// Unmounting: the optional partitions first, then the root; the mapper
/// devices are unmounted and closed when encryption is on.
pub open spec fn spec_plan_34(c: ConfigV) -> Seq<ActionV> {
    let uefi = match c.uefi_partition {
        Option::Some(u) => seq![runv("umount"@, seq!["/dev/"@ + u])],
        Option::None => Seq::empty(),
    };
    let boot = match c.boot_partition {
        Option::Some(b) => seq![runv("umount"@, seq!["/dev/"@ + b])],
        Option::None => Seq::empty(),
    };
    let home = match c.home_partition {
        Option::Some(h) => if c.encrypted_partitions {
            seq![
                runv("umount"@, seq!["/dev/mapper/crypthome"@]),
                runv("cryptsetup"@, seq!["close"@, "/dev/mapper/crypthome"@]),
            ]
        } else {
            seq![runv("umount"@, seq!["/dev/"@ + h])]
        },
        Option::None => Seq::empty(),
    };
    let root = if c.encrypted_partitions {
        seq![
            runv("umount"@, seq!["/dev/mapper/cryptroot"@]),
            runv("cryptsetup"@, seq!["close"@, "/dev/mapper/cryptroot"@]),
        ]
    } else {
        seq![runv("umount"@, seq!["/dev/"@ + c.root_partition])]
    };
    uefi + boot + home + root
}

fn plan_step_34(c: &AppConfig) -> (r: Vec<Action>)
    ensures
        plan_view(r@) == spec_plan_34(c@),
{
    let mut v: Vec<Action> = Vec::new();
    match &c.uefi_partition {
        Some(u) => {
            let cmd = Command::new("umount").arg_string(dev_path(u.as_str()));
            proof {
                assert(cmd@.args =~= seq!["/dev/"@ + u@]);
            }
            v.push(run_action(cmd));
        },
        None => {},
    }
    match &c.boot_partition {
        Some(b) => {
            let cmd = Command::new("umount").arg_string(dev_path(b.as_str()));
            proof {
                assert(cmd@.args =~= seq!["/dev/"@ + b@]);
            }
            v.push(run_action(cmd));
        },
        None => {},
    }
    match &c.home_partition {
        Some(h) => {
            if c.encrypted_partitions {
                v.push(run1("umount", "/dev/mapper/crypthome"));
                v.push(run2("cryptsetup", "close", "/dev/mapper/crypthome"));
            } else {
                let cmd = Command::new("umount").arg_string(dev_path(h.as_str()));
                proof {
                    assert(cmd@.args =~= seq!["/dev/"@ + h@]);
                }
                v.push(run_action(cmd));
            }
        },
        None => {},
    }
    if c.encrypted_partitions {
        v.push(run1("umount", "/dev/mapper/cryptroot"));
        v.push(run2("cryptsetup", "close", "/dev/mapper/cryptroot"));
    } else {
        let cmd = Command::new("umount").arg_string(dev_path(c.root_partition.as_str()));
        proof {
            assert(cmd@.args =~= seq!["/dev/"@ + c@.root_partition]);
        }
        v.push(run_action(cmd));
    }
    proof {
        assert(plan_view(v@) =~= spec_plan_34(c@));
    }
    v
}

// ---------------------------------------------------------------------------
// Titles and the catalogue dispatcher
// ---------------------------------------------------------------------------

/// The banner title under which each step is announced.
pub open spec fn spec_step_title(step: u8) -> Seq<char> {
    if step == 1 {
        "BIOS / UEFI Installation mode"@
    } else if step == 2 {
        "Encrypted partitoins"@
    } else if step == 3 {
        "Configuring timedatectl"@
    } else if step == 4 {
        "Configuring partitions"@
    } else if step == 5 {
        "Getting partition names"@
    } else if step == 6 {
        "Formatting partitions"@
    } else if step == 7 {
        "Enabling swap"@
    } else if step == 8 {
        "Mounting partitions"@
    } else if step == 9 {
        "Updating mirrors"@
    } else if step == 10 {
        "Configuring pacman"@
    } else if step == 11 {
        "Starting to install base system and some softwares"@
    } else if step == 12 {
        "Generating file system table"@
    } else if step == 13 {
        "Configuring swap for encryption if necessary"@
    } else if step == 14 {
        "Configuring pacman for installed system"@
    } else if step == 15 {
        "Setting time zone"@
    } else if step == 16 {
        "Setting hardware clock"@
    } else if step == 17 {
        "Setting local"@
    } else if step == 18 {
        "Setting host name"@
    } else if step == 19 {
        "Setting hosts configuaration"@
    } else if step == 20 {
        "Setting root pasword"@
    } else if step == 21 {
        "Creating user"@
    } else if step == 22 {
        "Setting your user pasword"@
    } else if step == 23 {
        "Adding user to wheel group"@
    } else if step == 24 {
        "Updating sudoers file"@
    } else if step == 25 {
        "Installing grub"@
    } else if step == 26 {
        "Configuring grub"@
    } else if step == 27 {
        "Configuring and running mkinitcpio if necessary"@
    } else if step == 28 {
        "Making grub config"@
    } else if step == 29 {
        "Configuring crypttab if necessary"@
    } else if step == 30 {
        "Enabling network manager service"@
    } else if step == 31 {
        "Installing KDE desktop and applications"@
    } else if step == 32 {
        "Enabling SDDM service"@
    } else if step == 33 {
        "Installing paru aur helper"@
    } else if step == 34 {
        "Unmounting partition(s)"@
    } else {
        Seq::empty()
    }
}

/// The banner title of `step`.
pub fn step_title(step: u8) -> (r: String)
    ensures
        r@ == spec_step_title(step),
{
    let t: &str = if step == 1 {
        "BIOS / UEFI Installation mode"
    } else if step == 2 {
        "Encrypted partitoins"
    } else if step == 3 {
        "Configuring timedatectl"
    } else if step == 4 {
        "Configuring partitions"
    } else if step == 5 {
        "Getting partition names"
    } else if step == 6 {
        "Formatting partitions"
    } else if step == 7 {
        "Enabling swap"
    } else if step == 8 {
        "Mounting partitions"
    } else if step == 9 {
        "Updating mirrors"
    } else if step == 10 {
        "Configuring pacman"
    } else if step == 11 {
        "Starting to install base system and some softwares"
    } else if step == 12 {
        "Generating file system table"
    } else if step == 13 {
        "Configuring swap for encryption if necessary"
    } else if step == 14 {
        "Configuring pacman for installed system"
    } else if step == 15 {
        "Setting time zone"
    } else if step == 16 {
        "Setting hardware clock"
    } else if step == 17 {
        "Setting local"
    } else if step == 18 {
        "Setting host name"
    } else if step == 19 {
        "Setting hosts configuaration"
    } else if step == 20 {
        "Setting root pasword"
    } else if step == 21 {
        "Creating user"
    } else if step == 22 {
        "Setting your user pasword"
    } else if step == 23 {
        "Adding user to wheel group"
    } else if step == 24 {
        "Updating sudoers file"
    } else if step == 25 {
        "Installing grub"
    } else if step == 26 {
        "Configuring grub"
    } else if step == 27 {
        "Configuring and running mkinitcpio if necessary"
    } else if step == 28 {
        "Making grub config"
    } else if step == 29 {
        "Configuring crypttab if necessary"
    } else if step == 30 {
        "Enabling network manager service"
    } else if step == 31 {
        "Installing KDE desktop and applications"
    } else if step == 32 {
        "Enabling SDDM service"
    } else if step == 33 {
        "Installing paru aur helper"
    } else if step == 34 {
        "Unmounting partition(s)"
    } else {
        ""
    };
    proof {
        if !(1 <= step <= 34) {
            reveal_strlit("");
        }
    }
    t.to_owned()
}

/// The whole catalogue: the actions of `step` for the given state, input
/// and captured environment.  `None` means the plan cannot be produced —
/// an unknown step, an input of the wrong shape, or a failed lookup — and
/// the run aborts.
pub open spec fn spec_step_plan(c: ConfigV, step: u8, i: InputV, e: EnvV) -> Option<Seq<ActionV>> {
    if step == 1 || step == 2 || step == 5 {
        Option::Some(Seq::empty())
    } else if step == 3 {
        Option::Some(spec_plan_3())
    } else if step == 4 {
        match i {
            InputV::Disk { name } => Option::Some(spec_plan_4(name)),
            _ => Option::None,
        }
    } else if step == 6 {
        match i {
            InputV::FormatChoices { root, boot, uefi, home } => Option::Some(
                spec_plan_6(c, root, boot, uefi, home),
            ),
            _ => Option::None,
        }
    } else if step == 7 {
        match i {
            InputV::SwapChoice { name } => Option::Some(spec_plan_7(name)),
            _ => Option::None,
        }
    } else if step == 8 {
        Option::Some(spec_plan_8(c))
    } else if step == 9 {
        match i {
            InputV::Country { name } => Option::Some(spec_plan_9(name)),
            _ => Option::None,
        }
    } else if step == 10 {
        Option::Some(spec_plan_10())
    } else if step == 11 {
        match i {
            InputV::Cpu { brand } => Option::Some(spec_plan_11(brand)),
            _ => Option::None,
        }
    } else if step == 12 {
        Option::Some(spec_plan_12())
    } else if step == 13 {
        spec_plan_13(c, e.fstab)
    } else if step == 14 {
        Option::Some(spec_plan_14())
    } else if step == 15 {
        match i {
            InputV::TimeZone { zone } => if char_index(zone, '/') is Some {
                Option::Some(spec_plan_15(zone))
            } else {
                Option::None
            },
            _ => Option::None,
        }
    } else if step == 16 {
        Option::Some(spec_plan_16())
    } else if step == 17 {
        Option::Some(spec_plan_17())
    } else if step == 18 {
        match i {
            InputV::HostName { name } => Option::Some(spec_plan_18(name)),
            _ => Option::None,
        }
    } else if step == 19 {
        match i {
            InputV::HostName { name } => Option::Some(spec_plan_19(name)),
            _ => Option::None,
        }
    } else if step == 20 {
        Option::Some(spec_plan_20())
    } else if step == 21 {
        match i {
            InputV::NewUser { name } => Option::Some(spec_plan_21(name)),
            _ => Option::None,
        }
    } else if step == 22 {
        Option::Some(spec_plan_22(c))
    } else if step == 23 {
        Option::Some(spec_plan_23(c))
    } else if step == 24 {
        Option::Some(spec_plan_24())
    } else if step == 25 {
        match i {
            InputV::GrubDisk { disk } => spec_plan_25(c, disk),
            _ => Option::None,
        }
    } else if step == 26 {
        match i {
            InputV::Windows { alongside } => spec_plan_26(c, alongside, e.listing),
            _ => Option::None,
        }
    } else if step == 27 {
        match i {
            InputV::Gpu { nvidia, intel } => Option::Some(spec_plan_27(c, nvidia, intel)),
            _ => Option::None,
        }
    } else if step == 28 {
        Option::Some(spec_plan_28())
    } else if step == 29 {
        spec_plan_29(c, e.listing)
    } else if step == 30 {
        Option::Some(spec_plan_30())
    } else if step == 31 {
        Option::Some(spec_plan_31())
    } else if step == 32 {
        Option::Some(spec_plan_32())
    } else if step == 33 {
        Option::Some(spec_plan_33(c))
    } else if step == 34 {
        Option::Some(spec_plan_34(c))
    } else {
        Option::None
    }
}

/// Compile `step` to its action plan.
pub fn step_plan(c: &AppConfig, step: u8, input: &StepInput, env: &StepEnv) -> (r: Result<
    Vec<Action>,
    PlanError,
>)
    requires
        spec_input_fits(c@, step, input@),
        spec_input_valid(c@, step, input@),
    ensures
        match r {
            Ok(v) => spec_step_plan(c@, step, input@, env@) == Option::Some(plan_view(v@)),
            Err(e) => spec_step_plan(c@, step, input@, env@) is None && e == (if step == 13 {
                PlanError::SwapEntryNotFound
            } else if step == 26 || step == 29 {
                PlanError::IdentifierNotFound
            } else {
                PlanError::UnknownStep
            }),
        },
{
    if step == 1 || step == 2 || step == 5 {
        let v: Vec<Action> = Vec::new();
        proof {
            assert(plan_view(v@) =~= Seq::<ActionV>::empty());
        }
        Ok(v)
    } else if step == 3 {
        Ok(plan_step_3())
    } else if step == 4 {
        match input {
            StepInput::Disk { name } => Ok(plan_step_4(name.as_str())),
            _ => Err(PlanError::UnknownStep),
        }
    } else if step == 6 {
        match input {
            StepInput::FormatChoices { root, boot, uefi, home } => Ok(
                plan_step_6(c, *root, *boot, *uefi, *home),
            ),
            _ => Err(PlanError::UnknownStep),
        }
    } else if step == 7 {
        match input {
            StepInput::SwapChoice { name } => Ok(plan_step_7(name)),
            _ => Err(PlanError::UnknownStep),
        }
    } else if step == 8 {
        Ok(plan_step_8(c))
    } else if step == 9 {
        match input {
            StepInput::Country { name } => Ok(plan_step_9(name.as_str())),
            _ => Err(PlanError::UnknownStep),
        }
    } else if step == 10 {
        Ok(plan_step_10())
    } else if step == 11 {
        match input {
            StepInput::Cpu { brand } => Ok(plan_step_11(brand.as_str())),
            _ => Err(PlanError::UnknownStep),
        }
    } else if step == 12 {
        Ok(plan_step_12())
    } else if step == 13 {
        plan_step_13(c, env)
    } else if step == 14 {
        Ok(plan_step_14())
    } else if step == 15 {
        match input {
            StepInput::TimeZone { zone } => Ok(plan_step_15(zone.as_str())),
            _ => Err(PlanError::UnknownStep),
        }
    } else if step == 16 {
        Ok(plan_step_16())
    } else if step == 17 {
        Ok(plan_step_17())
    } else if step == 18 {
        match input {
            StepInput::HostName { name } => Ok(plan_step_18(name.as_str())),
            _ => Err(PlanError::UnknownStep),
        }
    } else if step == 19 {
        match input {
            StepInput::HostName { name } => Ok(plan_step_19(name.as_str())),
            _ => Err(PlanError::UnknownStep),
        }
    } else if step == 20 {
        Ok(plan_step_20())
    } else if step == 21 {
        match input {
            StepInput::NewUser { name } => Ok(plan_step_21(name.as_str())),
            _ => Err(PlanError::UnknownStep),
        }
    } else if step == 22 {
        Ok(plan_step_22(c))
    } else if step == 23 {
        Ok(plan_step_23(c))
    } else if step == 24 {
        Ok(plan_step_24())
    } else if step == 25 {
        match input {
            StepInput::GrubDisk { disk } => Ok(plan_step_25(c, disk)),
            _ => Err(PlanError::UnknownStep),
        }
    } else if step == 26 {
        match input {
            StepInput::Windows { alongside } => plan_step_26(c, *alongside, env),
            _ => Err(PlanError::UnknownStep),
        }
    } else if step == 27 {
        match input {
            StepInput::Gpu { nvidia, intel } => Ok(plan_step_27(c, *nvidia, *intel)),
            _ => Err(PlanError::UnknownStep),
        }
    } else if step == 28 {
        Ok(plan_step_28())
    } else if step == 29 {
        plan_step_29(c, env)
    } else if step == 30 {
        Ok(plan_step_30())
    } else if step == 31 {
        Ok(plan_step_31())
    } else if step == 32 {
        Ok(plan_step_32())
    } else if step == 33 {
        Ok(plan_step_33(c))
    } else if step == 34 {
        Ok(plan_step_34(c))
    } else {
        Err(PlanError::UnknownStep)
    }
}

// ---------------------------------------------------------------------------
// Laws: firmware mode and the UEFI steps
// ---------------------------------------------------------------------------

/// An action that does UEFI work: formatting the EFI filesystem, touching
/// the EFI mount point, or installing the EFI boot manager or target.
pub open spec fn mentions_uefi(a: ActionV) -> bool {
    match a {
        ActionV::Run(cmd) => cmd.program == "mkfs.fat"@ || cmd.args.contains("efibootmgr"@)
            || cmd.args.contains("--target=x86_64-efi"@) || cmd.args.contains("/mnt/boot/EFI"@),
        _ => false,
    }
}

/// No UEFI action appears anywhere in a plan.
pub open spec fn uefi_free(plan: Seq<ActionV>) -> bool {
    forall|j: int| 0 <= j < plan.len() ==> !mentions_uefi(#[trigger] plan[j])
}

proof fn lemma_uefi_markers()
    ensures
        "efibootmgr"@.len() == 10,
        "--target=x86_64-efi"@.len() == 19,
        "/mnt/boot/EFI"@.len() == 13,
        "mkfs.fat"@.len() == 8,
        "efibootmgr"@[0] == 'e',
        "--target=x86_64-efi"@[0] == '-',
        "/mnt/boot/EFI"@[1] == 'm',
        "mkfs.fat"@[0] == 'm',
{
    reveal_strlit("efibootmgr");
    reveal_strlit("--target=x86_64-efi");
    reveal_strlit("/mnt/boot/EFI");
    reveal_strlit("mkfs.fat");
}

/// A device path under `/dev/` is none of the UEFI markers.
proof fn lemma_dev_arg_ne_markers(x: Seq<char>)
    ensures
        "/dev/"@ + x != "efibootmgr"@,
        "/dev/"@ + x != "--target=x86_64-efi"@,
        "/dev/"@ + x != "/mnt/boot/EFI"@,
{
    lemma_uefi_markers();
    reveal_strlit("/dev/");
    let d = "/dev/"@ + x;
    assert(d[0] == '/');
    assert(d[1] == 'd');
}

proof fn lemma_uefi_free_concat(a: Seq<ActionV>, b: Seq<ActionV>)
    requires
        uefi_free(a),
        uefi_free(b),
    ensures
        uefi_free(a + b),
{
    assert(forall|j: int| 0 <= j < a.len() ==> (a + b)[j] == a[j]);
    assert(forall|j: int| a.len() <= j < a.len() + b.len() ==> (a + b)[j] == b[j - a.len()]);
}

proof fn lemma_bios_plan_6_free(c: ConfigV, fr: bool, fb: bool, fu: bool, fh: bool)
    requires
        c.uefi_partition is None,
    ensures
        uefi_free(spec_plan_6(c, fr, fb, fu, fh)),
{
    lemma_uefi_markers();
    reveal_strlit("cryptsetup");
    reveal_strlit("mkfs.btrfs");
    reveal_strlit("luksFormat");
    reveal_strlit("open");
    reveal_strlit("cryptroot");
    reveal_strlit("crypthome");
    reveal_strlit("-f");
    reveal_strlit("/dev/mapper/cryptroot");
    reveal_strlit("/dev/mapper/crypthome");
    lemma_dev_arg_ne_markers(c.root_partition);
    if c.boot_partition is Some {
        lemma_dev_arg_ne_markers(c.boot_partition->Some_0);
    }
    if c.home_partition is Some {
        lemma_dev_arg_ne_markers(c.home_partition->Some_0);
    }
    assert(uefi_free(spec_plan_6_root(c, fr)));
    assert(uefi_free(spec_plan_6_boot(c, fb)));
    assert(uefi_free(spec_plan_6_uefi(c, fu)));
    assert(uefi_free(spec_plan_6_home(c, fh)));
    lemma_uefi_free_concat(spec_plan_6_root(c, fr), spec_plan_6_boot(c, fb));
    lemma_uefi_free_concat(
        spec_plan_6_root(c, fr) + spec_plan_6_boot(c, fb),
        spec_plan_6_uefi(c, fu),
    );
    lemma_uefi_free_concat(
        spec_plan_6_root(c, fr) + spec_plan_6_boot(c, fb) + spec_plan_6_uefi(c, fu),
        spec_plan_6_home(c, fh),
    );
}

proof fn lemma_bios_plan_8_free(c: ConfigV)
    requires
        c.uefi_partition is None,
    ensures
        uefi_free(spec_plan_8(c)),
{
    lemma_uefi_markers();
    reveal_strlit("mount");
    reveal_strlit("mkdir");
    reveal_strlit("-p");
    reveal_strlit("/mnt");
    reveal_strlit("/mnt/boot");
    reveal_strlit("/mnt/home");
    reveal_strlit("/dev/mapper/cryptroot");
    reveal_strlit("/dev/mapper/crypthome");
    lemma_dev_arg_ne_markers(c.root_partition);
    if c.boot_partition is Some {
        lemma_dev_arg_ne_markers(c.boot_partition->Some_0);
    }
    if c.home_partition is Some {
        lemma_dev_arg_ne_markers(c.home_partition->Some_0);
    }
}

proof fn lemma_bios_plan_34_free(c: ConfigV)
    requires
        c.uefi_partition is None,
    ensures
        uefi_free(spec_plan_34(c)),
{
    lemma_uefi_markers();
    reveal_strlit("umount");
    reveal_strlit("cryptsetup");
    reveal_strlit("close");
    reveal_strlit("/dev/mapper/cryptroot");
    reveal_strlit("/dev/mapper/crypthome");
    lemma_dev_arg_ne_markers(c.root_partition);
    if c.uefi_partition is Some {
        lemma_dev_arg_ne_markers(c.uefi_partition->Some_0);
    }
    if c.boot_partition is Some {
        lemma_dev_arg_ne_markers(c.boot_partition->Some_0);
    }
    if c.home_partition is Some {
        lemma_dev_arg_ne_markers(c.home_partition->Some_0);
    }
}

/// Under BIOS firmware no UEFI-partition step prompts or runs: the
/// partition-naming step takes no UEFI name, the formatting, mounting and
/// unmounting steps perform no UEFI action, and the bootloader step
/// installs neither the EFI boot manager nor the EFI target.
pub proof fn lemma_bios_never_runs_uefi_steps(
    c: ConfigV,
    fr: bool,
    fb: bool,
    fu: bool,
    fh: bool,
    disk: Seq<char>,
    i: InputV,
)
    requires
        !c.uefi_install,
        c.uefi_partition is None,
    ensures
        spec_input_fits(c, 5, i) ==> (i matches InputV::PartitionNames { uefi, .. }
            && uefi is None),
        uefi_free(spec_plan_6(c, fr, fb, fu, fh)),
        uefi_free(spec_plan_8(c)),
        spec_plan_25(c, Option::Some(disk)) is Some && uefi_free(
            spec_plan_25(c, Option::Some(disk))->Some_0,
        ),
        uefi_free(spec_plan_34(c)),
{
    lemma_bios_plan_6_free(c, fr, fb, fu, fh);
    lemma_bios_plan_8_free(c);
    lemma_bios_plan_34_free(c);
    lemma_uefi_markers();
    reveal_strlit("arch-chroot");
    reveal_strlit("/mnt");
    reveal_strlit("grub-install");
    reveal_strlit("--target=i386-pc");
    lemma_dev_arg_ne_markers(disk);
    assert(uefi_free(spec_plan_25(c, Option::Some(disk))->Some_0));
}

/// The partition-naming step establishes the firmware-mode invariant: a
/// UEFI partition is recorded if and only if the firmware mode is UEFI,
/// and the root partition is recorded non-empty.  Likewise the
/// user-creation step records a non-empty username.
pub proof fn lemma_recorded_answers_invariant(c: ConfigV, i5: InputV, i21: InputV)
    requires
        spec_input_fits(c, 5, i5),
        spec_input_valid(c, 5, i5),
        spec_input_fits(c, 21, i21),
        spec_input_valid(c, 21, i21),
    ensures
        spec_apply_step(c, 5, i5).uefi_partition is Some <==> c.uefi_install,
        spec_apply_step(c, 5, i5).uefi_install == c.uefi_install,
        spec_apply_step(c, 5, i5).root_partition.len() > 0,
        spec_apply_step(c, 21, i21).username.len() > 0,
{
}

/// Under UEFI firmware the UEFI steps always run: the bootloader step
/// installs the EFI boot manager and the EFI grub target, and the mounting
/// step mounts the recorded EFI partition at its mount point.
pub proof fn lemma_uefi_steps_always_run(c: ConfigV)
    requires
        c.uefi_install,
        c.uefi_partition is Some,
    ensures
        spec_plan_25(c, Option::None) == Option::Some(
            seq![
                runv("arch-chroot"@, seq!["/mnt"@, "pacman"@, "-Sy"@, "efibootmgr"@, "--noconfirm"@]),
                runv(
                    "arch-chroot"@,
                    seq![
                        "/mnt"@,
                        "grub-install"@,
                        "--target=x86_64-efi"@,
                        "--bootloader-id=grub_uefi"@,
                        "--recheck"@,
                    ],
                ),
            ],
        ),
        exists|j: int|
            0 <= j < spec_plan_8(c).len() && spec_plan_8(c)[j] == runv(
                "mount"@,
                seq!["/dev/"@ + c.uefi_partition->Some_0, "/mnt/boot/EFI"@],
            ),
{
    let plan = spec_plan_8(c);
    let target = runv("mount"@, seq!["/dev/"@ + c.uefi_partition->Some_0, "/mnt/boot/EFI"@]);
    if c.boot_partition is Some {
        assert(plan[4] == target);
    } else {
        assert(plan[2] == target);
    }
}

} // verus!
