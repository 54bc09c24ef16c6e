use arch_installer::config::AppConfig;
use arch_installer::persist::{render_config, parse_config};
use arch_installer::plan::Action;
use arch_installer::sequencer::{AbortReason, Attempt, RunOutcome, RunReport, run_scripted};
use arch_installer::steps::{StepInput, StepEnv};

fn ok_attempt(input: StepInput) -> Attempt {
    Attempt { input, env: StepEnv { listing: None, fstab: None }, ok: true, retry: false }
}

/// The operator's answers for a plain BIOS run: no encryption, a root
/// partition only, boot, home and swap declined.
fn plain_bios_input(step: u8) -> StepInput {
    match step {
        1 => StepInput::Mode { uefi: false },
        2 => StepInput::Encrypt { enabled: false },
        4 => StepInput::Disk { name: String::from("sda") },
        5 => StepInput::PartitionNames {
            root: String::from("sda1"),
            boot: None,
            uefi: None,
            home: None,
        },
        6 => StepInput::FormatChoices { root: true, boot: false, uefi: false, home: false },
        7 => StepInput::SwapChoice { name: None },
        9 => StepInput::Country { name: String::from("France") },
        11 => StepInput::Cpu { brand: String::from("amd") },
        15 => StepInput::TimeZone { zone: String::from("Europe/Paris") },
        18 | 19 => StepInput::HostName { name: String::from("arch") },
        21 => StepInput::NewUser { name: String::from("alice") },
        25 => StepInput::GrubDisk { disk: Some(String::from("sda")) },
        26 => StepInput::Windows { alongside: false },
        27 => StepInput::Gpu { nvidia: false, intel: false },
        _ => StepInput::NoInput,
    }
}

fn plain_bios_script(from: u8, to: u8) -> Vec<Attempt> {
    (from..=to).map(|k| ok_attempt(plain_bios_input(k))).collect()
}

fn command_words(report: &RunReport) -> Vec<String> {
    let mut words = Vec::new();
    for a in &report.actions {
        if let Action::Run(c) = a {
            words.push(c.program.clone());
            words.extend(c.args.iter().cloned());
        }
    }
    words
}

#[test]
fn plain_bios_run_completes_and_skips_every_optional_step() {
    let mut c = AppConfig::new(34);
    let script = plain_bios_script(1, 34);
    let report = run_scripted(&mut c, &script);
    assert_eq!(report.outcome, RunOutcome::Completed);
    let expected: Vec<u8> = (1..=34).collect();
    assert_eq!(report.executed, expected);
    assert_eq!(c.current_installation_step, 35);
    assert!(!c.uefi_install);
    assert!(!c.encrypted_partitions);
    assert_eq!(c.root_partition, "sda1");
    assert!(c.uefi_partition.is_none());
    assert!(c.boot_partition.is_none());
    assert!(c.home_partition.is_none());
    assert!(c.swap_partition.is_none());
    assert_eq!(c.username, "alice");
    // No UEFI, boot, home, swap or LUKS work was ever planned.
    let words = command_words(&report);
    for w in &words {
        assert_ne!(w, "cryptsetup");
        assert_ne!(w, "mkfs.fat");
        assert_ne!(w, "efibootmgr");
        assert_ne!(w, "mkswap");
        assert_ne!(w, "swapon");
        assert_ne!(w, "/mnt/boot");
        assert_ne!(w, "/mnt/boot/EFI");
        assert_ne!(w, "/mnt/home");
        assert_ne!(w, "--target=x86_64-efi");
    }
    assert!(words.iter().any(|w| w == "--target=i386-pc"));
}

#[test]
fn failure_on_the_mount_step_aborts_and_resumes_there() {
    let mut c = AppConfig::new(34);
    let mut script = plain_bios_script(1, 7);
    script.push(Attempt {
        input: StepInput::NoInput,
        env: StepEnv { listing: None, fstab: None },
        ok: false,
        retry: false,
    });
    let report = run_scripted(&mut c, &script);
    assert_eq!(report.outcome, RunOutcome::Aborted(AbortReason::FailedCommand));
    assert_eq!(report.executed, (1..=7).collect::<Vec<u8>>());
    // The persisted state still names the mount step.
    assert_eq!(c.current_installation_step, 8);
    let persisted = render_config(&c);
    let mut resumed = parse_config(&persisted).unwrap();
    assert_eq!(resumed.current_installation_step, 8);
    assert_eq!(resumed.root_partition, "sda1");
    // A second invocation resumes at the mount step and finishes.
    let rest = plain_bios_script(8, 34);
    let second = run_scripted(&mut resumed, &rest);
    assert_eq!(second.outcome, RunOutcome::Completed);
    assert_eq!(second.executed, (8..=34).collect::<Vec<u8>>());
    assert_eq!(second.executed[0], 8);
    assert!(second.executed.iter().all(|&s| s >= 8));
}

#[test]
fn root_password_retry_leaves_no_trace() {
    // The straight run, for comparison.
    let mut straight = AppConfig::new(34);
    let outcome = run_scripted(&mut straight, &plain_bios_script(1, 34));
    assert_eq!(outcome.outcome, RunOutcome::Completed);
    // The same run, except that the root-password step fails once and the
    // operator asks for a retry.
    let mut script = plain_bios_script(1, 19);
    script.push(Attempt {
        input: StepInput::NoInput,
        env: StepEnv { listing: None, fstab: None },
        ok: false,
        retry: true,
    });
    let mut rest = plain_bios_script(20, 34);
    script.append(&mut rest);
    let mut c = AppConfig::new(34);
    let report = run_scripted(&mut c, &script);
    assert_eq!(report.outcome, RunOutcome::Completed);
    // The retried step completed once and the failure is invisible in the
    // persisted state.
    assert_eq!(report.executed, (1..=34).collect::<Vec<u8>>());
    assert_eq!(render_config(&c), render_config(&straight));
}

#[test]
fn declining_a_retry_aborts_at_the_failed_step() {
    let mut script = plain_bios_script(1, 19);
    script.push(Attempt {
        input: StepInput::NoInput,
        env: StepEnv { listing: None, fstab: None },
        ok: false,
        retry: false,
    });
    let mut c = AppConfig::new(34);
    let report = run_scripted(&mut c, &script);
    assert_eq!(report.outcome, RunOutcome::Aborted(AbortReason::FailedCommand));
    assert_eq!(c.current_installation_step, 20);
}

#[test]
fn accepted_initramfs_failure_counts_as_done() {
    let mut script = plain_bios_script(1, 26);
    script.push(Attempt {
        input: StepInput::Gpu { nvidia: true, intel: false },
        env: StepEnv { listing: None, fstab: None },
        ok: false,
        retry: true,
    });
    let mut rest = plain_bios_script(28, 34);
    script.append(&mut rest);
    let mut c = AppConfig::new(34);
    let report = run_scripted(&mut c, &script);
    assert_eq!(report.outcome, RunOutcome::Completed);
}

#[test]
fn resuming_executes_only_the_remaining_steps() {
    let mut c = AppConfig::new(34);
    c.root_partition = String::from("sda1");
    c.username = String::from("alice");
    c.current_installation_step = 30;
    let script = plain_bios_script(30, 34);
    let report = run_scripted(&mut c, &script);
    assert_eq!(report.outcome, RunOutcome::Completed);
    assert_eq!(report.executed, vec![30u8, 31, 32, 33, 34]);
}

#[test]
fn invalid_time_zone_is_asked_again() {
    let mut c = AppConfig::new(34);
    c.root_partition = String::from("sda1");
    c.current_installation_step = 15;
    let script = vec![
        Attempt {
            input: StepInput::TimeZone { zone: String::from("London") },
            env: StepEnv { listing: None, fstab: None },
            ok: true,
            retry: true,
        },
        ok_attempt(StepInput::TimeZone { zone: String::from("Europe/London") }),
    ];
    let report = run_scripted(&mut c, &script);
    assert_eq!(report.outcome, RunOutcome::OutOfScript);
    assert_eq!(report.executed, vec![15u8]);
    assert_eq!(c.current_installation_step, 16);
}

#[test]
fn declining_an_invalid_time_zone_aborts() {
    let mut c = AppConfig::new(34);
    c.root_partition = String::from("sda1");
    c.current_installation_step = 15;
    let script = vec![Attempt {
        input: StepInput::TimeZone { zone: String::from("London") },
        env: StepEnv { listing: None, fstab: None },
        ok: true,
        retry: false,
    }];
    let report = run_scripted(&mut c, &script);
    assert_eq!(report.outcome, RunOutcome::Aborted(AbortReason::DeclinedInput));
    assert_eq!(c.current_installation_step, 15);
}

#[test]
fn wrongly_shaped_input_fails_fatally() {
    let mut c = AppConfig::new(34);
    let script = vec![ok_attempt(StepInput::NoInput)];
    let report = run_scripted(&mut c, &script);
    assert_eq!(report.outcome, RunOutcome::Aborted(AbortReason::RejectedInput));
    assert_eq!(c.current_installation_step, 1);
}

#[test]
fn completed_state_runs_nothing() {
    let mut c = AppConfig::new(34);
    c.current_installation_step = 35;
    let report = run_scripted(&mut c, &Vec::new());
    assert_eq!(report.outcome, RunOutcome::Completed);
    assert!(report.executed.is_empty());
    assert!(report.actions.is_empty());
}
