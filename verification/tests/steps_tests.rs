use arch_installer::config::AppConfig;
use arch_installer::plan::{Action, exit_outcome};
use arch_installer::steps::{
    StepInput, StepEnv, Policy, PlanError, step_plan, step_pre_plan, step_policy, step_title,
    input_fits, input_valid, step_env_needs,
};

fn args_of(a: &Action) -> Vec<String> {
    match a {
        Action::Run(c) => {
            let mut v = vec![c.program.clone()];
            v.extend(c.args.iter().cloned());
            v
        },
        _ => panic!("expected a command"),
    }
}

fn plan(c: &AppConfig, step: u8, input: StepInput) -> Vec<Action> {
    step_plan(c, step, &input, &StepEnv::none()).unwrap()
}

#[test]
fn question_only_steps_have_empty_plans() {
    let c = AppConfig::new(34);
    assert!(plan(&c, 1, StepInput::Mode { uefi: true }).is_empty());
    assert!(plan(&c, 2, StepInput::Encrypt { enabled: true }).is_empty());
    assert!(
        plan(
            &c,
            5,
            StepInput::PartitionNames {
                root: String::from("sda1"),
                boot: None,
                uefi: None,
                home: None,
            },
        ).is_empty()
    );
}

#[test]
fn clock_step_runs_two_commands() {
    let c = AppConfig::new(34);
    let p = plan(&c, 3, StepInput::NoInput);
    assert_eq!(p.len(), 2);
    assert_eq!(args_of(&p[0]), ["timedatectl", "set-ntp", "true"]);
    assert_eq!(args_of(&p[1]), ["timedatectl", "status"]);
}

#[test]
fn partitioning_step_lists_disks_first() {
    let pre = step_pre_plan(4);
    assert_eq!(args_of(&pre[0]), ["fdisk", "-l"]);
    let c = AppConfig::new(34);
    let p = plan(&c, 4, StepInput::Disk { name: String::from("sdb") });
    assert_eq!(args_of(&p[0]), ["fdisk", "/dev/sdb"]);
    assert_eq!(args_of(&p[1]), ["lsblk"]);
}

#[test]
fn formatting_plain_root_only() {
    let mut c = AppConfig::new(34);
    c.root_partition = String::from("sda1");
    let p = plan(
        &c,
        6,
        StepInput::FormatChoices { root: true, boot: false, uefi: false, home: false },
    );
    assert_eq!(p.len(), 1);
    assert_eq!(args_of(&p[0]), ["mkfs.btrfs", "-f", "/dev/sda1"]);
}

#[test]
fn formatting_encrypted_root_formats_opens_and_makes_fs() {
    let mut c = AppConfig::new(34);
    c.encrypted_partitions = true;
    c.root_partition = String::from("sda1");
    let p = plan(
        &c,
        6,
        StepInput::FormatChoices { root: true, boot: false, uefi: false, home: false },
    );
    assert_eq!(p.len(), 3);
    assert_eq!(args_of(&p[0]), ["cryptsetup", "luksFormat", "/dev/sda1"]);
    assert_eq!(args_of(&p[1]), ["cryptsetup", "open", "/dev/sda1", "cryptroot"]);
    assert_eq!(args_of(&p[2]), ["mkfs.btrfs", "-f", "/dev/mapper/cryptroot"]);
}

#[test]
fn formatting_encrypted_root_kept_as_is_still_opens() {
    let mut c = AppConfig::new(34);
    c.encrypted_partitions = true;
    c.root_partition = String::from("sda1");
    let p = plan(
        &c,
        6,
        StepInput::FormatChoices { root: false, boot: false, uefi: false, home: false },
    );
    assert_eq!(p.len(), 1);
    assert_eq!(args_of(&p[0]), ["cryptsetup", "open", "/dev/sda1", "cryptroot"]);
}

#[test]
fn mounting_with_all_partitions() {
    let mut c = AppConfig::new(34);
    c.uefi_install = true;
    c.root_partition = String::from("sda3");
    c.boot_partition = Some(String::from("sda2"));
    c.uefi_partition = Some(String::from("sda1"));
    c.home_partition = Some(String::from("sda4"));
    let p = plan(&c, 8, StepInput::NoInput);
    assert_eq!(p.len(), 7);
    assert_eq!(args_of(&p[0]), ["mount", "/dev/sda3", "/mnt"]);
    assert_eq!(args_of(&p[1]), ["mkdir", "-p", "/mnt/boot"]);
    assert_eq!(args_of(&p[2]), ["mount", "/dev/sda2", "/mnt/boot"]);
    assert_eq!(args_of(&p[3]), ["mkdir", "-p", "/mnt/boot/EFI"]);
    assert_eq!(args_of(&p[4]), ["mount", "/dev/sda1", "/mnt/boot/EFI"]);
    assert_eq!(args_of(&p[5]), ["mkdir", "-p", "/mnt/home"]);
    assert_eq!(args_of(&p[6]), ["mount", "/dev/sda4", "/mnt/home"]);
}

#[test]
fn pacman_step_patches_three_settings() {
    let c = AppConfig::new(34);
    let p = plan(&c, 10, StepInput::NoInput);
    match &p[0] {
        Action::Patch(path, rs) => {
            assert_eq!(path, "/etc/pacman.conf");
            assert_eq!(rs.len(), 3);
            assert_eq!(rs[0].from, "#Color");
            assert_eq!(rs[0].to, "Color");
            assert_eq!(rs[2].to, "ParallelDownloads = 5\nILoveCandy");
        },
        _ => panic!("expected a patch"),
    }
}

#[test]
fn fstab_step_captures_output() {
    let c = AppConfig::new(34);
    let p = plan(&c, 12, StepInput::NoInput);
    match &p[0] {
        Action::CaptureToFile(cmd, path) => {
            assert_eq!(cmd.program, "genfstab");
            assert_eq!(cmd.args, ["-U", "/mnt"]);
            assert_eq!(path, "/mnt/etc/fstab");
        },
        _ => panic!("expected a capture"),
    }
}

#[test]
fn encrypted_swap_rewrites_the_fstab_entry() {
    let mut c = AppConfig::new(34);
    c.encrypted_partitions = true;
    c.swap_partition = Some(String::from("sda5"));
    let env = StepEnv {
        listing: None,
        fstab: Some(String::from(
            "# Static information\nUUID=abcd\t/ btrfs rw 0 0\nUUID=efgh\tnone swap defaults 0 0\n",
        )),
    };
    let p = step_plan(&c, 13, &StepInput::NoInput, &env).unwrap();
    assert_eq!(p.len(), 3);
    assert_eq!(args_of(&p[0]), ["swapoff", "/dev/sda5"]);
    assert_eq!(args_of(&p[1]), ["mkfs.ext2", "-L", "cryptswap", "/dev/sda5", "1M"]);
    match &p[2] {
        Action::Patch(path, rs) => {
            assert_eq!(path, "/mnt/etc/fstab");
            assert_eq!(rs[0].from, "UUID=efgh");
            assert_eq!(rs[0].to, "/dev/mapper/swap");
        },
        _ => panic!("expected a patch"),
    }
}

#[test]
fn encrypted_swap_without_table_entry_fails() {
    let mut c = AppConfig::new(34);
    c.encrypted_partitions = true;
    c.swap_partition = Some(String::from("sda5"));
    let env = StepEnv { listing: None, fstab: Some(String::from("UUID=abcd\t/ btrfs rw 0 0\n")) };
    match step_plan(&c, 13, &StepInput::NoInput, &env) {
        Err(e) => assert_eq!(e, PlanError::SwapEntryNotFound),
        Ok(_) => panic!("expected an error"),
    }
}

#[test]
fn plain_swap_needs_no_fstab_work() {
    let mut c = AppConfig::new(34);
    c.swap_partition = Some(String::from("sda5"));
    assert!(plan(&c, 13, StepInput::NoInput).is_empty());
    assert_eq!(step_env_needs(&c, 13), (false, false));
    c.encrypted_partitions = true;
    assert_eq!(step_env_needs(&c, 13), (false, true));
}

#[test]
fn time_zone_step_links_the_zone_file() {
    let c = AppConfig::new(34);
    let p = plan(&c, 15, StepInput::TimeZone { zone: String::from("Europe/London") });
    assert_eq!(
        args_of(&p[0]),
        [
            "arch-chroot",
            "/mnt",
            "ln",
            "-sf",
            "/mnt/etc/usr/share/zoneinfo/Europe/London",
            "/etc/localtime",
        ]
    );
}

#[test]
fn time_zone_without_separator_is_invalid_input() {
    let c = AppConfig::new(34);
    let bad = StepInput::TimeZone { zone: String::from("London") };
    assert!(input_fits(&c, 15, &bad));
    assert!(!input_valid(&c, 15, &bad));
    let good = StepInput::TimeZone { zone: String::from("Europe/London") };
    assert!(input_valid(&c, 15, &good));
}

#[test]
fn hosts_step_writes_the_local_domain() {
    let c = AppConfig::new(34);
    let p = plan(&c, 19, StepInput::HostName { name: String::from("arch") });
    match &p[0] {
        Action::WriteFile(path, content) => {
            assert_eq!(path, "/mnt/etc/hosts");
            assert_eq!(
                content,
                "127.0.0.1\tlocalhost\n::1 \t\tlocalhost\n127.0.1.1\tarch.localdomain\tarch"
            );
        },
        _ => panic!("expected a write"),
    }
}

#[test]
fn user_steps_use_the_recorded_name() {
    let mut c = AppConfig::new(34);
    c.username = String::from("alice");
    let p21 = plan(&c, 21, StepInput::NewUser { name: String::from("bob") });
    assert_eq!(args_of(&p21[0]), ["arch-chroot", "/mnt", "useradd", "-m", "bob"]);
    let p22 = plan(&c, 22, StepInput::NoInput);
    assert_eq!(args_of(&p22[0]), ["arch-chroot", "/mnt", "passwd", "alice"]);
    let p23 = plan(&c, 23, StepInput::NoInput);
    assert_eq!(args_of(&p23[0]), ["arch-chroot", "/mnt", "usermod", "-aG", "wheel", "alice"]);
}

#[test]
fn bootloader_under_uefi_installs_the_efi_target() {
    let mut c = AppConfig::new(34);
    c.uefi_install = true;
    c.uefi_partition = Some(String::from("sda1"));
    let p = plan(&c, 25, StepInput::GrubDisk { disk: None });
    assert_eq!(p.len(), 2);
    assert_eq!(
        args_of(&p[0]),
        ["arch-chroot", "/mnt", "pacman", "-Sy", "efibootmgr", "--noconfirm"]
    );
    assert_eq!(
        args_of(&p[1]),
        [
            "arch-chroot",
            "/mnt",
            "grub-install",
            "--target=x86_64-efi",
            "--bootloader-id=grub_uefi",
            "--recheck",
        ]
    );
}

#[test]
fn bootloader_under_bios_targets_the_answered_disk() {
    let c = AppConfig::new(34);
    let p = plan(&c, 25, StepInput::GrubDisk { disk: Some(String::from("sda")) });
    assert_eq!(p.len(), 1);
    assert_eq!(
        args_of(&p[0]),
        ["arch-chroot", "/mnt", "grub-install", "--target=i386-pc", "/dev/sda"]
    );
}

#[test]
fn grub_step_reads_identifiers_from_the_listing() {
    let mut c = AppConfig::new(34);
    c.encrypted_partitions = true;
    c.root_partition = String::from("sda2");
    let env = StepEnv {
        listing: Some(String::from(
            "/dev/sda2: UUID=\"root-id\" TYPE=\"crypto_LUKS\"\n\
             /dev/mapper/cryptroot: UUID=\"crypt-id\" TYPE=\"btrfs\"",
        )),
        fstab: None,
    };
    let p = step_plan(&c, 26, &StepInput::Windows { alongside: false }, &env).unwrap();
    assert_eq!(p.len(), 2);
    match &p[1] {
        Action::Patch(path, rs) => {
            assert_eq!(path, "/mnt/etc/default/grub");
            assert_eq!(rs[0].from, "GRUB_CMDLINE_LINUX_DEFAULT=\"loglevel=3\"");
            assert_eq!(
                rs[0].to,
                "GRUB_CMDLINE_LINUX_DEFAULT=\"loglevel=3 cryptdevice=UUID=root-id:cryptroot root=UUID=crypt-id\""
            );
            assert_eq!(rs[1].from, "GRUB_TIMEOUT=5");
            assert_eq!(rs[1].to, "GRUB_TIMEOUT=0");
        },
        _ => panic!("expected a patch"),
    }
}

#[test]
fn grub_step_fails_without_the_identifier() {
    let mut c = AppConfig::new(34);
    c.encrypted_partitions = true;
    c.root_partition = String::from("sda2");
    let env = StepEnv { listing: Some(String::from("/dev/sdb1: TYPE=\"vfat\"")), fstab: None };
    match step_plan(&c, 26, &StepInput::Windows { alongside: false }, &env) {
        Err(e) => assert_eq!(e, PlanError::IdentifierNotFound),
        Ok(_) => panic!("expected an error"),
    }
}

#[test]
fn gpu_step_has_four_outcomes() {
    let c = AppConfig::new(34);
    let neither = plan(&c, 27, StepInput::Gpu { nvidia: false, intel: false });
    assert!(neither.is_empty());
    let nvidia = plan(&c, 27, StepInput::Gpu { nvidia: true, intel: false });
    assert_eq!(args_of(&nvidia[0]), ["arch-chroot", "/mnt", "pacman", "-Sy", "nvidia", "--noconfirm"]);
    match &nvidia[1] {
        Action::Patch(_, rs) => assert_eq!(rs[0].to, "MODULES=(nvidia)"),
        _ => panic!("expected a patch"),
    }
    let intel = plan(&c, 27, StepInput::Gpu { nvidia: false, intel: true });
    match &intel[0] {
        Action::Patch(_, rs) => assert_eq!(rs[0].to, "MODULES=(i915)"),
        _ => panic!("expected a patch"),
    }
    assert_eq!(args_of(intel.last().unwrap()), ["arch-chroot", "/mnt", "mkinitcpio", "-p", "linux"]);
    let both = plan(&c, 27, StepInput::Gpu { nvidia: true, intel: true });
    match &both[1] {
        Action::Patch(_, rs) => assert_eq!(rs[0].to, "MODULES=(nvidia i915)"),
        _ => panic!("expected a patch"),
    }
}

#[test]
fn crypttab_step_appends_the_home_entry() {
    let mut c = AppConfig::new(34);
    c.encrypted_partitions = true;
    c.home_partition = Some(String::from("sda4"));
    c.swap_partition = Some(String::from("sda5"));
    let env = StepEnv {
        listing: Some(String::from("/dev/sda4: UUID=\"home-id\" TYPE=\"crypto_LUKS\"")),
        fstab: None,
    };
    let p = step_plan(&c, 29, &StepInput::NoInput, &env).unwrap();
    assert_eq!(p.len(), 2);
    match &p[0] {
        Action::Patch(path, rs) => {
            assert_eq!(path, "/mnt/etc/crypttab");
            assert_eq!(rs[0].from, "# swap");
            assert_eq!(rs[1].to, "LABEL=cryptswap");
            assert_eq!(rs[2].to, "size=256,offset=2048");
        },
        _ => panic!("expected a patch"),
    }
    match &p[1] {
        Action::AppendToFile(path, content) => {
            assert_eq!(path, "/mnt/etc/crypttab");
            assert_eq!(content, "home UUID=home-id none");
        },
        _ => panic!("expected an append"),
    }
}

#[test]
fn unmounting_under_encryption_closes_the_volumes() {
    let mut c = AppConfig::new(34);
    c.encrypted_partitions = true;
    c.root_partition = String::from("sda2");
    c.home_partition = Some(String::from("sda4"));
    let p = plan(&c, 34, StepInput::NoInput);
    assert_eq!(p.len(), 4);
    assert_eq!(args_of(&p[0]), ["umount", "/dev/mapper/crypthome"]);
    assert_eq!(args_of(&p[1]), ["cryptsetup", "close", "/dev/mapper/crypthome"]);
    assert_eq!(args_of(&p[2]), ["umount", "/dev/mapper/cryptroot"]);
    assert_eq!(args_of(&p[3]), ["cryptsetup", "close", "/dev/mapper/cryptroot"]);
}

#[test]
fn policy_of_the_retry_steps() {
    assert_eq!(step_policy(20), Policy::RetryAsk);
    assert_eq!(step_policy(21), Policy::RetryAsk);
    assert_eq!(step_policy(22), Policy::RetryAsk);
    assert_eq!(step_policy(27), Policy::ContinueAsk);
    assert_eq!(step_policy(8), Policy::Fatal);
    assert_eq!(step_policy(15), Policy::Fatal);
}

#[test]
fn unknown_step_is_refused() {
    let c = AppConfig::new(34);
    match step_plan(&c, 35, &StepInput::NoInput, &StepEnv::none()) {
        Err(e) => assert_eq!(e, PlanError::UnknownStep),
        Ok(_) => panic!("expected an error"),
    }
    assert!(!input_fits(&c, 0, &StepInput::NoInput));
}

#[test]
fn exit_codes_classify_as_the_runner_reports() {
    assert!(exit_outcome(0).is_ok());
    assert_eq!(exit_outcome(1).unwrap_err().exit_code, 1);
    assert_eq!(exit_outcome(-13).unwrap_err().exit_code, -13);
}

#[test]
fn titles_name_the_steps() {
    assert_eq!(step_title(1), "BIOS / UEFI Installation mode");
    assert_eq!(step_title(8), "Mounting partitions");
    assert_eq!(step_title(34), "Unmounting partition(s)");
}
