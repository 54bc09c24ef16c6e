use arch_installer::config::AppConfig;
use arch_installer::persist::{render_config, parse_config, LoadError};

fn sample_config() -> AppConfig {
    let mut c = AppConfig::new(34);
    c.uefi_install = true;
    c.uefi_partition = Some(String::from("sda1"));
    c.boot_partition = Some(String::from("sda2"));
    c.root_partition = String::from("sda3");
    c.home_partition = Some(String::from("sda4"));
    c.username = String::from("alice");
    c.encrypted_partitions = true;
    c.swap_partition = None;
    c.current_installation_step = 17;
    c
}

fn assert_same(a: &AppConfig, b: &AppConfig) {
    assert_eq!(a.uefi_install, b.uefi_install);
    assert_eq!(a.uefi_partition, b.uefi_partition);
    assert_eq!(a.boot_partition, b.boot_partition);
    assert_eq!(a.root_partition, b.root_partition);
    assert_eq!(a.home_partition, b.home_partition);
    assert_eq!(a.username, b.username);
    assert_eq!(a.encrypted_partitions, b.encrypted_partitions);
    assert_eq!(a.swap_partition, b.swap_partition);
    assert_eq!(a.current_installation_step, b.current_installation_step);
    assert_eq!(a.total_installation_steps, b.total_installation_steps);
}

#[test]
fn fresh_config_defaults() {
    let c = AppConfig::new(34);
    assert!(!c.uefi_install);
    assert!(c.uefi_partition.is_none());
    assert!(c.boot_partition.is_none());
    assert_eq!(c.root_partition, "");
    assert!(c.home_partition.is_none());
    assert_eq!(c.username, "");
    assert!(!c.encrypted_partitions);
    assert!(c.swap_partition.is_none());
    assert_eq!(c.current_installation_step, 1);
    assert_eq!(c.total_installation_steps, 34);
}

#[test]
fn reset_discards_answers_and_returns_to_step_one() {
    let mut c = sample_config();
    c.reset();
    assert_same(&c, &AppConfig::new(34));
}

#[test]
fn render_of_fresh_config() {
    let c = AppConfig::new(34);
    assert_eq!(
        render_config(&c),
        "false\nNone\nNone\n\nNone\n\nfalse\nNone\n1\n34"
    );
}

#[test]
fn render_of_populated_config() {
    let c = sample_config();
    assert_eq!(
        render_config(&c),
        "true\nSome(\"sda1\")\nSome(\"sda2\")\nsda3\nSome(\"sda4\")\nalice\ntrue\nNone\n17\n34"
    );
}

#[test]
fn round_trip_fresh() {
    let c = AppConfig::new(34);
    let back = parse_config(&render_config(&c)).unwrap();
    assert_same(&back, &c);
}

#[test]
fn round_trip_populated() {
    let c = sample_config();
    let back = parse_config(&render_config(&c)).unwrap();
    assert_same(&back, &c);
}

#[test]
fn round_trip_after_each_completed_step() {
    // After every completed step the persisted record reloads with the
    // next step index and every recorded field intact.
    let mut c = AppConfig::new(34);
    c.uefi_install = true;
    for k in 1..=10u8 {
        assert_eq!(c.current_installation_step, k);
        if k == 5 {
            c.root_partition = String::from("nvme0n1p2");
            c.uefi_partition = Some(String::from("nvme0n1p1"));
        }
        c.advance();
        let back = parse_config(&render_config(&c)).unwrap();
        assert_same(&back, &c);
        assert_eq!(back.current_installation_step, k + 1);
    }
    assert_eq!(c.root_partition, "nvme0n1p2");
}

#[test]
fn parse_rejects_wrong_field_count() {
    match parse_config("false\nNone\nNone\n\nNone\n\nfalse\nNone\n1") {
        Err(e) => assert_eq!(e, LoadError::CorruptState),
        Ok(_) => panic!("expected an error"),
    }
    match parse_config("") {
        Err(e) => assert_eq!(e, LoadError::CorruptState),
        Ok(_) => panic!("expected an error"),
    }
    match parse_config("false\nNone\nNone\n\nNone\n\nfalse\nNone\n1\n34\nextra") {
        Err(e) => assert_eq!(e, LoadError::CorruptState),
        Ok(_) => panic!("expected an error"),
    }
}

#[test]
fn parse_rejects_bad_flag() {
    match parse_config("yes\nNone\nNone\n\nNone\n\nfalse\nNone\n1\n34") {
        Err(e) => assert_eq!(e, LoadError::CorruptState),
        Ok(_) => panic!("expected an error"),
    }
}

#[test]
fn parse_rejects_bad_optional_field() {
    match parse_config("false\nSome(sda1)\nNone\n\nNone\n\nfalse\nNone\n1\n34") {
        Err(e) => assert_eq!(e, LoadError::CorruptState),
        Ok(_) => panic!("expected an error"),
    }
}

#[test]
fn parse_rejects_bad_step_number() {
    match parse_config("false\nNone\nNone\n\nNone\n\nfalse\nNone\none\n34") {
        Err(e) => assert_eq!(e, LoadError::CorruptState),
        Ok(_) => panic!("expected an error"),
    }
    match parse_config("false\nNone\nNone\n\nNone\n\nfalse\nNone\n999\n34") {
        Err(e) => assert_eq!(e, LoadError::CorruptState),
        Ok(_) => panic!("expected an error"),
    }
}

#[test]
fn parse_accepts_present_optional_fields() {
    let c = parse_config("false\nNone\nSome(\"sdb1\")\nsdb2\nNone\nbob\ntrue\nSome(\"sdb3\")\n9\n34")
        .unwrap();
    assert_eq!(c.boot_partition, Some(String::from("sdb1")));
    assert_eq!(c.root_partition, "sdb2");
    assert_eq!(c.username, "bob");
    assert!(c.encrypted_partitions);
    assert_eq!(c.swap_partition, Some(String::from("sdb3")));
    assert_eq!(c.current_installation_step, 9);
}

#[test]
fn extract_some_value_strips_the_encoding() {
    assert_eq!(AppConfig::extract_some_value("Some(\"sda1\")"), "sda1");
    assert_eq!(AppConfig::extract_some_value("Some(\"\")"), "");
}
