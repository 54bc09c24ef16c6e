use arch_installer::extract::{find_identifier, ExtractError};
use arch_installer::strutil::first_token;

const LISTING: &str = "/dev/sda1: UUID=\"11aa-22bb\" TYPE=\"vfat\" PARTUUID=\"0001\"\n\
/dev/sda2: UUID=\"33cc-44dd\" TYPE=\"ext4\" PARTUUID=\"0002\"\n\
/dev/mapper/cryptroot: UUID=\"55ee-66ff\" TYPE=\"btrfs\"";

#[test]
fn finds_uuid_of_named_device() {
    assert_eq!(find_identifier(LISTING, "sda2"), Ok(String::from("33cc-44dd")));
}

#[test]
fn finds_uuid_of_label() {
    assert_eq!(
        find_identifier(LISTING, "cryptroot"),
        Ok(String::from("55ee-66ff"))
    );
}

#[test]
fn first_matching_line_wins() {
    // Every line contains "sda"; the first one decides.
    assert_eq!(find_identifier(LISTING, "sda"), Ok(String::from("11aa-22bb")));
}

#[test]
fn no_matching_line_is_not_found() {
    assert_eq!(find_identifier(LISTING, "sdz9"), Err(ExtractError::NotFound));
    assert_eq!(find_identifier("", "sda1"), Err(ExtractError::NotFound));
}

#[test]
fn matching_line_without_token_is_not_found() {
    let listing = "/dev/sda1: TYPE=\"vfat\"\n/dev/sda2: UUID=\"33cc\"";
    assert_eq!(find_identifier(listing, "sda1"), Err(ExtractError::NotFound));
}

#[test]
fn unterminated_token_is_not_found() {
    let listing = "/dev/sda1: UUID=\"33cc";
    assert_eq!(find_identifier(listing, "sda1"), Err(ExtractError::NotFound));
}

#[test]
fn first_token_of_table_line() {
    assert_eq!(first_token("UUID=abcd\t/ btrfs rw 0 0"), "UUID=abcd");
    assert_eq!(first_token("  \t spaced out"), "spaced");
    assert_eq!(first_token("single"), "single");
    assert_eq!(first_token("   \t "), "");
    assert_eq!(first_token(""), "");
}
