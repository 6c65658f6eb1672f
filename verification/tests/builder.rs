use std::str::FromStr;

use identitycreator::ErrorKind;
use identitycreator::Identity;
use identitycreator::IdentityError;
use identitycreator::ValidationError;
use vrsc::Address;

const GOOD_ADDRESS: &str = "RP1sexQNvjGPohJkK9JnuPDH7V7NboycGj";

fn address() -> Address {
    Address::from_str(GOOD_ADDRESS).unwrap()
}

fn entries(pairs: &[(&str, &str)]) -> Vec<(String, String)> {
    pairs.iter().map(|(k, v)| (k.to_string(), v.to_string())).collect()
}

fn validation_error(kind: ValidationError) -> IdentityError {
    IdentityError { kind: ErrorKind::Validation(kind) }
}

#[test]
fn good_contentmap() {
    let identity_builder = Identity::builder()
        .name("test")
        .add_address(address())
        .with_content_map(entries(&[("deadbeef", "deafdeed")]));

    assert!(identity_builder.validate().is_ok());
}

#[test]
fn bad_contentmap() {
    let identity_builder = Identity::builder()
        .name("test")
        .add_address(address())
        .with_content_map(entries(&[("a non hex", "object")]));

    assert!(identity_builder.validate().is_err());
}

#[test]
fn missing_name_is_rejected() {
    let builder = Identity::builder().add_address(address());
    assert_eq!(
        builder.validate().unwrap_err(),
        validation_error(ValidationError::MissingName)
    );
}

#[test]
fn empty_name_is_rejected() {
    let builder = Identity::builder().name("").add_address(address());
    assert_eq!(
        builder.validate().unwrap_err(),
        validation_error(ValidationError::MissingName)
    );
}

#[test]
fn missing_address_is_rejected() {
    let builder = Identity::builder().name("test");
    assert_eq!(
        builder.validate().unwrap_err(),
        validation_error(ValidationError::MissingAddress)
    );
}

#[test]
fn excess_minimum_signatures_is_rejected() {
    let builder = Identity::builder()
        .name("test")
        .add_address(address())
        .minimum_signatures(2);
    assert_eq!(
        builder.validate().unwrap_err(),
        validation_error(ValidationError::TooManySignatures)
    );
}

#[test]
fn minimum_signatures_within_address_count_is_accepted() {
    let builder = Identity::builder()
        .name("test")
        .add_address(address())
        .add_address(address())
        .minimum_signatures(2);
    assert!(builder.validate().is_ok());
}

#[test]
fn minimum_signatures_checked_before_name() {
    // The minimum-signatures bound is the first check, so it wins over the
    // missing name.
    let builder = Identity::builder().add_address(address()).minimum_signatures(3);
    assert_eq!(
        builder.validate().unwrap_err(),
        validation_error(ValidationError::TooManySignatures)
    );
}

#[test]
fn key_longer_than_twenty_bytes_is_rejected() {
    let builder = Identity::builder()
        .name("test")
        .add_address(address())
        .with_content_map(entries(&[("aabbccddeeff0011223344", "deadbeef")]));
    assert_eq!(
        builder.validate().unwrap_err(),
        validation_error(ValidationError::KeyTooLong)
    );
}

#[test]
fn key_of_exactly_twenty_bytes_is_accepted() {
    let builder = Identity::builder()
        .name("test")
        .add_address(address())
        .with_content_map(entries(&[("aabbccddeeff00112233", "deadbeef")]));
    assert!(builder.validate().is_ok());
}

#[test]
fn odd_length_key_is_rejected() {
    let builder = Identity::builder()
        .name("test")
        .add_address(address())
        .with_content_map(entries(&[("abc", "deadbeef")]));
    assert_eq!(
        builder.validate().unwrap_err(),
        validation_error(ValidationError::KeyNotHex)
    );
}

#[test]
fn value_longer_than_thirty_two_bytes_is_rejected() {
    let builder = Identity::builder()
        .name("test")
        .add_address(address())
        .with_content_map(entries(&[("deadbeef", "aabbccddeeff00112233445566778899aa")]));
    assert_eq!(
        builder.validate().unwrap_err(),
        validation_error(ValidationError::ValueTooLong)
    );
}

#[test]
fn value_of_exactly_thirty_two_bytes_is_accepted() {
    let builder = Identity::builder()
        .name("test")
        .add_address(address())
        .with_content_map(entries(&[("deadbeef", "aabbccddeeff00112233445566778899")]));
    assert!(builder.validate().is_ok());
}

#[test]
fn non_hex_value_is_rejected() {
    let builder = Identity::builder()
        .name("test")
        .add_address(address())
        .with_content_map(entries(&[("deadbeef", "zzzz")]));
    assert_eq!(
        builder.validate().unwrap_err(),
        validation_error(ValidationError::ValueNotHex)
    );
}

#[test]
fn mixed_case_hex_is_accepted() {
    let builder = Identity::builder()
        .name("test")
        .add_address(address())
        .with_content_map(entries(&[("DeadBEEF", "DEAFdeed")]));
    assert!(builder.validate().is_ok());
}

#[test]
fn first_bad_entry_wins() {
    let builder = Identity::builder()
        .name("test")
        .add_address(address())
        .with_content_map(entries(&[("deadbeef", "deafdeed"), ("abc", "ff"), ("ff", "zz")]));
    assert_eq!(
        builder.validate().unwrap_err(),
        validation_error(ValidationError::KeyNotHex)
    );
}

#[test]
fn empty_content_map_is_accepted() {
    let builder = Identity::builder()
        .name("test")
        .add_address(address())
        .with_content_map(Vec::new());
    assert!(builder.validate().is_ok());
}

#[test]
fn validate_is_idempotent() {
    let builder = Identity::builder()
        .name("test")
        .add_address(address())
        .minimum_signatures(1)
        .with_content_map(entries(&[("deadbeef", "deafdeed")]));
    assert_eq!(builder.validate(), builder.validate());

    let bad = Identity::builder().minimum_signatures(9).add_address(address());
    assert_eq!(bad.validate(), bad.validate());
}

#[test]
fn validated_request_carries_the_configuration() {
    let builder = Identity::builder()
        .testnet(true)
        .on_currency_name("geckotest")
        .name("test")
        .referral("friend@")
        .add_address(address())
        .add_private_address("zs1example")
        .minimum_signatures(1)
        .with_content_map(entries(&[("deadbeef", "deafdeed")]));

    let request = builder.validate().unwrap();
    assert!(request.testnet);
    assert_eq!(request.name, "test");
    assert_eq!(request.currency_context.as_deref(), Some("geckotest"));
    assert_eq!(request.referral.as_deref(), Some("friend@"));
    assert_eq!(request.minimum_signatures, Some(1));
    assert_eq!(request.primary_addresses, vec![address()]);
    assert_eq!(request.private_address.as_deref(), Some("zs1example"));
    assert_eq!(
        request.content_map,
        Some(entries(&[("deadbeef", "deafdeed")]))
    );
}
