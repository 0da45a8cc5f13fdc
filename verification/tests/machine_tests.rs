use brilliant_pdf::license::machine::MachineEnvironment;
use brilliant_pdf::license::validator::LicenseValidator;
use std::collections::hash_map::DefaultHasher;
use std::hash::{Hash, Hasher};

fn environment(
    computername: Option<&str>,
    hostname: Option<&str>,
    username: Option<&str>,
    user: Option<&str>,
    processor: Option<&str>,
) -> MachineEnvironment {
    MachineEnvironment {
        computername: computername.map(String::from),
        hostname: hostname.map(String::from),
        username: username.map(String::from),
        user: user.map(String::from),
        processor_identifier: processor.map(String::from),
    }
}

fn code_of(parts: &[&str]) -> String {
    let mut hasher = DefaultHasher::new();
    for part in parts {
        part.to_string().hash(&mut hasher);
    }
    format!("MC-{:016X}", hasher.finish())
}

fn is_upper_hex(c: char) -> bool {
    c.is_ascii_digit() || ('A'..='F').contains(&c)
}

#[test]
fn machine_code_has_its_shape() {
    let code = LicenseValidator::get_machine_code(&environment(
        Some("WORKSTATION"),
        None,
        Some("ana"),
        None,
        None,
    ));
    assert_eq!(code.len(), 19);
    assert!(code.starts_with("MC-"));
    assert!(code[3..].chars().all(is_upper_hex));
}

#[test]
fn machine_code_of_an_empty_environment() {
    let code = LicenseValidator::get_machine_code(&environment(None, None, None, None, None));
    assert_eq!(code, code_of(&[]));
    assert_eq!(code.len(), 19);
}

#[test]
fn machine_code_hashes_host_then_account() {
    let code = LicenseValidator::get_machine_code(&environment(
        None,
        Some("atelier"),
        None,
        Some("ana"),
        None,
    ));
    assert_eq!(code, code_of(&["atelier", "ana"]));
    assert_ne!(code, code_of(&["ana", "atelier"]));
}

#[test]
fn machine_code_prefers_the_first_name_of_each_pair() {
    let code = LicenseValidator::get_machine_code(&environment(
        Some("WORKSTATION"),
        Some("atelier"),
        Some("Ana"),
        Some("ana"),
        None,
    ));
    assert_eq!(code, code_of(&["WORKSTATION", "Ana"]));
}

#[test]
fn machine_code_takes_the_processor_last() {
    let code = LicenseValidator::get_machine_code(&environment(
        Some("WORKSTATION"),
        None,
        Some("Ana"),
        None,
        Some("Intel64 Family 6"),
    ));
    assert_eq!(code, code_of(&["WORKSTATION", "Ana", "Intel64 Family 6"]));
}

#[test]
fn machine_code_is_the_same_each_time() {
    let first = environment(Some("WORKSTATION"), None, None, Some("ana"), None);
    let second = environment(Some("WORKSTATION"), None, None, Some("ana"), None);
    assert_eq!(
        LicenseValidator::get_machine_code(&first),
        LicenseValidator::get_machine_code(&second)
    );
    assert_eq!(
        LicenseValidator::get_machine_code(&first),
        LicenseValidator::get_machine_code(&first)
    );
}

#[test]
fn machine_code_follows_the_environment() {
    let one = LicenseValidator::get_machine_code(&environment(
        Some("WORKSTATION"),
        None,
        Some("ana"),
        None,
        None,
    ));
    let other = LicenseValidator::get_machine_code(&environment(
        Some("WORKSTATION"),
        None,
        Some("bea"),
        None,
        None,
    ));
    assert_ne!(one, other);
}

#[test]
fn machine_code_tells_set_and_empty_apart() {
    let unset = LicenseValidator::get_machine_code(&environment(None, None, None, None, None));
    let empty = LicenseValidator::get_machine_code(&environment(Some(""), None, None, None, None));
    assert_eq!(empty, code_of(&[""]));
    assert_ne!(unset, empty);
}
