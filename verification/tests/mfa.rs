use aws_mfa::mfa::{automated_code, manual_code};

fn b(s: &str) -> Vec<u8> {
    s.as_bytes().to_vec()
}

#[test]
fn secret_manager_failure_falls_back() {
    // command exited non-zero: no code, the caller must prompt instead
    assert_eq!(automated_code(false, &b("123456\n")), None);
}

#[test]
fn secret_manager_non_digit_output_falls_back() {
    assert_eq!(automated_code(true, &b("12a456")), None);
}

#[test]
fn secret_manager_wrong_length_falls_back() {
    assert_eq!(automated_code(true, &b("12345")), None);
    assert_eq!(automated_code(true, &b("1234567")), None);
    assert_eq!(automated_code(true, &b("")), None);
}

#[test]
fn secret_manager_valid_code_is_used_as_is() {
    assert_eq!(automated_code(true, &b("123456")), Some(b("123456")));
}

#[test]
fn secret_manager_output_is_trimmed_before_validation() {
    assert_eq!(automated_code(true, &b("  123456\n")), Some(b("123456")));
}

#[test]
fn manual_entry_is_trimmed_and_not_validated() {
    assert_eq!(manual_code(&b(" 123456 \n")), b("123456"));
    // malformed manual entries pass through; the remote provider judges them
    assert_eq!(manual_code(&b("not-a-code\n")), b("not-a-code"));
    assert_eq!(manual_code(&b("\n")), b(""));
}
