use gateway_doctor::config::Config;
use gateway_doctor::ident::valid_lm_id;

#[test]
fn accepts_dash_separated_identifier() {
    assert!(valid_lm_id("01234567-89ab-cdef-0123-456789abcdef"));
}

#[test]
fn accepts_apostrophe_separated_identifier() {
    assert!(valid_lm_id("01234567'89ab'cdef'0123'456789abcdef"));
}

#[test]
fn accepts_mixed_separators() {
    assert!(valid_lm_id("01234567-89ab'cdef-0123'456789abcdef"));
}

#[test]
fn rejects_upper_case_digits() {
    assert!(!valid_lm_id("01234567-89AB-cdef-0123-456789abcdef"));
}

#[test]
fn rejects_wrong_length() {
    assert!(!valid_lm_id(""));
    assert!(!valid_lm_id("01234567-89ab-cdef-0123-456789abcde"));
    assert!(!valid_lm_id("01234567-89ab-cdef-0123-456789abcdef0"));
}

#[test]
fn rejects_misplaced_separators() {
    assert!(!valid_lm_id("0123456-789ab-cdef-0123-456789abcdef"));
    assert!(!valid_lm_id("01234567-89ab-cdef-0123'456789abcde-"));
}

#[test]
fn rejects_non_hex_characters() {
    assert!(!valid_lm_id("0123456g-89ab-cdef-0123-456789abcdef"));
    assert!(!valid_lm_id("01234567-89ab-cdef-0123-456789abcdeg"));
}

#[test]
fn default_config_remembers_nothing() {
    let config = Config::default();
    assert_eq!(config.serial_port, "");
    assert!(!config.invert_rts);
}
