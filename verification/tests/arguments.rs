use usercamera_pose::arguments::{parse_capture_delay, DEFAULT_CAPTURE_DELAY_MS};
use usercamera_pose::text::parse_u64;

fn args(list: &[&str]) -> Vec<String> {
    list.iter().map(|s| (*s).to_owned()).collect()
}

#[test]
fn uses_the_default_capture_delay_without_arguments() {
    assert_eq!(parse_capture_delay(&args(&[])), Ok(45));
    assert_eq!(DEFAULT_CAPTURE_DELAY_MS, 45);
}

#[test]
fn reads_the_capture_delay_and_keeps_the_last_one() {
    assert_eq!(parse_capture_delay(&args(&["--capture-delay", "120"])), Ok(120));
    assert_eq!(
        parse_capture_delay(&args(&["--capture-delay", "120", "--capture-delay", "+7"])),
        Ok(7)
    );
}

#[test]
fn refuses_unknown_arguments_and_bad_values() {
    assert_eq!(
        parse_capture_delay(&args(&["--verbose"])),
        Err("unrecognized argument: --verbose".to_owned())
    );
    assert_eq!(
        parse_capture_delay(&args(&["--capture-delay"])),
        Err("missing value for --capture-delay".to_owned())
    );
    assert_eq!(
        parse_capture_delay(&args(&["--capture-delay", "-5"])),
        Err("--capture-delay must be an unsigned integer in milliseconds".to_owned())
    );
    assert_eq!(
        parse_capture_delay(&args(&["--capture-delay", "5", "extra"])),
        Err("unrecognized argument: extra".to_owned())
    );
}

#[test]
fn parses_unsigned_integers_like_the_standard_library() {
    for text in [
        "0", "42", "+42", "007", "", "+", "-1", "1.5", " 1", "18446744073709551615",
        "18446744073709551616", "99999999999999999999x", "x99999999999999999999", "٣",
    ] {
        assert_eq!(parse_u64(text), text.parse::<u64>().ok(), "text {text:?}");
    }
}
