use focus::config::Config;
use focus::decimal::u32_to_dec;

#[test]
fn test_decimal_single_digits() {
    assert_eq!(u32_to_dec(0), "0");
    assert_eq!(u32_to_dec(7), "7");
    assert_eq!(u32_to_dec(9), "9");
}

#[test]
fn test_decimal_multiple_digits() {
    assert_eq!(u32_to_dec(10), "10");
    assert_eq!(u32_to_dec(45), "45");
    assert_eq!(u32_to_dec(1000), "1000");
    assert_eq!(u32_to_dec(u32::MAX), "4294967295");
}

#[test]
fn test_config_default() {
    let config = Config::default();
    assert_eq!(config.start_msg(), "🍅 focusing...");
    assert_eq!(config.quit_key(), 'q');
}

#[test]
fn test_config_quit_key_match() {
    let config = Config::default();
    assert!(config.is_quit_key('q'));
    assert!(!config.is_quit_key('x'));
    assert!(!config.is_quit_key('Q'));
}
