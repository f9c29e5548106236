use riot_switcher::decimal::format_u64;
use riot_switcher::escape::escape_credential;

#[test]
fn plain_text_is_unchanged() {
    assert_eq!(escape_credential("alice123"), "alice123");
}

#[test]
fn empty_text_is_unchanged() {
    assert_eq!(escape_credential(""), "");
}

#[test]
fn backtick_is_doubled() {
    assert_eq!(escape_credential("`"), "``");
}

#[test]
fn quote_gets_backtick_prefix() {
    assert_eq!(escape_credential("\""), "`\"");
}

#[test]
fn dollar_gets_backtick_prefix() {
    assert_eq!(escape_credential("$"), "`$");
}

#[test]
fn subexpression_is_neutralized() {
    assert_eq!(escape_credential("pa$(Get-Date)ss"), "pa`$(Get-Date)ss");
}

#[test]
fn variable_reference_is_neutralized() {
    assert_eq!(escape_credential("$env:USERNAME"), "`$env:USERNAME");
}

#[test]
fn mixed_specials_each_escaped() {
    assert_eq!(escape_credential("a`b\"c$d"), "a``b`\"c`$d");
}

#[test]
fn injection_attempt_is_neutralized() {
    assert_eq!(
        escape_credential("alice\"; rm -rf ~ #"),
        "alice`\"; rm -rf ~ #"
    );
}

#[test]
fn unicode_passes_through() {
    assert_eq!(escape_credential("pässwörd✓"), "pässwörd✓");
}

#[test]
fn format_small_numbers() {
    assert_eq!(format_u64(0), "0");
    assert_eq!(format_u64(6), "6");
    assert_eq!(format_u64(100), "100");
    assert_eq!(format_u64(700), "700");
}

#[test]
fn format_large_numbers() {
    assert_eq!(format_u64(1234567890), "1234567890");
    assert_eq!(format_u64(u64::MAX), "18446744073709551615");
}
