use proton::meminfo::parse_mem_available_kb;

#[test]
fn reads_the_available_memory() {
    let text = "MemTotal:       16384256 kB\nMemFree:         1234 kB\nMemAvailable:    8123456 kB\nBuffers:          10 kB\n";
    assert_eq!(parse_mem_available_kb(text), Some(8123456));
}

#[test]
fn nothing_without_the_line() {
    assert_eq!(parse_mem_available_kb(""), None);
    assert_eq!(parse_mem_available_kb("\n\n"), None);
    assert_eq!(parse_mem_available_kb("MemTotal: 5 kB\nMemFree: 6 kB\n"), None);
    assert_eq!(parse_mem_available_kb("memavailable: 5 kB\n"), None);
    assert_eq!(parse_mem_available_kb(" MemAvailable: 5 kB\n"), None);
}

#[test]
fn the_number_is_the_second_word() {
    assert_eq!(parse_mem_available_kb("MemAvailable: 42"), Some(42));
    assert_eq!(parse_mem_available_kb("MemAvailable:\t42\tkB"), Some(42));
    assert_eq!(parse_mem_available_kb("MemAvailable:42 kB"), None);
    assert_eq!(parse_mem_available_kb("MemAvailable:42 7"), Some(7));
    assert_eq!(parse_mem_available_kb("MemAvailable:"), None);
    assert_eq!(parse_mem_available_kb("MemAvailable:   "), None);
    assert_eq!(parse_mem_available_kb("MemAvailable:x 12 13"), Some(12));
}

#[test]
fn the_number_is_decimal_with_an_optional_plus() {
    assert_eq!(parse_mem_available_kb("MemAvailable: +77 kB"), Some(77));
    assert_eq!(parse_mem_available_kb("MemAvailable: 007 kB"), Some(7));
    assert_eq!(parse_mem_available_kb("MemAvailable: 0"), Some(0));
    assert_eq!(parse_mem_available_kb("MemAvailable: -5 kB"), None);
    assert_eq!(parse_mem_available_kb("MemAvailable: + kB"), None);
    assert_eq!(parse_mem_available_kb("MemAvailable: ++5 kB"), None);
    assert_eq!(parse_mem_available_kb("MemAvailable: 12kB"), None);
    assert_eq!(parse_mem_available_kb("MemAvailable: 0x10"), None);
    assert_eq!(parse_mem_available_kb("MemAvailable: 1.5"), None);
    assert_eq!(parse_mem_available_kb("MemAvailable: \u{0661}"), None);
}

#[test]
fn the_number_fits_in_64_bits() {
    assert_eq!(
        parse_mem_available_kb("MemAvailable: 18446744073709551615 kB"),
        Some(u64::MAX)
    );
    assert_eq!(parse_mem_available_kb("MemAvailable: 18446744073709551616 kB"), None);
    assert_eq!(parse_mem_available_kb("MemAvailable: 99999999999999999999999 kB"), None);
    assert_eq!(
        parse_mem_available_kb("MemAvailable: 000000000000000000000000000000012 kB"),
        Some(12)
    );
}

#[test]
fn a_line_without_a_number_is_passed_over() {
    assert_eq!(
        parse_mem_available_kb("MemAvailable: many kB\nMemAvailable: 42 kB\nMemAvailable: 43 kB\n"),
        Some(42)
    );
    assert_eq!(parse_mem_available_kb("MemAvailable:\nMemAvailable: 9"), Some(9));
}

#[test]
fn line_ends_and_odd_white_space() {
    assert_eq!(parse_mem_available_kb("MemTotal: 1 kB\r\nMemAvailable: 12 kB\r\n"), Some(12));
    assert_eq!(parse_mem_available_kb("MemAvailable: 12\r\n"), Some(12));
    assert_eq!(parse_mem_available_kb("MemAvailable:\u{00a0}9"), Some(9));
    assert_eq!(parse_mem_available_kb("MemAvailable:\u{3000}9\u{2003}kB"), Some(9));
    assert_eq!(parse_mem_available_kb("MemAvailable:\u{200b}9"), None);
    assert_eq!(parse_mem_available_kb("MemAvailable: 5"), Some(5));
    assert_eq!(parse_mem_available_kb("x\nMemAvailable: 5"), Some(5));
    assert_eq!(parse_mem_available_kb("MemAvailable:\n5"), None);
}
