use czn_core::encode::{i32_to_dec, u64_to_dec};
use czn_core::paths::{key_path, log_path, sig_path, token_path};
use czn_core::text::trim_blanks;

#[test]
fn decimal_renderings_are_exact() {
    assert_eq!(u64_to_dec(0), "0");
    assert_eq!(u64_to_dec(7), "7");
    assert_eq!(u64_to_dec(1234500), "1234500");
    assert_eq!(i32_to_dec(-5), "-5");
    assert_eq!(i32_to_dec(0), "0");
    assert_eq!(i32_to_dec(i32::MIN), "-2147483648");
    assert_eq!(i32_to_dec(i32::MAX), "2147483647");
}

#[test]
fn state_files_sit_under_the_data_directory() {
    assert_eq!(key_path("/home/op/.czn"), "/home/op/.czn/key");
    assert_eq!(sig_path("/home/op/.czn"), "/home/op/.czn/key.sig");
    assert_eq!(token_path("/home/op/.czn"), "/home/op/.czn/token.dat");
    assert_eq!(log_path("/home/op/.czn"), "/home/op/.czn/debug.log");
}

#[test]
fn trimming_strips_only_the_edges() {
    assert_eq!(trim_blanks("\t a b \r\n"), "a b");
    assert_eq!(trim_blanks(""), "");
    assert_eq!(trim_blanks("   "), "");
    assert_eq!(trim_blanks("x"), "x");
}

#[test]
fn trimming_agrees_with_the_standard_trim() {
    let samples = [
        "\u{b}x\u{b}",
        "\u{a0}токен\u{a0}",
        "\u{85}\u{1680}a b\u{2000}\u{200a}",
        "\u{2028}\u{2029}y\u{205f}\u{3000}",
        " plain ",
        "inner\u{a0}kept",
    ];
    for s in samples {
        assert_eq!(trim_blanks(s), s.trim());
    }
}
