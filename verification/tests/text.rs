use snipboard::text::{decimal_text, escape_quotes};

#[test]
fn decimal_of_small_numbers() {
    assert_eq!(decimal_text(0), "0");
    assert_eq!(decimal_text(9), "9");
    assert_eq!(decimal_text(10), "10");
    assert_eq!(decimal_text(22888), "22888");
    assert_eq!(decimal_text(1234567890), "1234567890");
}

#[test]
fn decimal_of_the_largest_number() {
    assert_eq!(decimal_text(u64::MAX), "18446744073709551615");
}

#[test]
fn decimal_agrees_with_formatting() {
    for n in (0u64..100_000).step_by(37) {
        assert_eq!(decimal_text(n), format!("{}", n));
    }
}

#[test]
fn escape_leaves_plain_text_alone() {
    assert_eq!(escape_quotes(""), "");
    assert_eq!(escape_quotes("report.pdf"), "report.pdf");
    assert_eq!(escape_quotes("naïve – ☃.txt"), "naïve – ☃.txt");
    assert_eq!(escape_quotes("back\\slash"), "back\\slash");
}

#[test]
fn escape_puts_a_backslash_before_each_quote() {
    assert_eq!(escape_quotes("\""), "\\\"");
    assert_eq!(escape_quotes("a\"b"), "a\\\"b");
    assert_eq!(escape_quotes("\"\""), "\\\"\\\"");
    assert_eq!(escape_quotes("say \"hi\" now"), "say \\\"hi\\\" now");
}

#[test]
fn escape_agrees_with_replace() {
    for s in ["", "\"", "x\"y\"z", "no quotes", "\"start", "end\"", "é\"ü"] {
        assert_eq!(escape_quotes(s), s.replace('"', "\\\""));
    }
}
