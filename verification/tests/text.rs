use volctl::text::{join_strings, split_str, to_decimal};

fn strings(items: &[&str]) -> Vec<String> {
    items.iter().map(|s| s.to_string()).collect()
}

#[test]
fn decimal_numerals_are_exact() {
    assert_eq!(to_decimal(0), "0");
    assert_eq!(to_decimal(7), "7");
    assert_eq!(to_decimal(10), "10");
    assert_eq!(to_decimal(100), "100");
    assert_eq!(to_decimal(-1), "-1");
    assert_eq!(to_decimal(-120), "-120");
    assert_eq!(to_decimal(i32::MAX), "2147483647");
    assert_eq!(to_decimal(i32::MIN), "-2147483648");
}

#[test]
fn decimal_numerals_agree_with_the_standard_ones() {
    for n in [-1000, -99, -10, -9, 1, 9, 11, 99, 101, 65535, 1_000_000] {
        assert_eq!(to_decimal(n), format!("{}", n));
    }
}

#[test]
fn join_puts_the_separator_between_neighbours_only() {
    assert_eq!(join_strings(&strings(&[]), " "), "");
    assert_eq!(join_strings(&strings(&["a"]), " "), "a");
    assert_eq!(join_strings(&strings(&["a", "b", "c"]), " "), "a b c");
    assert_eq!(join_strings(&strings(&["", ""]), ", "), ", ");
}

#[test]
fn split_cuts_at_every_separator() {
    assert_eq!(split_str("/usr/bin:/bin", ':'), strings(&["/usr/bin", "/bin"]));
    assert_eq!(split_str("/bin", ':'), strings(&["/bin"]));
    assert_eq!(split_str("", ':'), strings(&[""]));
    assert_eq!(split_str(":", ':'), strings(&["", ""]));
    assert_eq!(split_str("a::b:", ':'), strings(&["a", "", "b", ""]));
    assert_eq!(split_str("\u{e4}:\u{2713}", ':'), strings(&["\u{e4}", "\u{2713}"]));
}

#[test]
fn split_and_join_undo_each_other() {
    for text in ["", ":", "a", "a:b", "::a::", "/usr/local/bin:/usr/bin:/bin"] {
        let pieces = split_str(text, ':');
        assert!(pieces.iter().all(|piece| !piece.contains(':')));
        assert_eq!(join_strings(&pieces, ":"), text);
    }
}
