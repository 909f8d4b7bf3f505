use oz::text::{decimal_string, split_lines, split_before, split_after, has_char, same_text, find_char, concat2, concat3};

#[test]
fn decimal_string_writes_numbers() {
    assert_eq!(decimal_string(0), "0");
    assert_eq!(decimal_string(7), "7");
    assert_eq!(decimal_string(32), "32");
    assert_eq!(decimal_string(255), "255");
    assert_eq!(decimal_string(u64::MAX), u64::MAX.to_string());
}

#[test]
fn split_lines_matches_str_lines() {
    let cases = [
        "",
        "\n",
        "a",
        "a\n",
        "a\nb",
        "a\r\nb\r\n",
        "a\r",
        "\r\n\r\n",
        "s1s7s\ns1s8s\nupf\n",
        "x\n\ny",
        "trailing\r",
    ];
    for case in cases {
        let mine = split_lines(case);
        let std_lines: Vec<String> = case.lines().map(|l| l.to_string()).collect();
        assert_eq!(mine, std_lines, "case {:?}", case);
    }
}

#[test]
fn split_lines_law_no_newline_in_a_line() {
    for case in ["a\nb\r\nc", "\n\n\n", "one"] {
        for line in split_lines(case) {
            assert!(!line.contains('\n'));
        }
    }
}

#[test]
fn split_at_separator() {
    assert_eq!(split_before("upf.free5gc.org:192.0.0.6", ':'), "upf.free5gc.org");
    assert_eq!(split_after("upf.free5gc.org:192.0.0.6", ':'), "192.0.0.6");
    assert_eq!(split_before("no-colon", ':'), "no-colon");
    assert_eq!(split_after("no-colon", ':'), "");
    assert_eq!(split_before(":lead", ':'), "");
    assert_eq!(find_char("abc", 'c'), 2);
    assert_eq!(find_char("abc", 'z'), 3);
    assert!(has_char("a:b", ':'));
    assert!(!has_char("ab", ':'));
}

#[test]
fn text_equality_and_joining() {
    assert!(same_text("heal", "heal"));
    assert!(!same_text("heal", "heals"));
    assert!(!same_text("heal", "deal"));
    assert_eq!(concat2("ab", "cd"), "abcd");
    assert_eq!(concat3("a", "", "c"), "ac");
}
