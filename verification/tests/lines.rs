use chat_gateway::lines::split_lines;

fn expected(body: &str) -> Vec<String> {
    body.lines().map(|line| line.to_string()).collect()
}

#[test]
fn empty_body_has_no_lines() {
    assert_eq!(split_lines(""), Vec::<String>::new());
}

#[test]
fn lines_end_at_line_feeds() {
    assert_eq!(split_lines("a\nb\nc"), vec!["a", "b", "c"]);
    assert_eq!(split_lines("a\nb\nc\n"), vec!["a", "b", "c"]);
}

#[test]
fn a_single_line_feed_is_one_empty_line() {
    assert_eq!(split_lines("\n"), vec![""]);
    assert_eq!(split_lines("\n\n"), vec!["", ""]);
    assert_eq!(split_lines("a\n\nb"), vec!["a", "", "b"]);
}

#[test]
fn carriage_return_before_line_feed_is_dropped() {
    assert_eq!(split_lines("a\r\nb\r\n"), vec!["a", "b"]);
    assert_eq!(split_lines("\r\n"), vec![""]);
}

#[test]
fn only_one_carriage_return_is_dropped() {
    assert_eq!(split_lines("a\r\r\nb"), vec!["a\r", "b"]);
}

#[test]
fn carriage_return_elsewhere_is_kept() {
    assert_eq!(split_lines("a\rb\nc"), vec!["a\rb", "c"]);
    assert_eq!(split_lines("a\r"), vec!["a\r"]);
    assert_eq!(split_lines("\r"), vec!["\r"]);
    assert_eq!(split_lines("x\ny\r"), vec!["x", "y\r"]);
}

#[test]
fn last_line_needs_no_line_feed() {
    assert_eq!(split_lines("only"), vec!["only"]);
    assert_eq!(split_lines("one\ntwo"), vec!["one", "two"]);
}

#[test]
fn lines_agree_with_the_standard_library() {
    let samples = [
        "",
        "\n",
        "\r",
        "\r\n",
        "\n\r",
        "a",
        "a\n",
        "a\r\n",
        "a\r",
        "a\n\rb",
        "a\r\n\r\nb\r",
        "\n\n\n",
        "é\n🌍\r\n\u{2028}\n",
        "{\"response\":\"Hi \",\"done\":false}\n{\"response\":\"there!\",\"done\":true}\n",
    ];
    for sample in samples {
        assert_eq!(split_lines(sample), expected(sample), "{:?}", sample);
    }
}
