use jg_launcher::cfg_parser::parser;

fn items(text: &str) -> Vec<String> {
    parser(text)
}

#[test]
fn test_parser() {
    let r = parser("# launcher options\n-Xmx1g -Dname='a b'\n\"-Dq=x y\" -server\n");
    for x in &r {
        println!("{:?}", x);
    }
    assert_eq!(r, vec!["-Xmx1g", "-Dname=a b", "-Dq=x y", "-server"]);
}

#[test]
fn item_without_final_separator_is_not_yielded() {
    assert_eq!(items("-a -b"), vec!["-a"]);
    assert_eq!(items("-a -b\n"), vec!["-a", "-b"]);
}

#[test]
fn comments_only_at_line_start() {
    assert_eq!(items("#x y\n a#b \n"), vec!["a#b"]);
    assert_eq!(items("  #x\n"), vec!["#x"]);
}

#[test]
fn backslash_escapes_the_next_character() {
    // A backslash does not escape a separator.
    assert_eq!(items("a\\ b \n"), vec!["a", "b"]);
    assert_eq!(items("\\#x \n"), vec!["#x"]);
    assert_eq!(items("\\\\x \n"), vec!["\\x"]);
    assert_eq!(items("'a\\'b' \n"), vec!["a'b"]);
}

#[test]
fn either_quote_closes_a_quoted_part() {
    assert_eq!(items("'a b\" c \n"), vec!["a b", "c"]);
    assert_eq!(items("\"x\ty\" \n"), vec!["x\ty"]);
}

#[test]
fn empty_input_yields_nothing() {
    assert!(items("").is_empty());
    assert!(items(" \r\n\t\n").is_empty());
}

#[test]
fn items_are_never_empty() {
    let got = items("  \n\n\t a  ''  b \r\n\"\" c\n");
    assert!(got.iter().all(|i| !i.is_empty()));
    assert_eq!(got, vec!["a", "b", "c"]);
}

#[test]
fn more_text_keeps_the_items_already_read() {
    let text = "-Da=1 -Xmx1g\n# note\n-Db='x y' -server\n";
    let all = items(text);
    for cut in 0..=text.len() {
        if !text.is_char_boundary(cut) {
            continue;
        }
        let part = items(&text[..cut]);
        assert!(part.len() <= all.len());
        assert_eq!(&all[..part.len()], &part[..]);
    }
}

#[test]
fn plain_text_is_split_at_white_space() {
    let text = "-Xmx1g  -Da=1\t-server\r\n\n-Db=2 tail";
    let expected: Vec<String> = text
        .split([' ', '\t', '\r', '\n'])
        .filter(|s| !s.is_empty())
        .map(String::from)
        .collect();
    let mut ended = expected.clone();
    ended.pop();
    assert_eq!(items(text), ended);
    assert_eq!(items(&format!("{text}\n")), expected);
}
