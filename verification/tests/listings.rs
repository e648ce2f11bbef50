use gemini_server::listing::{
    escape_path, hidden, listing_body, listing_lines, make_link_line, name_offset, needs_escape,
};
use gemini_server::order::{bytes_le, insert_line};

fn entries(names: &[&str]) -> Vec<String> {
    names.iter().map(|n| n.to_string()).collect()
}

#[test]
fn listing_shows_visible_entries_only() {
    let body = listing_body("", ".", &entries(&["./a.gmi", "./.hidden", "./sub"]), "");
    let text = String::from_utf8(body).unwrap();
    assert!(text.contains("=> ./a.gmi a.gmi\n"));
    assert!(text.contains("=> ./sub sub\n"));
    assert!(!text.contains(".hidden"));
}

#[test]
fn listing_lines_are_in_descending_order() {
    let body = listing_body("", ".", &entries(&["./a.gmi", "./.hidden", "./sub"]), "");
    assert_eq!(
        String::from_utf8(body).unwrap(),
        "\n### Path: [ . ]\n=> ./sub sub\n=> ./a.gmi a.gmi\n\n"
    );
    let other_order = listing_body("", ".", &entries(&["./sub", "./a.gmi", "./.hidden"]), "");
    assert_eq!(
        String::from_utf8(other_order).unwrap(),
        "\n### Path: [ . ]\n=> ./sub sub\n=> ./a.gmi a.gmi\n\n"
    );
}

#[test]
fn listing_is_wrapped_in_header_and_footer() {
    let body = listing_body("# Head", "docs", &entries(&["docs/b", "docs/c", "docs/a"]), "-- foot");
    assert_eq!(
        String::from_utf8(body).unwrap(),
        "# Head\n### Path: [ docs ]\n=> docs/c c\n=> docs/b b\n=> docs/a a\n\n-- foot"
    );
}

#[test]
fn listing_of_an_empty_directory() {
    let body = listing_body("h", "e", &Vec::new(), "f");
    assert_eq!(String::from_utf8(body).unwrap(), "h\n### Path: [ e ]\n\nf");
}

#[test]
fn listing_orders_by_the_escaped_line() {
    // A space is written %20, which sorts before a letter.
    let lines = listing_lines(&entries(&["d/a b", "d/aa", "d/a"]));
    let lines: Vec<String> = lines.into_iter().map(|l| String::from_utf8(l).unwrap()).collect();
    assert_eq!(lines, vec!["=> d/aa aa\n", "=> d/a%20b a b\n", "=> d/a a\n"]);
}

#[test]
fn listing_keeps_entries_of_the_same_name() {
    let lines = listing_lines(&entries(&["x", "x"]));
    assert_eq!(lines, vec![b"=> x x\n".to_vec(), b"=> x x\n".to_vec()]);
}

#[test]
fn escaping_uses_upper_case_hex_and_keeps_slashes() {
    assert_eq!(escape_path(b"a b/c"), b"a%20b/c".to_vec());
    assert_eq!(escape_path(b"x:y?z#w"), b"x%3Ay%3Fz%23w".to_vec());
    assert_eq!(escape_path(b"[]@!$&'()*+,;="), b"%5B%5D%40%21%24%26%27%28%29%2A%2B%2C%3B%3D".to_vec());
    assert_eq!(escape_path("é".as_bytes()), b"%C3%A9".to_vec());
    assert_eq!(escape_path(b"\x00\x1f\x7f"), b"%00%1F%7F".to_vec());
    assert_eq!(escape_path(b"plain-file_name.txt~%"), b"plain-file_name.txt~%".to_vec());
    assert_eq!(escape_path(b""), Vec::<u8>::new());
}

#[test]
fn escaped_bytes_are_the_link_unsafe_ones() {
    let listed = b" :?#[]@!$&'()*+,;=";
    for b in 0u8..=255 {
        let expected = b < 0x20 || b >= 0x7f || listed.contains(&b);
        assert_eq!(needs_escape(b), expected, "byte {}", b);
    }
    assert!(!needs_escape(b'/'));
    assert!(!needs_escape(b'%'));
}

#[test]
fn name_is_the_last_segment() {
    assert_eq!(name_offset(b"a/b/c.txt"), 4);
    assert_eq!(name_offset(b"c.txt"), 0);
    assert_eq!(name_offset(b"dir/"), 4);
    assert_eq!(name_offset(b""), 0);
    assert_eq!(make_link_line(b"a/b/c d.txt"), b"=> a/b/c%20d.txt c d.txt\n".to_vec());
    assert_eq!(make_link_line(b"dir/"), b"=> dir/ \n".to_vec());
}

#[test]
fn hidden_means_a_name_with_a_leading_dot() {
    assert!(hidden(b"./.hidden"));
    assert!(hidden(b".header.gmi"));
    assert!(hidden(b"a/.b"));
    assert!(!hidden(b".a/b"));
    assert!(!hidden(b"./a.gmi"));
    assert!(!hidden(b"dir/"));
    assert!(!hidden(b""));
}

#[test]
fn byte_strings_compare_like_strings() {
    let samples: Vec<&str> = vec!["", "a", "ab", "b", "=> a", "=> a b", "é", "a\u{0}", "B"];
    for x in &samples {
        for y in &samples {
            assert_eq!(bytes_le(x.as_bytes(), y.as_bytes()), x <= y, "{:?} {:?}", x, y);
        }
    }
}

#[test]
fn insert_line_keeps_descending_order() {
    let mut lines: Vec<Vec<u8>> = Vec::new();
    for word in ["m", "a", "z", "m", "b", ""] {
        insert_line(&mut lines, word.as_bytes().to_vec());
    }
    let expected: Vec<Vec<u8>> =
        ["z", "m", "m", "b", "a", ""].iter().map(|w| w.as_bytes().to_vec()).collect();
    assert_eq!(lines, expected);
}

#[test]
fn listing_does_not_depend_on_the_order_of_entries() {
    let one = listing_body("h", "d", &entries(&["d/x", "d/.y", "d/a b", "d/m", "d/x"]), "f");
    let other = listing_body("h", "d", &entries(&["d/m", "d/x", "d/x", "d/a b", "d/.y"]), "f");
    assert_eq!(one, other);
    assert_eq!(
        String::from_utf8(one).unwrap(),
        "h\n### Path: [ d ]\n=> d/x x\n=> d/x x\n=> d/m m\n=> d/a%20b a b\n\nf"
    );
}
