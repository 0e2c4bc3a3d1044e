use termbridge::event::Event;
use termbridge::text::{
    chars_of, drop_text, is_whitespace, join_uris, remove_scheme, strip_scheme, trim, trim_bounds,
};
use termbridge::widget::Widget;

fn strings(items: &[&str]) -> Vec<String> {
    items.iter().map(|s| s.to_string()).collect()
}

#[test]
fn drop_without_uris_and_without_text_is_no_event() {
    let mut widget = Widget::new();
    widget.realize();
    widget.drag_data_received(&Vec::new(), None);
    assert!(widget.state.as_ref().unwrap().event_queue.is_empty());
    widget.drag_data_received(&Vec::new(), Some(""));
    assert!(widget.state.as_ref().unwrap().event_queue.is_empty());
    assert_eq!(drop_text(&Vec::new(), None), None);
    assert_eq!(drop_text(&Vec::new(), Some("")), None);
}

#[test]
fn several_uris_are_trimmed_stripped_and_joined() {
    let uris = strings(&["  file:///home/u/one \r\n", "file:///two", "\tfile:///three"]);
    assert_eq!(join_uris(&uris), "/home/u/one /two /three");
    assert_eq!(drop_text(&uris, Some("ignored")), Some("/home/u/one /two /three".to_string()));
    let mut widget = Widget::new();
    widget.realize();
    widget.drag_data_received(&uris, Some("ignored"));
    assert_eq!(
        widget.state.as_ref().unwrap().event_queue,
        vec![Event::StrInput("/home/u/one /two /three".to_string())]
    );
}

#[test]
fn single_uri_has_no_separator() {
    assert_eq!(join_uris(&strings(&["file:///only"])), "/only");
    assert_eq!(join_uris(&strings(&["/plain/path"])), "/plain/path");
    assert_eq!(join_uris(&Vec::new()), "");
}

#[test]
fn uri_loses_only_its_leading_scheme() {
    assert_eq!(strip_scheme("file:///a/b"), "/a/b");
    assert_eq!(strip_scheme("file://"), "");
    assert_eq!(strip_scheme("file:/"), "file:/");
    assert_eq!(strip_scheme("http://host/x"), "http://host/x");
    assert_eq!(strip_scheme("/a/file://b"), "/a/file://b");
    assert_eq!(strip_scheme("file:///a/file://b"), "/a/file://b");
    assert_eq!(strip_scheme(""), "");
    assert_eq!(strip_scheme("file:///päth/ü"), "/päth/ü");
}

#[test]
fn dropped_text_loses_every_scheme_and_outer_space() {
    assert_eq!(drop_text(&Vec::new(), Some("  file:///tmp/x  ")), Some("/tmp/x".to_string()));
    assert_eq!(
        drop_text(&Vec::new(), Some("file:///a\nfile:///b\n")),
        Some("/a\n/b".to_string())
    );
    assert_eq!(drop_text(&Vec::new(), Some("hello world")), Some("hello world".to_string()));
    assert_eq!(drop_text(&Vec::new(), Some("   ")), Some(String::new()));
    assert_eq!(drop_text(&Vec::new(), Some("file:// x")), Some("x".to_string()));
}

#[test]
fn remove_scheme_agrees_with_replace() {
    let samples = [
        "",
        "file://",
        "file://file://",
        "ffile://ile://",
        "file:/file:///x",
        "a file:// b file:// c",
        "fil",
        "file:/",
        "xfile://",
        "file://é file://你",
        "filefile://://",
    ];
    for sample in samples.iter() {
        assert_eq!(remove_scheme(sample), sample.replace("file://", ""));
    }
    assert_eq!(remove_scheme("ffile://ile://"), "file://");
}

#[test]
fn trim_agrees_with_the_standard_library() {
    let samples = [
        "",
        " ",
        "  a  ",
        "\t\n\r x y \u{0b}\u{0c}",
        "\u{85}\u{a0}\u{1680}word\u{2000}\u{200a}\u{2028}\u{2029}\u{202f}\u{205f}\u{3000}",
        "\u{200b}zero width stays\u{200b}",
        "no space",
        " é ",
    ];
    for sample in samples.iter() {
        assert_eq!(trim(sample), sample.trim());
    }
    assert_eq!(trim("  a b  "), "a b");
}

#[test]
fn whitespace_is_the_unicode_property() {
    let mut code: u32 = 0;
    while code <= 0x10FFFF {
        if let Some(c) = char::from_u32(code) {
            assert_eq!(is_whitespace(c), c.is_whitespace());
        }
        code += 1;
    }
}

#[test]
fn characters_are_collected_in_order() {
    assert_eq!(chars_of(""), Vec::<char>::new());
    assert_eq!(chars_of("a你b"), vec!['a', '你', 'b']);
}

#[test]
fn trim_bounds_count_characters_not_bytes() {
    assert_eq!(trim_bounds(&chars_of("  你好 ")), (2, 4));
    assert_eq!(trim_bounds(&chars_of("   ")), (3, 3));
    assert_eq!(trim_bounds(&chars_of("")), (0, 0));
    assert_eq!(trim_bounds(&chars_of("x")), (0, 1));
    assert_eq!(trim(" \u{3000}你好\t"), "你好");
}

#[test]
fn long_text_with_many_schemes_is_cleaned() {
    let mut text = String::new();
    let mut expected = String::new();
    for i in 0..2000 {
        text.push_str("file:///dir/");
        text.push_str(&i.to_string());
        text.push('\n');
        expected.push_str("/dir/");
        expected.push_str(&i.to_string());
        expected.push('\n');
    }
    assert_eq!(remove_scheme(&text), expected);
    assert_eq!(drop_text(&Vec::new(), Some(&text)), Some(expected.trim().to_string()));
}
