use pulsar_ui::fab::{strip_html, FabThumbnail, FabThumbnailImage};
use pulsar_ui::text::{chars_of, str_eq, trim, decimal_chars};

fn img(url: &str, width: u32) -> FabThumbnailImage {
    FabThumbnailImage { url: url.to_string(), width, height: width }
}

#[test]
fn strip_html_removes_tags_and_collapses_spaces() {
    assert_eq!(strip_html("<p>Hello <b>world</b></p>"), "Hello world");
    assert_eq!(strip_html("  a \n\t b  "), "a b");
    assert_eq!(strip_html(""), "");
    assert_eq!(strip_html("<br>"), "");
    assert_eq!(strip_html("one<br>two"), "one two");
}

#[test]
fn strip_html_keeps_text_after_unclosed_tag_out() {
    assert_eq!(strip_html("text <unclosed tag"), "text");
    assert_eq!(strip_html("a > b"), "a b");
}

#[test]
fn strip_html_output_has_no_angle_brackets() {
    let out = strip_html("<<a>>x<y>z>");
    assert!(!out.contains('<') && !out.contains('>'));
    assert_eq!(out, "x z");
}

#[test]
fn best_image_url_picks_closest_first() {
    let t = FabThumbnail { images: vec![img("a", 100), img("b", 300), img("c", 200), img("d", 320)] };
    assert_eq!(t.best_image_url(260), Some("b"));
    assert_eq!(t.best_image_url(315), Some("d"));
    assert_eq!(t.best_image_url(250), Some("b"));
    assert_eq!(t.best_image_url(0), Some("a"));
    let tie = FabThumbnail { images: vec![img("x", 100), img("y", 300)] };
    assert_eq!(tie.best_image_url(200), Some("x"));
    let empty = FabThumbnail { images: vec![] };
    assert_eq!(empty.best_image_url(10), None);
}

#[test]
fn text_helpers() {
    assert!(str_eq("abc", "abc"));
    assert!(!str_eq("abc", "abd"));
    let t: String = trim(&chars_of("\u{3000} x y \n")).into_iter().collect();
    assert_eq!(t, "x y");
    let d: String = decimal_chars(1234567).into_iter().collect();
    assert_eq!(d, "1234567");
    let z: String = decimal_chars(0).into_iter().collect();
    assert_eq!(z, "0");
}

#[test]
fn strip_html_twice_is_strip_html_once() {
    for s in ["<p>Hello <b>world</b></p>", "  a \n\t b  ", "x<y", "a>b<c>d", "\u{a0}odd\u{3000}space ", ""] {
        let once = strip_html(s);
        assert_eq!(strip_html(&once), once);
    }
}
