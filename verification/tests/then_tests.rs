use thenbot::then::escape_markdown;
use thenbot::then::then_text;
use thenbot::then::enth_text;
use thenbot::then::then_msg;
use thenbot::then::enth_msg;
use thenbot::then::then_description;
use thenbot::then::ConvertDirection;

fn unescape(s: &str) -> String {
    let c: Vec<char> = s.chars().collect();
    let mut out = String::new();
    let mut i = 0;
    while i < c.len() {
        if i + 1 < c.len() && c[i] == '\\' && "@`_*#".contains(c[i + 1]) {
            out.push(c[i + 1]);
            i += 2;
        } else {
            out.push(c[i]);
            i += 1;
        }
    }
    out
}

#[test]
fn escape_markdown_escapes_each_special_character() {
    assert_eq!(escape_markdown("a@b`c_d*e#f"), "a\\@b\\`c\\_d\\*e\\#f");
    assert_eq!(escape_markdown(""), "");
    assert_eq!(escape_markdown("plain text"), "plain text");
    assert_eq!(escape_markdown("\\@"), "\\\\@");
}

#[test]
fn escape_markdown_matches_chained_replace() {
    for s in ["@everyone", "__init__", "**bold** `code` #tag", "ไทย_ไทย", "\\\\*"] {
        let expected = s
            .replace('@', r#"\@"#)
            .replace('`', r#"\`"#)
            .replace('_', r#"\_"#)
            .replace('*', r#"\*"#)
            .replace('#', r#"\#"#);
        assert_eq!(escape_markdown(s), expected);
    }
}

#[test]
fn escape_markdown_is_reversible() {
    for s in ["a@b", "\\@", "\\", "x\\_y", "**", "", "ก@ข"] {
        assert_eq!(unescape(&escape_markdown(s)), s);
    }
}

#[test]
fn then_descriptions_quote_the_label() {
    assert_eq!(then_description(ConvertDirection::ThToEn), "type: \"TH to EN\"");
    assert_eq!(then_description(ConvertDirection::EnToTh), "type: \"EN to TH\"");
    assert_eq!(then_description(ConvertDirection::ThToEn), format!("type: {:?}", "TH to EN"));
}

#[test]
fn conversion_replies() {
    let r = then_text("ahvpdu", "สวัสดี");
    assert_eq!(r.name, "ahvpdu");
    assert_eq!(r.value, "สวัสดี");
    assert_eq!(r.description, "type: \"TH to EN\"");
    let r = enth_text("ฟหกด", "my_name*");
    assert_eq!(r.value, "my\\_name\\*");
    assert_eq!(r.description, "type: \"EN to TH\"");
    let r = then_msg("x", "@here");
    assert_eq!(r.value, "\\@here");
    assert_eq!(r.description, "type: \"TH to EN\"");
    let r = enth_msg("y", "#1");
    assert_eq!(r.name, "y");
    assert_eq!(r.value, "\\#1");
    assert_eq!(r.description, "type: \"EN to TH\"");
}
