use const_tweaker::render::{
    html_escape, render_bool_row, render_bool_text, render_float_row, render_float_rows,
    render_page, render_send_call,
};

#[test]
fn escape_replaces_the_markup_characters() {
    assert_eq!(html_escape(""), "");
    assert_eq!(html_escape("plain text"), "plain text");
    assert_eq!(html_escape("a<b>&\"c"), "a&lt;b&gt;&amp;&quot;c");
    assert_eq!(html_escape("&&"), "&amp;&amp;");
    assert_eq!(html_escape("naïve ✓"), "naïve ✓");
}

#[test]
fn send_call_is_the_client_post() {
    assert_eq!(
        render_send_call("gravity", "Number(this.value)", "f64"),
        "send('gravity', Number(this.value), 'f64')"
    );
}

#[test]
fn bool_text_spells_the_value() {
    assert_eq!(render_bool_text(true), "true");
    assert_eq!(render_bool_text(false), "false");
}

#[test]
fn float_row_shows_key_and_value() {
    let row = render_float_row("gravity", "9.8");
    let expected = "<div class=\"columns box\">\
<div class=\"column is-narrow\"><span class=\"tag\">gravity</span></div>\
<div class=\"column\"><input type=\"range\" id=\"gravity\" min=\"-100\" max=\"100\" \
defaultValue=\"9.8\" style=\"width: 100%\" \
oninput=\"send('gravity', Number(this.value), 'f64')\"></div>\
<div class=\"column is-narrow\"><span id=\"gravity_label\" class=\"is-small\">9.8</span></div>\
</div>";
    assert_eq!(row, expected);
}

#[test]
fn bool_row_shows_key_and_value() {
    let row = render_bool_row("paused", true);
    let expected = "<div class=\"columns box\">\
<div class=\"column is-narrow\"><span class=\"tag\">paused</span></div>\
<div class=\"column\"><input type=\"checkbox\" id=\"paused\" value=\"true\" \
onclick=\"send('paused', this.checked, 'bool')\"></div>\
<div class=\"column is-narrow\"><span id=\"paused_label\">true</span></div>\
</div>";
    assert_eq!(row, expected);
}

#[test]
fn rows_escape_their_key() {
    let row = render_float_row("a&b", "1");
    assert!(row.contains("<span class=\"tag\">a&amp;b</span>"));
    assert!(row.contains("id=\"a&amp;b\""));
    assert!(row.contains("oninput=\"send('a&amp;b', Number(this.value), 'f64')\""));
}

#[test]
fn empty_registry_renders_zero_rows() {
    let page = render_page(&vec![], &vec![], "", "");
    assert_eq!(page.matches("type=\"range\"").count(), 0);
    assert_eq!(page.matches("type=\"checkbox\"").count(), 0);
    assert_eq!(page.matches("columns box").count(), 0);
    // Still a complete fragment around the empty sections.
    assert!(page.contains("<div class=\"container\">"));
    assert!(page.contains("<h1 class=\"title\">Const Tweaker Web Interface</h1>"));
    assert!(page.contains("<p></p><p></p>"));
    assert!(page.contains("<span id=\"status\"></span>"));
}

#[test]
fn one_float_and_one_bool_render_one_row_each() {
    let floats = vec![("gravity".to_string(), "9.8".to_string())];
    let bools = vec![("paused".to_string(), "false".to_string())];
    let bools: Vec<(String, bool)> = bools.into_iter().map(|(k, v)| (k, v == "true")).collect();
    let page = render_page(&floats, &bools, "", "");
    assert_eq!(page.matches("type=\"range\"").count(), 1);
    assert_eq!(page.matches("type=\"checkbox\"").count(), 1);
    assert!(page.contains("<span class=\"tag\">gravity</span>"));
    assert!(page.contains("defaultValue=\"9.8\""));
    assert!(page.contains("<span id=\"gravity_label\" class=\"is-small\">9.8</span>"));
    assert!(page.contains("<span class=\"tag\">paused</span>"));
    assert!(page.contains("value=\"false\""));
    assert!(page.contains("<span id=\"paused_label\">false</span>"));
}

#[test]
fn page_embeds_style_escaped_and_script_verbatim() {
    let page = render_page(&vec![], &vec![], "body > div { margin: 0 }", "let x = 1 < 2;");
    assert!(page.starts_with("<style>body &gt; div { margin: 0 }</style>"));
    assert!(page.ends_with("<script>let x = 1 < 2;</script>"));
}

#[test]
fn rows_follow_snapshot_order() {
    let floats = vec![
        ("a".to_string(), "1".to_string()),
        ("b".to_string(), "2".to_string()),
    ];
    let rendered = render_float_rows(&floats);
    let a_at = rendered.find("id=\"a\"").unwrap();
    let b_at = rendered.find("id=\"b\"").unwrap();
    assert!(a_at < b_at);
    assert_eq!(rendered.matches("type=\"range\"").count(), 2);
}
