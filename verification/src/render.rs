//! The page renderer: a pure transform from registry snapshots to a markup
//! fragment.
//!
//! Every float entry becomes a range-input row over the fixed range
//! [-100, 100] (a documented default, not derived from the value) and every
//! boolean entry becomes a checkbox row; each row carries the key as its
//! label and a client-side call that posts the changed value back to the
//! control plane. Text placed into markup is escaped; the float values
//! arrive already formatted as text, since the renderer never interprets
//! them.

use vstd::prelude::*;
use vstd::string::*;

verus! {

/// What one character of text becomes inside markup: the four characters
/// with a meaning in HTML are replaced by their entity names, every other
/// character stands for itself.
pub open spec fn escaped_char(c: char) -> Seq<char> {
    if c == '&' {
        "&amp;"@
    } else if c == '<' {
        "&lt;"@
    } else if c == '>' {
        "&gt;"@
    } else if c == '"' {
        "&quot;"@
    } else {
        seq![c]
    }
}

/// A text escaped for use in markup, character by character.
pub open spec fn escaped(s: Seq<char>) -> Seq<char>
    decreases s.len(),
{
    if s.len() == 0 {
        Seq::empty()
    } else {
        escaped(s.drop_last()) + escaped_char(s.last())
    }
}

/// Escapes a text for use in markup.
pub fn html_escape(s: &str) -> (r: String)
    ensures
        r@ == escaped(s@),
{
    let n = s.unicode_len();
    let mut r = String::new();
    let mut i: usize = 0;
    while i < n
        invariant
            n == s@.len(),
            i <= n,
            r@ == escaped(s@.take(i as int)),
        decreases n - i,
    {
        let c = s.get_char(i);
        if c == '&' {
            r.append("&amp;");
        } else if c == '<' {
            r.append("&lt;");
        } else if c == '>' {
            r.append("&gt;");
        } else if c == '"' {
            r.append("&quot;");
        } else {
            let piece = s.substring_char(i, i + 1);
            proof {
                assert(s@.subrange(i as int, i as int + 1) =~= seq![s@[i as int]]);
            }
            r.append(piece);
        }
        proof {
            assert(s@.take(i as int + 1).drop_last() =~= s@.take(i as int));
            assert(s@.take(i as int + 1).last() == s@[i as int]);
        }
        i = i + 1;
    }
    proof {
        assert(s@.take(n as int) =~= s@);
    }
    r
}

/// The text of a boolean value as it appears in markup.
pub open spec fn bool_text(b: bool) -> Seq<char> {
    if b {
        "true"@
    } else {
        "false"@
    }
}

/// The text of a boolean value as it appears in markup.
pub fn render_bool_text(b: bool) -> (r: &'static str)
    ensures
        r@ == bool_text(b),
{
    if b {
        "true"
    } else {
        "false"
    }
}

/// The client-side call that posts a changed value back to the control
/// plane: the key, the client expression that reads the new value, and the
/// name of the value's type.
pub open spec fn send_call(key: Seq<char>, look_for: Seq<char>, data_type: Seq<char>) -> Seq<
    char,
> {
    "send('"@ + key + "', "@ + look_for + ", '"@ + data_type + "')"@
}

/// Builds the client-side call that posts a changed value back.
pub fn render_send_call(key: &str, look_for: &str, data_type: &str) -> (r: String)
    ensures
        r@ == send_call(key@, look_for@, data_type@),
{
    let mut r = String::new();
    r.append("send('");
    r.append(key);
    r.append("', ");
    r.append(look_for);
    r.append(", '");
    r.append(data_type);
    r.append("')");
    r
}

/// The markup row of one float entry: the key as a tag, a range input over
/// the fixed range [-100, 100] showing the current value, and a label; the
/// input posts changes back through the client-side call.
pub open spec fn float_row(key: Seq<char>, value_text: Seq<char>) -> Seq<char> {
    "<div class=\"columns box\"><div class=\"column is-narrow\"><span class=\"tag\">"@
        + escaped(key)
        + "</span></div><div class=\"column\"><input type=\"range\" id=\""@ + escaped(key)
        + "\" min=\"-100\" max=\"100\" defaultValue=\""@ + escaped(value_text)
        + "\" style=\"width: 100%\" oninput=\""@
        + escaped(send_call(key, "Number(this.value)"@, "f64"@))
        + "\"></div><div class=\"column is-narrow\"><span id=\""@ + escaped(key)
        + "_label\" class=\"is-small\">"@ + escaped(value_text) + "</span></div></div>"@
}

/// The markup row of one boolean entry: the key as a tag, a checkbox showing
/// the current value, and a label; the checkbox posts changes back through
/// the client-side call.
pub open spec fn bool_row(key: Seq<char>, value: bool) -> Seq<char> {
    "<div class=\"columns box\"><div class=\"column is-narrow\"><span class=\"tag\">"@
        + escaped(key)
        + "</span></div><div class=\"column\"><input type=\"checkbox\" id=\""@ + escaped(key)
        + "\" value=\""@ + bool_text(value) + "\" onclick=\""@
        + escaped(send_call(key, "this.checked"@, "bool"@))
        + "\"></div><div class=\"column is-narrow\"><span id=\""@ + escaped(key) + "_label\">"@
        + bool_text(value) + "</span></div></div>"@
}

/// Renders the row of one float entry from its key and its already formatted
/// value text.
pub fn render_float_row(key: &str, value_text: &str) -> (r: String)
    ensures
        r@ == float_row(key@, value_text@),
{
    let escaped_key = html_escape(key);
    let escaped_value = html_escape(value_text);
    let send_js = render_send_call(key, "Number(this.value)", "f64");
    let escaped_send = html_escape(send_js.as_str());
    let mut r = String::new();
    r.append("<div class=\"columns box\"><div class=\"column is-narrow\"><span class=\"tag\">");
    r.append(escaped_key.as_str());
    r.append("</span></div><div class=\"column\"><input type=\"range\" id=\"");
    r.append(escaped_key.as_str());
    r.append("\" min=\"-100\" max=\"100\" defaultValue=\"");
    r.append(escaped_value.as_str());
    r.append("\" style=\"width: 100%\" oninput=\"");
    r.append(escaped_send.as_str());
    r.append("\"></div><div class=\"column is-narrow\"><span id=\"");
    r.append(escaped_key.as_str());
    r.append("_label\" class=\"is-small\">");
    r.append(escaped_value.as_str());
    r.append("</span></div></div>");
    r
}

/// Renders the row of one boolean entry from its key and its value.
pub fn render_bool_row(key: &str, value: bool) -> (r: String)
    ensures
        r@ == bool_row(key@, value),
{
    let escaped_key = html_escape(key);
    let value_str = render_bool_text(value);
    let send_js = render_send_call(key, "this.checked", "bool");
    let escaped_send = html_escape(send_js.as_str());
    let mut r = String::new();
    r.append("<div class=\"columns box\"><div class=\"column is-narrow\"><span class=\"tag\">");
    r.append(escaped_key.as_str());
    r.append("</span></div><div class=\"column\"><input type=\"checkbox\" id=\"");
    r.append(escaped_key.as_str());
    r.append("\" value=\"");
    r.append(value_str);
    r.append("\" onclick=\"");
    r.append(escaped_send.as_str());
    r.append("\"></div><div class=\"column is-narrow\"><span id=\"");
    r.append(escaped_key.as_str());
    r.append("_label\">");
    r.append(value_str);
    r.append("</span></div></div>");
    r
}

/// The markup of a whole float snapshot: one row per entry, in the
/// snapshot's order; an empty snapshot renders as no markup at all.
pub open spec fn float_rows(entries: Seq<(String, String)>) -> Seq<char>
    decreases entries.len(),
{
    if entries.len() == 0 {
        Seq::empty()
    } else {
        float_rows(entries.drop_last()) + float_row(entries.last().0@, entries.last().1@)
    }
}

/// The markup of a whole boolean snapshot: one row per entry, in the
/// snapshot's order; an empty snapshot renders as no markup at all.
pub open spec fn bool_rows(entries: Seq<(String, bool)>) -> Seq<char>
    decreases entries.len(),
{
    if entries.len() == 0 {
        Seq::empty()
    } else {
        bool_rows(entries.drop_last()) + bool_row(entries.last().0@, entries.last().1)
    }
}

/// Renders every float entry of a snapshot, one row per entry, in the
/// snapshot's order. Each pair holds the key and the already formatted value
/// text.
pub fn render_float_rows(entries: &Vec<(String, String)>) -> (r: String)
    ensures
        r@ == float_rows(entries@),
{
    let mut r = String::new();
    let mut i: usize = 0;
    while i < entries.len()
        invariant
            i <= entries@.len(),
            r@ == float_rows(entries@.take(i as int)),
        decreases entries@.len() - i,
    {
        let row = render_float_row(entries[i].0.as_str(), entries[i].1.as_str());
        r.append(row.as_str());
        proof {
            assert(entries@.take(i as int + 1).drop_last() =~= entries@.take(i as int));
            assert(entries@.take(i as int + 1).last() == entries@[i as int]);
        }
        i = i + 1;
    }
    proof {
        assert(entries@.take(entries@.len() as int) =~= entries@);
    }
    r
}

/// Renders every boolean entry of a snapshot, one row per entry, in the
/// snapshot's order.
pub fn render_bool_rows(entries: &Vec<(String, bool)>) -> (r: String)
    ensures
        r@ == bool_rows(entries@),
{
    let mut r = String::new();
    let mut i: usize = 0;
    while i < entries.len()
        invariant
            i <= entries@.len(),
            r@ == bool_rows(entries@.take(i as int)),
        decreases entries@.len() - i,
    {
        let row = render_bool_row(entries[i].0.as_str(), entries[i].1);
        r.append(row.as_str());
        proof {
            assert(entries@.take(i as int + 1).drop_last() =~= entries@.take(i as int));
            assert(entries@.take(i as int + 1).last() == entries@[i as int]);
        }
        i = i + 1;
    }
    proof {
        assert(entries@.take(entries@.len() as int) =~= entries@);
    }
    r
}

/// The whole page: the host's stylesheet (escaped, like any text content), a
/// fixed font rule, a heading, the float rows, the boolean rows, a status
/// area for the client script, and the host's script verbatim.
pub open spec fn page(
    floats: Seq<(String, String)>,
    bools: Seq<(String, bool)>,
    style: Seq<char>,
    script: Seq<char>,
) -> Seq<char> {
    "<style>"@ + escaped(style)
        + "</style><style>* { font-family: sans-serif}</style><div class=\"container\"><h1 class=\"title\">Const Tweaker Web Interface</h1><p>"@
        + float_rows(floats) + "</p><p>"@ + bool_rows(bools)
        + "</p><div class=\"notification is-danger\"><span id=\"status\"></span></div></div><script>"@
        + script + "</script>"@
}

/// Renders the whole page from the two snapshots and the host's static
/// assets. The float snapshot carries each value already formatted as text;
/// the stylesheet is escaped like any text content, the script is placed
/// verbatim.
pub fn render_page(
    floats: &Vec<(String, String)>,
    bools: &Vec<(String, bool)>,
    style: &str,
    script: &str,
) -> (r: String)
    ensures
        r@ == page(floats@, bools@, style@, script@),
{
    let escaped_style = html_escape(style);
    let float_section = render_float_rows(floats);
    let bool_section = render_bool_rows(bools);
    let mut r = String::new();
    r.append("<style>");
    r.append(escaped_style.as_str());
    r.append(
        "</style><style>* { font-family: sans-serif}</style><div class=\"container\"><h1 class=\"title\">Const Tweaker Web Interface</h1><p>",
    );
    r.append(float_section.as_str());
    r.append("</p><p>");
    r.append(bool_section.as_str());
    r.append(
        "</p><div class=\"notification is-danger\"><span id=\"status\"></span></div></div><script>",
    );
    r.append(script);
    r.append("</script>");
    r
}

} // verus!
