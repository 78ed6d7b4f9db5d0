use aovpn_manager::xml::escape_markup;
use aovpn_manager::xml::escape_xml;

/// The parser-side inverse used to check the escaping round trip on real
/// values: entities first, the ampersand entity last.
fn unescape(s: &str) -> String {
    s.replace("&lt;", "<")
        .replace("&gt;", ">")
        .replace("&quot;", "\"")
        .replace("&amp;", "&")
}

#[test]
fn escape_replaces_all_four_specials() {
    assert_eq!(
        escape_xml("\"Acme\" & <Device Tunnel>"),
        "&quot;Acme&quot; &amp; &lt;Device Tunnel&gt;"
    );
}

#[test]
fn escape_leaves_safe_text_alone() {
    assert_eq!(escape_xml("rasdial.exe /disconnect 10.0.0.0/8"), "rasdial.exe /disconnect 10.0.0.0/8");
}

#[test]
fn escape_empty() {
    assert_eq!(escape_xml(""), "");
}

#[test]
fn escape_round_trips_through_a_parser() {
    for raw in [
        "\"Acme Device Tunnel\" /disconnect",
        "a<b>c&d\"e",
        "&&&",
        "<><><>",
        "plain",
    ] {
        assert_eq!(unescape(&escape_xml(raw)), raw);
    }
}

#[test]
fn markup_escape_leaves_ampersand_alone() {
    assert_eq!(escape_markup("a&b <c> \"d\""), "a&b &lt;c&gt; &quot;d&quot;");
}
