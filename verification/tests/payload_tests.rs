use aovpn_manager::payload::decode_powershell_script;
use aovpn_manager::payload::encode_powershell_script;
use base64::Engine;

fn decode_utf16le(bytes: &[u8]) -> String {
    assert_eq!(bytes.len() % 2, 0, "odd UTF-16LE byte count");
    let units: Vec<u16> = bytes
        .chunks(2)
        .map(|p| u16::from_le_bytes([p[0], p[1]]))
        .collect();
    String::from_utf16(&units).expect("ill-formed UTF-16")
}

fn round_trip(s: &str) {
    let encoded = encode_powershell_script(s);
    let bytes = base64::engine::general_purpose::STANDARD
        .decode(&encoded)
        .expect("not valid base64");
    assert_eq!(decode_utf16le(&bytes), s);
    assert_eq!(decode_powershell_script(&encoded).as_deref(), Some(s));
}

#[test]
fn round_trip_empty() {
    round_trip("");
}

#[test]
fn round_trip_ascii() {
    round_trip("Get-Process | Out-Null; exit 0");
}

#[test]
fn round_trip_national_characters() {
    round_trip("Grüße aus Köln: € ÄÖÜß 日本語");
}

#[test]
fn round_trip_beyond_basic_plane() {
    round_trip("surrogate pairs: 🚀𝕍𝕖𝕣𝕦𝕤😀");
}

#[test]
fn round_trip_quotes_and_angle_brackets() {
    round_trip("Write-Host \"<tag attr='v'>\" & exit");
}

#[test]
fn encode_known_value() {
    // "ab" as UTF-16LE is 61 00 62 00, whose standard base64 is fixed.
    assert_eq!(encode_powershell_script("ab"), "YQBiAA==");
}

#[test]
fn encode_empty_is_empty() {
    assert_eq!(encode_powershell_script(""), "");
}

#[test]
fn decode_rejects_text_that_is_not_a_payload() {
    // Not base64 at all.
    assert_eq!(decode_powershell_script("!!!"), None);
    // Valid base64, but the bytes are a lone high surrogate in UTF-16LE.
    let bad = base64::engine::general_purpose::STANDARD.encode([0x00u8, 0xD8]);
    assert_eq!(decode_powershell_script(&bad), None);
    // Valid base64, but an odd number of bytes.
    let odd = base64::engine::general_purpose::STANDARD.encode([0x61u8]);
    assert_eq!(decode_powershell_script(&odd), None);
}

#[test]
fn encoded_output_is_base64_alphabet_only() {
    let encoded = encode_powershell_script("$x = 1; Write-Host \"<&>\"");
    assert!(encoded
        .chars()
        .all(|c| c.is_ascii_alphanumeric() || c == '+' || c == '/' || c == '='));
}
