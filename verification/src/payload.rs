//! The payload encoder: turns an arbitrary script into a form safe to embed
//! inside an XML task definition and to pass as a single encoded-command
//! argument to the shell interpreter.
//!
//! The interpreter's encoded-command feature requires the script reinterpreted
//! as UTF-16 little-endian code units and then base64-encoded; any other
//! encoding silently corrupts non-ASCII content.  The UTF-16LE step is
//! implemented and proved invertible here; the base64 step is the outside
//! encoder's, taken on its documented behaviour.
use crate::xml::is_xml_special;
use crate::xml::lemma_xml_escape_no_special;
use crate::xml::xml_escape;
use vstd::arithmetic::div_mod::lemma_div_is_ordered;
use vstd::arithmetic::div_mod::lemma_fundamental_div_mod;
use vstd::arithmetic::div_mod::lemma_mod_bound;
use vstd::prelude::*;
use vstd::utf8::char_is_scalar;
use vstd::utf8::char_u32_cast;
use vstd::utf8::is_scalar;

verus! {

/// True when `c` lies outside the basic plane and UTF-16 spends a surrogate
/// pair on it.
pub open spec fn needs_surrogate_pair(c: char) -> bool {
    c as u32 >= 0x10000
}

/// The UTF-16 code units of one character: the code point itself, or a
/// high/low surrogate pair for characters beyond the basic plane.
pub open spec fn utf16_units_of_char(c: char) -> Seq<u16> {
    if !needs_surrogate_pair(c) {
        seq![(c as u32) as u16]
    } else {
        seq![
            (0xD800 + ((c as u32) - 0x10000) / 0x400) as u16,
            (0xDC00 + ((c as u32) - 0x10000) % 0x400) as u16,
        ]
    }
}

/// The UTF-16 code units of a string.
pub open spec fn utf16_units(s: Seq<char>) -> Seq<u16>
    decreases s.len(),
{
    if s.len() == 0 {
        Seq::empty()
    } else {
        utf16_units_of_char(s[0]) + utf16_units(s.drop_first())
    }
}

/// Each 16-bit unit as two bytes, low byte first.
pub open spec fn le_bytes(units: Seq<u16>) -> Seq<u8>
    decreases units.len(),
{
    if units.len() == 0 {
        Seq::empty()
    } else {
        seq![((units[0] as int) % 256) as u8, ((units[0] as int) / 256) as u8] + le_bytes(
            units.drop_first(),
        )
    }
}

/// The UTF-16 little-endian byte rendering of a string.
pub open spec fn utf16le_bytes(s: Seq<char>) -> Seq<u8> {
    le_bytes(utf16_units(s))
}

/// Prepends a character to a decode result that may have failed.
pub open spec fn decode_cons(c: char, rest: Option<Seq<char>>) -> Option<Seq<char>> {
    match rest {
        Some(t) => Some(seq![c] + t),
        None => None,
    }
}

/// The inverse reading of a UTF-16LE byte sequence: pairs of bytes are
/// little-endian code units, surrogate pairs recombine into one character.
/// `None` for an odd byte count or an ill-formed surrogate.
pub open spec fn utf16le_decode(b: Seq<u8>) -> Option<Seq<char>>
    decreases b.len(),
{
    if b.len() == 0 {
        Some(Seq::empty())
    } else if b.len() == 1 {
        None
    } else {
        let u = b[0] as int + 256 * (b[1] as int);
        if u < 0xD800 || 0xE000 <= u {
            decode_cons((u as u32) as char, utf16le_decode(b.skip(2)))
        } else if u < 0xDC00 {
            if b.len() < 4 {
                None
            } else {
                let u2 = b[2] as int + 256 * (b[3] as int);
                if 0xDC00 <= u2 < 0xE000 {
                    let v = 0x10000 + (u - 0xD800) * 0x400 + (u2 - 0xDC00);
                    decode_cons((v as u32) as char, utf16le_decode(b.skip(4)))
                } else {
                    None
                }
            }
        } else {
            None
        }
    }
}

/// The bytes of a single unit, spelled out.
pub proof fn lemma_le_bytes_single(u: u16)
    ensures
        le_bytes(seq![u]) == seq![((u as int) % 256) as u8, ((u as int) / 256) as u8],
{
    reveal_with_fuel(le_bytes, 3);
    assert(seq![u].drop_first() =~= Seq::<u16>::empty());
    assert(le_bytes(seq![u]) =~= seq![((u as int) % 256) as u8, ((u as int) / 256) as u8]);
}

/// The bytes of a pair of units, spelled out.
pub proof fn lemma_le_bytes_pair(u1: u16, u2: u16)
    ensures
        le_bytes(seq![u1, u2]) == seq![
            ((u1 as int) % 256) as u8,
            ((u1 as int) / 256) as u8,
            ((u2 as int) % 256) as u8,
            ((u2 as int) / 256) as u8,
        ],
{
    reveal_with_fuel(le_bytes, 3);
    assert(seq![u1, u2].drop_first() =~= seq![u2]);
    assert(seq![u2].drop_first() =~= Seq::<u16>::empty());
    assert(le_bytes(seq![u1, u2]) =~= seq![
        ((u1 as int) % 256) as u8,
        ((u1 as int) / 256) as u8,
        ((u2 as int) % 256) as u8,
        ((u2 as int) / 256) as u8,
    ]);
}

/// Unit production commutes with appending one character.
pub proof fn lemma_utf16_units_push(s: Seq<char>, c: char)
    ensures
        utf16_units(s.push(c)) == utf16_units(s) + utf16_units_of_char(c),
    decreases s.len(),
{
    let p = s.push(c);
    assert(p.len() == s.len() + 1);
    if s.len() == 0 {
        assert(p[0] == c);
        assert(p.drop_first() =~= Seq::<char>::empty());
        assert(utf16_units(p) == utf16_units_of_char(c) + utf16_units(Seq::<char>::empty()));
        assert(utf16_units(p) =~= utf16_units_of_char(c));
        assert(utf16_units(s) + utf16_units_of_char(c) =~= utf16_units_of_char(c));
    } else {
        assert(p[0] == s[0]);
        assert(p.drop_first() =~= s.drop_first().push(c));
        lemma_utf16_units_push(s.drop_first(), c);
        assert(utf16_units(p) == utf16_units_of_char(s[0]) + (utf16_units(s.drop_first())
            + utf16_units_of_char(c)));
        assert(utf16_units(p) =~= utf16_units(s) + utf16_units_of_char(c));
    }
}

/// Byte rendering distributes over concatenation of unit sequences.
pub proof fn lemma_le_bytes_concat(a: Seq<u16>, b: Seq<u16>)
    ensures
        le_bytes(a + b) == le_bytes(a) + le_bytes(b),
    decreases a.len(),
{
    if a.len() == 0 {
        assert(a + b =~= b);
        assert(le_bytes(a) + le_bytes(b) =~= le_bytes(b));
    } else {
        assert((a + b).len() > 0);
        assert((a + b)[0] == a[0]);
        assert((a + b).drop_first() =~= a.drop_first() + b);
        lemma_le_bytes_concat(a.drop_first(), b);
        assert(le_bytes(a + b) == seq![
            ((a[0] as int) % 256) as u8,
            ((a[0] as int) / 256) as u8,
        ] + (le_bytes(a.drop_first()) + le_bytes(b)));
        assert(le_bytes(a + b) =~= le_bytes(a) + le_bytes(b));
    }
}

/// Byte rendering commutes with appending one character; this is the shape
/// the encoding loop consumes.
pub proof fn lemma_utf16le_bytes_push(s: Seq<char>, c: char)
    ensures
        utf16le_bytes(s.push(c)) == utf16le_bytes(s) + le_bytes(utf16_units_of_char(c)),
{
    lemma_utf16_units_push(s, c);
    lemma_le_bytes_concat(utf16_units(s), utf16_units_of_char(c));
}

/// Two bytes per unit.
pub proof fn lemma_le_bytes_len(units: Seq<u16>)
    ensures
        le_bytes(units).len() == 2 * units.len(),
    decreases units.len(),
{
    if units.len() == 0 {
    } else {
        lemma_le_bytes_len(units.drop_first());
    }
}

/// At most two units per character, so at most four bytes per character.
pub proof fn lemma_utf16le_bytes_len(s: Seq<char>)
    ensures
        utf16le_bytes(s).len() <= 4 * s.len(),
    decreases s.len(),
{
    if s.len() == 0 {
    } else {
        lemma_le_bytes_concat(utf16_units_of_char(s[0]), utf16_units(s.drop_first()));
        lemma_le_bytes_len(utf16_units_of_char(s[0]));
        lemma_utf16le_bytes_len(s.drop_first());
    }
}

/// Reading back the UTF-16LE rendering of any string recovers that string
/// exactly, surrogate pairs included.
pub proof fn lemma_utf16le_round_trip(s: Seq<char>)
    ensures
        utf16le_decode(utf16le_bytes(s)) == Some(s),
    decreases s.len(),
{
    if s.len() == 0 {
        assert(utf16_units(s) == Seq::<u16>::empty());
        assert(utf16le_bytes(s) == Seq::<u8>::empty());
    } else {
        let c = s[0];
        let rest = s.drop_first();
        char_is_scalar(c);
        let head = utf16_units_of_char(c);
        lemma_le_bytes_concat(head, utf16_units(rest));
        let bytes = utf16le_bytes(s);
        assert(bytes == le_bytes(head) + utf16le_bytes(rest));
        lemma_utf16le_round_trip(rest);
        if !needs_surrogate_pair(c) {
            let w = c as u32;
            assert(w < 0x10000);
            let unit = (w as int) as u16;
            assert(unit as int == w as int);
            assert(head =~= seq![unit]);
            lemma_le_bytes_single(unit);
            lemma_fundamental_div_mod(unit as int, 256);
            lemma_mod_bound(unit as int, 256);
            lemma_div_is_ordered(unit as int, 0xFFFF, 256);
            assert(bytes.len() >= 2);
            let u = bytes[0] as int + 256 * (bytes[1] as int);
            assert(bytes[0] as int == (unit as int) % 256);
            assert(bytes[1] as int == (unit as int) / 256);
            assert(u == unit as int);
            assert(is_scalar(w));
            assert(u < 0xD800 || 0xE000 <= u);
            char_u32_cast(c, u as u32);
            assert(bytes.skip(2) =~= utf16le_bytes(rest));
            assert(utf16le_decode(bytes) == decode_cons(c, Some(rest)));
            assert(seq![c] + rest =~= s);
        } else {
            let w = c as u32;
            assert(is_scalar(w));
            assert(0x10000 <= w <= 0x10FFFF);
            let v = (w as int) - 0x10000;
            lemma_fundamental_div_mod(v, 0x400);
            lemma_mod_bound(v, 0x400);
            let q = v / 0x400;
            let r = v % 0x400;
            assert(0 <= q <= 0x3FF);
            let hi = (0xD800 + q) as u16;
            let lo = (0xDC00 + r) as u16;
            assert(hi as int == 0xD800 + q);
            assert(lo as int == 0xDC00 + r);
            assert(head =~= seq![hi, lo]);
            lemma_le_bytes_pair(hi, lo);
            assert(bytes.len() >= 4);
            lemma_fundamental_div_mod(hi as int, 256);
            lemma_mod_bound(hi as int, 256);
            lemma_fundamental_div_mod(lo as int, 256);
            lemma_mod_bound(lo as int, 256);
            let u = bytes[0] as int + 256 * (bytes[1] as int);
            let u2 = bytes[2] as int + 256 * (bytes[3] as int);
            assert(u == hi as int);
            assert(u2 == lo as int);
            assert(0xD800 <= u < 0xDC00);
            assert(0xDC00 <= u2 < 0xE000);
            let v2 = 0x10000 + (u - 0xD800) * 0x400 + (u2 - 0xDC00);
            assert(v2 == 0x10000 + q * 0x400 + r);
            assert(v2 == w as int);
            char_u32_cast(c, v2 as u32);
            assert(bytes.skip(4) =~= utf16le_bytes(rest));
            assert(utf16le_decode(bytes) == decode_cons(c, Some(rest)));
            assert(seq![c] + rest =~= s);
        }
    }
}

/// Turns a string into its UTF-16 little-endian byte rendering.
pub fn utf16le_encode(s: &str) -> (r: Vec<u8>)
    ensures
        r@ == utf16le_bytes(s@),
{
    let n = s.unicode_len();
    let mut r: Vec<u8> = Vec::new();
    let mut i: usize = 0;
    proof {
        assert(s@.take(0) =~= Seq::<char>::empty());
    }
    while i < n
        invariant
            n == s@.len(),
            i <= n,
            r@ == utf16le_bytes(s@.take(i as int)),
        decreases n - i,
    {
        let c = s.get_char(i);
        let w = c as u32;
        proof {
            char_is_scalar(c);
        }
        if w < 0x10000 {
            proof {
                lemma_mod_bound(w as int, 256);
                lemma_div_is_ordered(w as int, 0xFFFF, 256);
            }
            r.push((w % 256) as u8);
            r.push((w / 256) as u8);
            proof {
                let unit = (w as int) as u16;
                let head = utf16_units_of_char(c);
                assert(head =~= seq![unit]);
                lemma_le_bytes_single(unit);
            }
        } else {
            proof {
                lemma_mod_bound((w - 0x10000) as int, 0x400);
                lemma_fundamental_div_mod((w - 0x10000) as int, 0x400);
            }
            let v = w - 0x10000;
            let hi = 0xD800 + v / 0x400;
            let lo = 0xDC00 + v % 0x400;
            proof {
                assert(v <= 0xFFFFF);
                assert(hi <= 0xDBFF);
                assert(lo <= 0xDFFF);
                lemma_mod_bound(hi as int, 256);
                lemma_div_is_ordered(hi as int, 0xFFFF, 256);
                lemma_mod_bound(lo as int, 256);
                lemma_div_is_ordered(lo as int, 0xFFFF, 256);
            }
            r.push((hi % 256) as u8);
            r.push((hi / 256) as u8);
            r.push((lo % 256) as u8);
            r.push((lo / 256) as u8);
            proof {
                let hiu = (0xD800 + ((w as int) - 0x10000) / 0x400) as u16;
                let lou = (0xDC00 + ((w as int) - 0x10000) % 0x400) as u16;
                assert(hiu as int == hi as int);
                assert(lou as int == lo as int);
                let head = utf16_units_of_char(c);
                assert(head =~= seq![hiu, lou]);
                lemma_le_bytes_pair(hiu, lou);
            }
        }
        proof {
            lemma_utf16le_bytes_push(s@.take(i as int), s@[i as int]);
            assert(s@.take(i as int + 1) =~= s@.take(i as int).push(s@[i as int]));
            assert(r@ =~= utf16le_bytes(s@.take(i as int)) + le_bytes(
                utf16_units_of_char(s@[i as int]),
            ));
        }
        i = i + 1;
    }
    proof {
        assert(s@.take(n as int) =~= s@);
    }
    r
}

/// Prepends an already-decoded prefix to a decode result that may have
/// failed.
pub open spec fn opt_prepend(a: Seq<char>, rest: Option<Seq<char>>) -> Option<Seq<char>> {
    match rest {
        Some(t) => Some(a + t),
        None => None,
    }
}

/// Moving one decoded character from the remainder into the prefix changes
/// nothing; this is the shape the decoding loop consumes.
pub proof fn lemma_opt_prepend_shift(a: Seq<char>, c: char, rest: Option<Seq<char>>)
    ensures
        opt_prepend(a, decode_cons(c, rest)) == opt_prepend(a.push(c), rest),
{
    match rest {
        Some(t) => {
            assert(a + (seq![c] + t) =~= a.push(c) + t);
        },
        None => {},
    }
}

/// Reads a UTF-16 little-endian byte sequence back into text: exactly
/// [`utf16le_decode`], with `None` for an odd byte count or an ill-formed
/// surrogate.
pub fn utf16le_decode_bytes(bytes: &Vec<u8>) -> (r: Option<String>)
    ensures
        r is Some <==> utf16le_decode(bytes@) is Some,
        r matches Some(t) ==> Some(t@) == utf16le_decode(bytes@),
{
    let n = bytes.len();
    let mut out = String::new();
    let mut i: usize = 0;
    proof {
        assert(bytes@.skip(0) =~= bytes@);
        assert(out@ =~= Seq::<char>::empty());
        assert(opt_prepend(out@, utf16le_decode(bytes@)) == utf16le_decode(bytes@)) by {
            match utf16le_decode(bytes@) {
                Some(t) => {
                    assert(out@ + t =~= t);
                },
                None => {},
            }
        }
    }
    while i < n
        invariant
            n == bytes@.len(),
            i <= n,
            utf16le_decode(bytes@) == opt_prepend(out@, utf16le_decode(bytes@.skip(i as int))),
        decreases n - i,
    {
        let ghost rest = bytes@.skip(i as int);
        proof {
            assert(rest.len() == n - i);
            assert(rest[0] == bytes@[i as int]);
        }
        if i + 1 == n {
            // One dangling byte: not UTF-16.
            return None;
        }
        proof {
            assert(rest[1] == bytes@[i as int + 1]);
        }
        let u: u32 = bytes[i] as u32 + 256 * (bytes[i + 1] as u32);
        proof {
            assert(u as int == rest[0] as int + 256 * (rest[1] as int));
        }
        if u < 0xD800 || 0xE000 <= u {
            let c = match char::from_u32(u) {
                Some(c) => c,
                None => {
                    // Unreachable: a basic-plane non-surrogate is a scalar.
                    return None;
                },
            };
            proof {
                char_u32_cast(c, u);
                assert(utf16le_decode(rest) == decode_cons(c, utf16le_decode(rest.skip(2))));
                lemma_opt_prepend_shift(out@, c, utf16le_decode(rest.skip(2)));
                assert(rest.skip(2) =~= bytes@.skip(i as int + 2));
            }
            out.push(c);
            i = i + 2;
        } else if u < 0xDC00 {
            if n - i < 4 {
                // A high surrogate with no room for its partner.
                proof {
                    assert(utf16le_decode(rest) is None);
                }
                return None;
            }
            proof {
                assert(rest[2] == bytes@[i as int + 2]);
                assert(rest[3] == bytes@[i as int + 3]);
            }
            let u2: u32 = bytes[i + 2] as u32 + 256 * (bytes[i + 3] as u32);
            proof {
                assert(u2 as int == rest[2] as int + 256 * (rest[3] as int));
            }
            if 0xDC00 <= u2 && u2 < 0xE000 {
                let v: u32 = 0x10000 + (u - 0xD800) * 0x400 + (u2 - 0xDC00);
                proof {
                    assert(0x10000 <= v <= 0x10FFFF);
                    assert(is_scalar(v));
                }
                let c = match char::from_u32(v) {
                    Some(c) => c,
                    None => {
                        // Unreachable: recombined supplementary values are scalars.
                        return None;
                    },
                };
                proof {
                    char_u32_cast(c, v);
                    assert(utf16le_decode(rest) == decode_cons(c, utf16le_decode(rest.skip(4))));
                    lemma_opt_prepend_shift(out@, c, utf16le_decode(rest.skip(4)));
                    assert(rest.skip(4) =~= bytes@.skip(i as int + 4));
                }
                out.push(c);
                i = i + 4;
            } else {
                // A high surrogate followed by anything but a low surrogate.
                proof {
                    assert(utf16le_decode(rest) is None);
                }
                return None;
            }
        } else {
            // An unpaired low surrogate.
            proof {
                assert(utf16le_decode(rest) is None);
            }
            return None;
        }
    }
    proof {
        assert(bytes@.skip(n as int) =~= Seq::<u8>::empty());
        assert(utf16le_decode(Seq::<u8>::empty()) == Some(Seq::<char>::empty()));
        assert(out@ + Seq::<char>::empty() =~= out@);
    }
    Some(out)
}

/// The characters the standard base64 encoder can emit: its alphabet and the
/// padding character.
pub open spec fn is_base64_char(c: char) -> bool {
    ||| ('A' as u32) <= (c as u32) <= ('Z' as u32)
    ||| ('a' as u32) <= (c as u32) <= ('z' as u32)
    ||| ('0' as u32) <= (c as u32) <= ('9' as u32)
    ||| c == '+'
    ||| c == '/'
    ||| c == '='
}

/// The standard, padded base64 rendering of a byte sequence, exactly as the
/// outside encoder produces it.
pub uninterp spec fn b64_of(bytes: Seq<u8>) -> Seq<char>;

/// Relies on `base64::engine::Engine::encode` with the
/// `general_purpose::STANDARD` engine: standard alphabet with padding, four
/// output characters for every three input bytes.  The length bound below is
/// the crate's own `encoded_len` formula; inputs long enough to overflow it
/// are excluded because the encoder panics on them.
#[verifier::external_body]
fn base64_encode(bytes: &Vec<u8>) -> (r: String)
    requires
        4 * ((bytes@.len() + 2) / 3) <= usize::MAX,
    ensures
        r@ == b64_of(bytes@),
        r@.len() == 4 * ((bytes@.len() + 2) / 3),
        forall|i: int| 0 <= i < r@.len() ==> is_base64_char(#[trigger] r@[i]),
{
    base64::engine::Engine::encode(&base64::engine::general_purpose::STANDARD, bytes.as_slice())
}

/// Relies on `base64::engine::Engine::decode` with the
/// `general_purpose::STANDARD` engine: it inverts the engine's `encode`, so
/// decoding the encoding of any byte sequence yields exactly that sequence.
#[verifier::external_body]
fn base64_decode(s: &str) -> (r: Option<Vec<u8>>)
    ensures
        forall|b: Seq<u8>| s@ == b64_of(b) ==> r is Some && r->Some_0@ == b,
{
    base64::engine::Engine::decode(&base64::engine::general_purpose::STANDARD, s).ok()
}

/// No base64 output character is XML-significant.
pub proof fn lemma_base64_char_not_special(c: char)
    requires
        is_base64_char(c),
    ensures
        !is_xml_special(c),
{
}

/// Encodes a script for the interpreter's encoded-command argument: the text
/// as UTF-16LE bytes, base64-encoded.  The result consists of base64
/// characters only and is therefore unchanged by XML escaping: it can stand
/// inside an XML element body and as a single command-line token as it is.
pub fn encode_powershell_script(script: &str) -> (r: String)
    requires
        script@.len() <= 0x1000_0000,
    ensures
        r@ == b64_of(utf16le_bytes(script@)),
        forall|i: int| 0 <= i < r@.len() ==> is_base64_char(#[trigger] r@[i]),
        xml_escape(r@) == r@,
{
    let bytes = utf16le_encode(script);
    proof {
        lemma_utf16le_bytes_len(script@);
        assert(bytes@.len() <= 0x4000_0000);
        lemma_div_is_ordered(bytes@.len() + 2 as int, 0x4000_0002, 3);
        assert(4 * ((bytes@.len() + 2) / 3) <= 4 * (0x4000_0002int / 3));
        assert(4 * (0x4000_0002int / 3) < 0xFFFF_FFFF);
        assert(usize::MAX >= 0xFFFF_FFFF);
    }
    let r = base64_encode(&bytes);
    proof {
        assert forall|i: int| 0 <= i < r@.len() implies !is_xml_special(#[trigger] r@[i]) by {
            lemma_base64_char_not_special(r@[i]);
        }
        lemma_xml_escape_no_special(r@);
    }
    r
}

/// The exact inverse of [`encode_powershell_script`]: fed the encoding of any
/// script, it returns that script — the payload transport corrupts nothing,
/// national characters included.
pub fn decode_powershell_script(encoded: &str) -> (r: Option<String>)
    ensures
        forall|s: Seq<char>|
            encoded@ == b64_of(utf16le_bytes(s)) ==> (r matches Some(t) && t@ == s),
{
    let bytes = match base64_decode(encoded) {
        Some(bytes) => bytes,
        None => {
            return None;
        },
    };
    let r = utf16le_decode_bytes(&bytes);
    proof {
        assert forall|s: Seq<char>| encoded@ == b64_of(utf16le_bytes(s)) implies (r matches Some(t)
            && t@ == s) by {
            assert(bytes@ == utf16le_bytes(s));
            lemma_utf16le_round_trip(s);
        }
    }
    r
}

} // verus!
