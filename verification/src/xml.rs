//! Escaping of text for embedding inside XML documents.
//!
//! Argument strings placed into a task-definition document must have the
//! XML-significant characters `& < > "` replaced by entities before insertion;
//! profile markup embedded inside a script uses a narrower replacement of
//! `< > "` only.  Both transformations are defined here together with a
//! parser-side inverse and the proof that escaping round-trips.
use vstd::prelude::*;

verus! {

/// The entity that stands for `&`.
pub open spec fn amp_entity() -> Seq<char> {
    seq!['&', 'a', 'm', 'p', ';']
}

/// The entity that stands for `<`.
pub open spec fn lt_entity() -> Seq<char> {
    seq!['&', 'l', 't', ';']
}

/// The entity that stands for `>`.
pub open spec fn gt_entity() -> Seq<char> {
    seq!['&', 'g', 't', ';']
}

/// The entity that stands for `"`.
pub open spec fn quot_entity() -> Seq<char> {
    seq!['&', 'q', 'u', 'o', 't', ';']
}

/// The four characters that corrupt an XML document when inserted verbatim.
pub open spec fn is_xml_special(c: char) -> bool {
    c == '&' || c == '<' || c == '>' || c == '"'
}

/// What one character becomes under full escaping.
pub open spec fn escape_char(c: char) -> Seq<char> {
    if c == '&' {
        amp_entity()
    } else if c == '<' {
        lt_entity()
    } else if c == '>' {
        gt_entity()
    } else if c == '"' {
        quot_entity()
    } else {
        seq![c]
    }
}

/// Full escaping of a string: every occurrence of `& < > "` becomes its entity.
pub open spec fn xml_escape(s: Seq<char>) -> Seq<char>
    decreases s.len(),
{
    if s.len() == 0 {
        Seq::empty()
    } else {
        escape_char(s[0]) + xml_escape(s.drop_first())
    }
}

/// What one character becomes under markup escaping, which leaves `&` alone.
/// This is the replacement applied to profile markup before it is embedded
/// in a deployment script.
pub open spec fn escape_markup_char(c: char) -> Seq<char> {
    if c == '<' {
        lt_entity()
    } else if c == '>' {
        gt_entity()
    } else if c == '"' {
        quot_entity()
    } else {
        seq![c]
    }
}

/// Markup escaping of a string: `< > "` become entities, `&` stays.
pub open spec fn xml_escape_markup(s: Seq<char>) -> Seq<char>
    decreases s.len(),
{
    if s.len() == 0 {
        Seq::empty()
    } else {
        escape_markup_char(s[0]) + xml_escape_markup(s.drop_first())
    }
}

/// Prepends a character to a parse result that may have failed.
pub open spec fn unescape_cons(c: char, rest: Option<Seq<char>>) -> Option<Seq<char>> {
    match rest {
        Some(t) => Some(seq![c] + t),
        None => None,
    }
}

/// The parser-side inverse of [`xml_escape`]: reads entities back into the
/// characters they stand for.  `None` when an `&` does not begin one of the
/// four entities, as an XML parser would reject the text.
pub open spec fn xml_unescape(s: Seq<char>) -> Option<Seq<char>>
    decreases s.len(),
{
    if s.len() == 0 {
        Some(Seq::empty())
    } else if s[0] == '&' {
        if s.len() >= 5 && s.take(5) == amp_entity() {
            unescape_cons('&', xml_unescape(s.skip(5)))
        } else if s.len() >= 4 && s.take(4) == lt_entity() {
            unescape_cons('<', xml_unescape(s.skip(4)))
        } else if s.len() >= 4 && s.take(4) == gt_entity() {
            unescape_cons('>', xml_unescape(s.skip(4)))
        } else if s.len() >= 6 && s.take(6) == quot_entity() {
            unescape_cons('"', xml_unescape(s.skip(6)))
        } else {
            None
        }
    } else {
        unescape_cons(s[0], xml_unescape(s.drop_first()))
    }
}

/// Escaping commutes with appending one character; this is the shape the
/// escaping loops consume.
pub proof fn lemma_xml_escape_push(s: Seq<char>, c: char)
    ensures
        xml_escape(s.push(c)) == xml_escape(s) + escape_char(c),
    decreases s.len(),
{
    let p = s.push(c);
    assert(p.len() == s.len() + 1);
    if s.len() == 0 {
        assert(p[0] == c);
        assert(p.drop_first() =~= Seq::<char>::empty());
        assert(xml_escape(p) == escape_char(c) + xml_escape(Seq::<char>::empty()));
        assert(xml_escape(p) =~= escape_char(c));
        assert(xml_escape(s) + escape_char(c) =~= escape_char(c));
    } else {
        assert(p[0] == s[0]);
        assert(p.drop_first() =~= s.drop_first().push(c));
        lemma_xml_escape_push(s.drop_first(), c);
        assert(xml_escape(p) == escape_char(s[0]) + (xml_escape(s.drop_first())
            + escape_char(c)));
        assert(xml_escape(p) =~= xml_escape(s) + escape_char(c));
    }
}

/// Markup escaping commutes with appending one character.
pub proof fn lemma_xml_escape_markup_push(s: Seq<char>, c: char)
    ensures
        xml_escape_markup(s.push(c)) == xml_escape_markup(s) + escape_markup_char(c),
    decreases s.len(),
{
    let p = s.push(c);
    assert(p.len() == s.len() + 1);
    if s.len() == 0 {
        assert(p[0] == c);
        assert(p.drop_first() =~= Seq::<char>::empty());
        assert(xml_escape_markup(p) == escape_markup_char(c) + xml_escape_markup(
            Seq::<char>::empty(),
        ));
        assert(xml_escape_markup(p) =~= escape_markup_char(c));
        assert(xml_escape_markup(s) + escape_markup_char(c) =~= escape_markup_char(c));
    } else {
        assert(p[0] == s[0]);
        assert(p.drop_first() =~= s.drop_first().push(c));
        lemma_xml_escape_markup_push(s.drop_first(), c);
        assert(xml_escape_markup(p) == escape_markup_char(s[0]) + (xml_escape_markup(
            s.drop_first(),
        ) + escape_markup_char(c)));
        assert(xml_escape_markup(p) =~= xml_escape_markup(s) + escape_markup_char(c));
    }
}

/// A string without the four special characters is unchanged by escaping.
/// This is what lets a base64 payload stand inside an XML element with no
/// further treatment.
pub proof fn lemma_xml_escape_no_special(s: Seq<char>)
    requires
        forall|i: int| 0 <= i < s.len() ==> !is_xml_special(#[trigger] s[i]),
    ensures
        xml_escape(s) == s,
    decreases s.len(),
{
    if s.len() == 0 {
        assert(xml_escape(s) =~= s);
    } else {
        assert(!is_xml_special(s[0]));
        lemma_xml_escape_no_special(s.drop_first());
        assert(xml_escape(s) =~= seq![s[0]] + s.drop_first());
        assert(seq![s[0]] + s.drop_first() =~= s);
    }
}

/// Escaping then parsing yields exactly the original text: the escaped form
/// of any argument string, read back by an XML parser, is the literal
/// argument value.
pub proof fn lemma_xml_escape_round_trip(s: Seq<char>)
    ensures
        xml_unescape(xml_escape(s)) == Some(s),
    decreases s.len(),
{
    if s.len() == 0 {
    } else {
        let c = s[0];
        let e = escape_char(c);
        let t = xml_escape(s.drop_first());
        let full = e + t;
        assert(xml_escape(s) == full);
        assert(full.len() >= e.len());
        assert(forall|i: int| 0 <= i < e.len() ==> full[i] == e[i]);
        lemma_xml_escape_round_trip(s.drop_first());
        if c == '&' {
            assert(full[0] == '&');
            assert(full.take(5) =~= e);
            assert(full.skip(5) =~= t);
            assert(xml_unescape(full) == unescape_cons('&', xml_unescape(t)));
            assert(seq!['&'] + s.drop_first() =~= s);
        } else if c == '<' {
            assert(full[0] == '&');
            assert(full.len() >= 4);
            assert(full[1] == 'l');
            assert(!(full.len() >= 5 && full.take(5) == amp_entity())) by {
                if full.len() >= 5 && full.take(5) == amp_entity() {
                    assert(full.take(5)[1] == 'a');
                    assert(full.take(5)[1] == 'l');
                }
            }
            assert(full.take(4) =~= e);
            assert(full.skip(4) =~= t);
            assert(xml_unescape(full) == unescape_cons('<', xml_unescape(t)));
            assert(seq!['<'] + s.drop_first() =~= s);
        } else if c == '>' {
            assert(full[0] == '&');
            assert(full.len() >= 4);
            assert(full[1] == 'g');
            assert(!(full.len() >= 5 && full.take(5) == amp_entity())) by {
                if full.len() >= 5 && full.take(5) == amp_entity() {
                    assert(full.take(5)[1] == 'a');
                    assert(full.take(5)[1] == 'g');
                }
            }
            assert(full.take(4) != lt_entity()) by {
                if full.take(4) == lt_entity() {
                    assert(full.take(4)[1] == 'l');
                    assert(full.take(4)[1] == 'g');
                }
            }
            assert(full.take(4) =~= e);
            assert(full.skip(4) =~= t);
            assert(xml_unescape(full) == unescape_cons('>', xml_unescape(t)));
            assert(seq!['>'] + s.drop_first() =~= s);
        } else if c == '"' {
            assert(full[0] == '&');
            assert(full.len() >= 6);
            assert(full[1] == 'q');
            assert(!(full.len() >= 5 && full.take(5) == amp_entity())) by {
                if full.len() >= 5 && full.take(5) == amp_entity() {
                    assert(full.take(5)[1] == 'a');
                    assert(full.take(5)[1] == 'q');
                }
            }
            assert(full.take(4) != lt_entity()) by {
                if full.take(4) == lt_entity() {
                    assert(full.take(4)[1] == 'l');
                    assert(full.take(4)[1] == 'q');
                }
            }
            assert(full.take(4) != gt_entity()) by {
                if full.take(4) == gt_entity() {
                    assert(full.take(4)[1] == 'g');
                    assert(full.take(4)[1] == 'q');
                }
            }
            assert(full.take(6) =~= e);
            assert(full.skip(6) =~= t);
            assert(xml_unescape(full) == unescape_cons('"', xml_unescape(t)));
            assert(seq!['"'] + s.drop_first() =~= s);
        } else {
            assert(full[0] == c);
            assert(full.drop_first() =~= t);
            assert(xml_unescape(full) == unescape_cons(c, xml_unescape(t)));
            assert(seq![c] + s.drop_first() =~= s);
        }
    }
}

/// Replaces every `& < > "` in `s` by its XML entity; the mandatory step
/// before an argument string is inserted into a task-definition document.
pub fn escape_xml(s: &str) -> (r: String)
    ensures
        r@ == xml_escape(s@),
{
    let n = s.unicode_len();
    let mut r = String::new();
    let mut i: usize = 0;
    while i < n
        invariant
            n == s@.len(),
            i <= n,
            r@ == xml_escape(s@.take(i as int)),
        decreases n - i,
    {
        let c = s.get_char(i);
        if c == '&' {
            r.push('&');
            r.push('a');
            r.push('m');
            r.push('p');
            r.push(';');
        } else if c == '<' {
            r.push('&');
            r.push('l');
            r.push('t');
            r.push(';');
        } else if c == '>' {
            r.push('&');
            r.push('g');
            r.push('t');
            r.push(';');
        } else if c == '"' {
            r.push('&');
            r.push('q');
            r.push('u');
            r.push('o');
            r.push('t');
            r.push(';');
        } else {
            r.push(c);
        }
        proof {
            lemma_xml_escape_push(s@.take(i as int), s@[i as int]);
            assert(s@.take(i as int + 1) =~= s@.take(i as int).push(s@[i as int]));
            assert(r@ =~= xml_escape(s@.take(i as int)) + escape_char(s@[i as int]));
        }
        i = i + 1;
    }
    proof {
        assert(s@.take(n as int) =~= s@);
    }
    r
}

/// Replaces every `< > "` in `s` by its XML entity, leaving `&` alone; the
/// replacement applied to profile markup before it is embedded in a script.
pub fn escape_markup(s: &str) -> (r: String)
    ensures
        r@ == xml_escape_markup(s@),
{
    let n = s.unicode_len();
    let mut r = String::new();
    let mut i: usize = 0;
    while i < n
        invariant
            n == s@.len(),
            i <= n,
            r@ == xml_escape_markup(s@.take(i as int)),
        decreases n - i,
    {
        let c = s.get_char(i);
        if c == '<' {
            r.push('&');
            r.push('l');
            r.push('t');
            r.push(';');
        } else if c == '>' {
            r.push('&');
            r.push('g');
            r.push('t');
            r.push(';');
        } else if c == '"' {
            r.push('&');
            r.push('q');
            r.push('u');
            r.push('o');
            r.push('t');
            r.push(';');
        } else {
            r.push(c);
        }
        proof {
            lemma_xml_escape_markup_push(s@.take(i as int), s@[i as int]);
            assert(s@.take(i as int + 1) =~= s@.take(i as int).push(s@[i as int]));
            assert(r@ =~= xml_escape_markup(s@.take(i as int)) + escape_markup_char(s@[i as int]));
        }
        i = i + 1;
    }
    proof {
        assert(s@.take(n as int) =~= s@);
    }
    r
}

} // verus!
