//! Lexical matching on rendered type text.
//!
//! Relationship inference never parses a type expression: it compares the
//! literal text that the upstream parser rendered for each field, variant
//! payload, parameter and return type.  A type text is split into tokens on a
//! fixed delimiter set, and a relation holds when some token equals an entity
//! name (or a pointer-qualified form of it).

use vstd::prelude::*;

verus! {

/// The delimiter set on which a field or variant-payload type text is split:
/// generic brackets, square brackets, parentheses, semicolon and comma.
/// The blank is not a delimiter here, so a pointer-qualified token such as
/// `*mut B` survives the split whole.
pub open spec fn is_field_delim(c: char) -> bool {
    c == '<' || c == '[' || c == '(' || c == ';' || c == ',' || c == ')' || c == ']' || c == '>'
}

/// The delimiter set on which a method return type text is split: the field
/// set together with the blank.
pub open spec fn is_return_delim(c: char) -> bool {
    is_field_delim(c) || c == ' '
}

/// The delimiter set selected by `blank`: with the blank for return types,
/// without it for field and variant-payload types.
pub open spec fn is_delim(c: char, blank: bool) -> bool {
    if blank {
        is_return_delim(c)
    } else {
        is_field_delim(c)
    }
}

/// Whether `name` holds no delimiter of the selected set.  Only such a name
/// can equal a token of a split, since tokens never contain delimiters.
pub open spec fn delim_free(name: Seq<char>, blank: bool) -> bool {
    forall|k: int| 0 <= k < name.len() ==> !is_delim(name[k], blank)
}

/// Whether `name` stands in `text` at position `i` as a whole token: the
/// characters match and each side is either an end of `text` or a delimiter.
pub open spec fn token_at(text: Seq<char>, name: Seq<char>, blank: bool, i: int) -> bool {
    &&& 0 <= i
    &&& i + name.len() <= text.len()
    &&& text.subrange(i, i + name.len() as int) == name
    &&& (i == 0 || is_delim(text[i - 1], blank))
    &&& (i + name.len() == text.len() || is_delim(text[i + name.len() as int], blank))
}

/// Whether splitting `text` on the selected delimiter set yields a token equal
/// to `name`.  A token of the split is a maximal delimiter-free run (possibly
/// empty), so this holds exactly when `name` is delimiter-free and stands
/// somewhere in `text` bounded by delimiters or the ends.
pub open spec fn has_token(text: Seq<char>, name: Seq<char>, blank: bool) -> bool {
    delim_free(name, blank) && exists|i: int| token_at(text, name, blank, i)
}

/// Whether `suffix` ends `text`.
pub open spec fn ends_with(text: Seq<char>, suffix: Seq<char>) -> bool {
    suffix.len() <= text.len() && text.subrange(
        text.len() - suffix.len(),
        text.len() as int,
    ) == suffix
}

/// Decides `is_delim` for one character.
pub fn delim(c: char, blank: bool) -> (r: bool)
    ensures
        r == is_delim(c, blank),
{
    c == '<' || c == '[' || c == '(' || c == ';' || c == ',' || c == ')' || c == ']' || c == '>'
        || (blank && c == ' ')
}

/// Whether the characters of `name` stand in `text` at position `i`.
fn matches_at(text: &str, name: &str, i: usize) -> (r: bool)
    requires
        i + name@.len() <= text@.len(),
    ensures
        r == (text@.subrange(i as int, i as int + name@.len() as int) == name@),
{
    let nlen = name.unicode_len();
    let tlen = text.unicode_len();
    let mut j: usize = 0;
    while j < nlen
        invariant
            nlen == name@.len(),
            tlen == text@.len(),
            i + nlen <= tlen,
            0 <= j <= nlen,
            forall|k: int| 0 <= k < j ==> text@[i + k] == name@[k],
        decreases nlen - j,
    {
        if text.get_char(i + j) != name.get_char(j) {
            assert(text@.subrange(i as int, i as int + name@.len() as int) != name@) by {
                assert(text@.subrange(i as int, i as int + name@.len() as int)[j as int]
                    == text@[i + j]);
            }
            return false;
        }
        j += 1;
    }
    assert(text@.subrange(i as int, i as int + name@.len() as int) =~= name@);
    true
}

/// Whether two string slices hold the same characters.
pub fn str_eq(a: &str, b: &str) -> (r: bool)
    ensures
        r == (a@ == b@),
{
    if a.unicode_len() != b.unicode_len() {
        return false;
    }
    let r = matches_at(a, b, 0);
    proof {
        assert(a@.subrange(0, a@.len() as int) =~= a@);
    }
    r
}

/// Decides `ends_with`.
pub fn str_ends_with(text: &str, suffix: &str) -> (r: bool)
    ensures
        r == ends_with(text@, suffix@),
{
    let tlen = text.unicode_len();
    let slen = suffix.unicode_len();
    if slen > tlen {
        return false;
    }
    matches_at(text, suffix, tlen - slen)
}

/// Decides `has_token`: whether splitting `text` on the selected delimiter
/// set yields a token equal to `name`.
pub fn contains_token(text: &str, name: &str, blank: bool) -> (r: bool)
    ensures
        r == has_token(text@, name@, blank),
{
    let nlen = name.unicode_len();
    let tlen = text.unicode_len();
    let mut k: usize = 0;
    while k < nlen
        invariant
            nlen == name@.len(),
            0 <= k <= nlen,
            forall|k2: int| 0 <= k2 < k ==> !is_delim(name@[k2], blank),
        decreases nlen - k,
    {
        if delim(name.get_char(k), blank) {
            return false;
        }
        k += 1;
    }
    if nlen > tlen {
        return false;
    }
    let bound = tlen - nlen;
    let mut i: usize = 0;
    loop
        invariant
            nlen == name@.len(),
            tlen == text@.len(),
            nlen <= tlen,
            bound == tlen - nlen,
            0 <= i <= bound,
            delim_free(name@, blank),
            forall|i2: int| 0 <= i2 < i ==> !token_at(text@, name@, blank, i2),
        decreases bound - i,
    {
        let left_ok = i == 0 || delim(text.get_char(i - 1), blank);
        let right_ok = i + nlen == tlen || delim(text.get_char(i + nlen), blank);
        if left_ok && right_ok {
            if matches_at(text, name, i) {
                assert(token_at(text@, name@, blank, i as int));
                return true;
            }
        }
        assert(!token_at(text@, name@, blank, i as int));
        if i == bound {
            assert(forall|i2: int| token_at(text@, name@, blank, i2) ==> 0 <= i2 <= bound);
            return false;
        }
        i += 1;
    }
}


/// The html-escaped form of one character: the four characters that Graphviz
/// record labels reserve become entities, all else stands unchanged.
pub open spec fn html_escaped_char(c: char) -> Seq<char> {
    if c == '&' {
        seq!['&', 'a', 'm', 'p', ';']
    } else if c == '"' {
        seq!['&', 'q', 'u', 'o', 't', ';']
    } else if c == '<' {
        seq!['&', 'l', 't', ';']
    } else if c == '>' {
        seq!['&', 'g', 't', ';']
    } else {
        seq![c]
    }
}

/// The html-escaped form of a text, character by character.
pub open spec fn html_escaped(s: Seq<char>) -> Seq<char>
    decreases s.len(),
{
    if s.len() == 0 {
        Seq::empty()
    } else {
        html_escaped(s.drop_last()) + html_escaped_char(s.last())
    }
}

/// Relies on dot::escape_html: each of `&` `"` `<` `>` becomes its entity,
/// in one pass over the text, and every other character stands unchanged.
#[verifier::external_body]
pub(crate) fn escape_html(s: &str) -> (r: String)
    ensures
        r@ == html_escaped(s@),
{
    dot::escape_html(s)
}

/// Relies on String::push: appends the given character to the end of the
/// string.
#[verifier::external_body]
pub(crate) fn push_char(s: &mut String, c: char)
    ensures
        final(s)@ == old(s)@.push(c),
{
    s.push(c)
}

/// One lowercase hexadecimal digit.
pub open spec fn hex_digit(d: nat) -> char {
    if d == 0 { '0' } else if d == 1 { '1' } else if d == 2 { '2' } else if d == 3 { '3' }
    else if d == 4 { '4' } else if d == 5 { '5' } else if d == 6 { '6' } else if d == 7 { '7' }
    else if d == 8 { '8' } else if d == 9 { '9' } else if d == 10 { 'a' } else if d == 11 { 'b' }
    else if d == 12 { 'c' } else if d == 13 { 'd' } else if d == 14 { 'e' } else { 'f' }
}

/// The lowercase hexadecimal digits of `n`, most significant first, without
/// leading zeros.
pub open spec fn hex_seq(n: nat) -> Seq<char>
    decreases n,
{
    if n < 16 {
        seq![hex_digit(n)]
    } else {
        hex_seq(n / 16).push(hex_digit(n % 16))
    }
}

/// Decides `hex_digit` for one value below sixteen.
fn hex_digit_char(d: u32) -> (r: char)
    requires
        d < 16,
    ensures
        r == hex_digit(d as nat),
{
    if d == 0 { '0' } else if d == 1 { '1' } else if d == 2 { '2' } else if d == 3 { '3' }
    else if d == 4 { '4' } else if d == 5 { '5' } else if d == 6 { '6' } else if d == 7 { '7' }
    else if d == 8 { '8' } else if d == 9 { '9' } else if d == 10 { 'a' } else if d == 11 { 'b' }
    else if d == 12 { 'c' } else if d == 13 { 'd' } else if d == 14 { 'e' } else { 'f' }
}

/// Appends the lowercase hexadecimal digits of `n` to `out`.
fn push_hex(out: &mut String, n: u32)
    ensures
        final(out)@ == old(out)@ + hex_seq(n as nat),
    decreases n,
{
    if n < 16 {
        push_char(out, hex_digit_char(n));
        proof {
            assert(final(out)@ =~= old(out)@ + hex_seq(n as nat));
        }
    } else {
        push_hex(out, n / 16);
        push_char(out, hex_digit_char(n % 16));
        proof {
            assert(final(out)@ =~= old(out)@ + hex_seq(n as nat));
        }
    }
}

/// Whether a character is a control character: the two control blocks at the
/// bottom of the code space.
pub open spec fn quote_control(c: char) -> bool {
    (c as u32) <= 0x1f || (0x7f <= c as u32 && c as u32 <= 0x9f)
}

/// Whether a character has the white-space property, by the fixed list of
/// white-space code points.
pub open spec fn quote_whitespace(c: char) -> bool {
    let u = c as u32;
    (0x9 <= u && u <= 0xd) || u == 0x20 || u == 0x85 || u == 0xa0 || u == 0x1680 || (0x2000 <= u
        && u <= 0x200a) || u == 0x2028 || u == 0x2029 || u == 0x202f || u == 0x205f || u == 0x3000
}

/// Whether quoting rewrites this character at all: every character that is
/// ascii, a control character or white space is rewritten by the default
/// escape; any other character stands unchanged in a quoted label.
pub open spec fn quote_rewrites(c: char) -> bool {
    (c as u32) < 0x80 || quote_control(c) || quote_whitespace(c)
}

/// One character of a quoted label: the named escapes for tab, carriage
/// return, newline, backslash and both quotes, printable ascii unchanged, a
/// hexadecimal escape for the remaining rewritten characters, and everything
/// else unchanged.
pub open spec fn quoted_char(c: char) -> Seq<char> {
    if !quote_rewrites(c) {
        seq![c]
    } else if c == '\t' {
        seq!['\\', 't']
    } else if c == '\r' {
        seq!['\\', 'r']
    } else if c == '\n' {
        seq!['\\', 'n']
    } else if c == '\\' {
        seq!['\\', '\\']
    } else if c == '\'' {
        seq!['\\', '\'']
    } else if c == '"' {
        seq!['\\', '"']
    } else if 0x20 <= c as u32 && c as u32 <= 0x7e {
        seq![c]
    } else {
        seq!['\\', 'u', '{'] + hex_seq(c as nat) + seq!['}']
    }
}

/// A text quoted for a label, character by character.
pub open spec fn quoted(s: Seq<char>) -> Seq<char>
    decreases s.len(),
{
    if s.len() == 0 {
        Seq::empty()
    } else {
        quoted(s.drop_last()) + quoted_char(s.last())
    }
}

/// Quotes a text for inclusion in a double-quoted label.
pub fn escape_label(s: &str) -> (r: String)
    ensures
        r@ == quoted(s@),
{
    let len = s.unicode_len();
    let mut out = String::new();
    let mut i: usize = 0;
    while i < len
        invariant
            len == s@.len(),
            0 <= i <= len,
            out@ =~= quoted(s@.take(i as int)),
        decreases len - i,
    {
        let c = s.get_char(i);
        let u = c as u32;
        if !(u < 0x80 || u <= 0x1f || (0x7f <= u && u <= 0x9f) || (0x9 <= u && u <= 0xd) || u
            == 0x20 || u == 0x85 || u == 0xa0 || u == 0x1680 || (0x2000 <= u && u <= 0x200a) || u
            == 0x2028 || u == 0x2029 || u == 0x202f || u == 0x205f || u == 0x3000) {
            push_char(&mut out, c);
        } else if c == '\t' {
            push_char(&mut out, '\\');
            push_char(&mut out, 't');
        } else if c == '\r' {
            push_char(&mut out, '\\');
            push_char(&mut out, 'r');
        } else if c == '\n' {
            push_char(&mut out, '\\');
            push_char(&mut out, 'n');
        } else if c == '\\' {
            push_char(&mut out, '\\');
            push_char(&mut out, '\\');
        } else if c == '\'' {
            push_char(&mut out, '\\');
            push_char(&mut out, '\'');
        } else if c == '"' {
            push_char(&mut out, '\\');
            push_char(&mut out, '"');
        } else if 0x20 <= u && u <= 0x7e {
            push_char(&mut out, c);
        } else {
            push_char(&mut out, '\\');
            push_char(&mut out, 'u');
            push_char(&mut out, '{');
            push_hex(&mut out, u);
            push_char(&mut out, '}');
        }
        proof {
            assert(s@.take(i as int + 1).drop_last() =~= s@.take(i as int));
            assert(s@.take(i as int + 1).last() == s@[i as int]);
            assert(out@ =~= quoted(s@.take(i as int)) + quoted_char(s@[i as int]));
        }
        i += 1;
    }
    proof {
        assert(s@.take(len as int) =~= s@);
    }
    out
}

/// The parts joined with the separator between each neighbouring two.
pub open spec fn joined(parts: Seq<Seq<char>>, sep: Seq<char>) -> Seq<char>
    decreases parts.len(),
{
    if parts.len() == 0 {
        Seq::empty()
    } else if parts.len() == 1 {
        parts[0]
    } else {
        joined(parts.drop_last(), sep) + sep + parts.last()
    }
}

/// Joins the parts with the separator between each neighbouring two.
pub fn join_strings(parts: &Vec<String>, sep: &str) -> (r: String)
    ensures
        r@ == joined(parts.deep_view(), sep@),
{
    let mut out = String::new();
    let mut i: usize = 0;
    while i < parts.len()
        invariant
            0 <= i <= parts@.len(),
            out@ =~= joined(parts.deep_view().take(i as int), sep@),
        decreases parts@.len() - i,
    {
        if i > 0 {
            out.append(sep);
        }
        out.append(parts[i].as_str());
        proof {
            let pv = parts.deep_view();
            assert(pv.take(i as int + 1).drop_last() =~= pv.take(i as int));
            assert(pv.take(i as int + 1).last() == pv[i as int]);
            assert(pv[i as int] == parts@[i as int]@);
            assert(out@ =~= joined(pv.take(i as int + 1), sep@));
        }
        i += 1;
    }
    proof {
        assert(parts.deep_view().take(parts@.len() as int) =~= parts.deep_view());
    }
    out
}

} // verus!
