//! Reading the wire form back: a reader for the JSON the library writes,
//! defined on its own terms (JSON's string escapes and the packet's key
//! order), and the proof that it recovers every packet and payload.

use vstd::prelude::*;
use crate::packet::{MessageView, escaped_char, escaped_text, hex_digit, json_field, json_string_literal, wire_text};

verus! {

/// The value of a lower-case hexadecimal digit.
pub open spec fn hex_value(c: char) -> Option<u32> {
    let n = c as u32;
    if 48 <= n <= 57 {
        Some((n - 48) as u32)
    } else if 97 <= n <= 102 {
        Some((n - 87) as u32)
    } else {
        None
    }
}

/// The character a two-character JSON escape `\e` stands for.
pub open spec fn simple_escape(e: char) -> Option<char> {
    if e == '"' {
        Some('"')
    } else if e == '\\' {
        Some('\\')
    } else if e == '/' {
        Some('/')
    } else if e == 'b' {
        Some('\x08')
    } else if e == 'f' {
        Some('\x0c')
    } else if e == 'n' {
        Some('\n')
    } else if e == 'r' {
        Some('\r')
    } else if e == 't' {
        Some('\t')
    } else {
        None
    }
}

/// The code point of a `\uXXXX` escape whose four digits start `t`, when it
/// stands for a character below U+D800.
pub open spec fn unicode_escape(t: Seq<char>) -> Option<u32> {
    if t.len() >= 4 && hex_value(t[0]) is Some && hex_value(t[1]) is Some && hex_value(t[2]) is Some
        && hex_value(t[3]) is Some {
        let code = hex_value(t[0])->0 * 4096 + hex_value(t[1])->0 * 256 + hex_value(t[2])->0 * 16
            + hex_value(t[3])->0;
        if code < 0xD800 {
            Some(code as u32)
        } else {
            None
        }
    } else {
        None
    }
}

/// `c` in front of what was read so far.
pub open spec fn prepend(c: char, r: Option<(Seq<char>, Seq<char>)>) -> Option<(Seq<char>, Seq<char>)> {
    match r {
        Some((s, rest)) => Some((seq![c] + s, rest)),
        None => None,
    }
}

/// Reads the inside of a JSON string, from just after its opening quote: the
/// characters it stands for, and the text after its closing quote.
pub open spec fn read_string_body(t: Seq<char>) -> Option<(Seq<char>, Seq<char>)>
    decreases t.len(),
{
    if t.len() == 0 {
        None
    } else if t[0] == '"' {
        Some((Seq::empty(), t.drop_first()))
    } else if t[0] == '\\' {
        if t.len() >= 2 && simple_escape(t[1]) is Some {
            prepend(simple_escape(t[1])->0, read_string_body(t.skip(2)))
        } else if t.len() >= 6 && t[1] == 'u' && unicode_escape(t.skip(2)) is Some {
            prepend((unicode_escape(t.skip(2))->0) as char, read_string_body(t.skip(6)))
        } else {
            None
        }
    } else {
        prepend(t[0], read_string_body(t.drop_first()))
    }
}

/// The text after `prefix`, when `t` starts with it.
pub open spec fn after(t: Seq<char>, prefix: Seq<char>) -> Option<Seq<char>> {
    if prefix.len() <= t.len() && t.take(prefix.len() as int) == prefix {
        Some(t.skip(prefix.len() as int))
    } else {
        None
    }
}

/// Reads a JSON value that is a string or `null`: the string (or `None` for
/// `null`), and the text after it.
pub open spec fn read_value(t: Seq<char>) -> Option<(Option<Seq<char>>, Seq<char>)> {
    if t.len() > 0 && t[0] == '"' {
        match read_string_body(t.drop_first()) {
            Some((s, rest)) => Some((Some(s), rest)),
            None => None,
        }
    } else {
        match after(t, "null"@) {
            Some(rest) => Some((None, rest)),
            None => None,
        }
    }
}

/// Reads `key_prefix` and then a value.
#[verifier::opaque]
pub open spec fn read_keyed(t: Option<Seq<char>>, key_prefix: Seq<char>) -> Option<(Option<Seq<char>>, Seq<char>)> {
    match t {
        Some(t) => match after(t, key_prefix) {
            Some(u) => read_value(u),
            None => None,
        },
        None => None,
    }
}

/// The text that follows a read value.
pub open spec fn rest_of(r: Option<(Option<Seq<char>>, Seq<char>)>) -> Option<Seq<char>> {
    match r {
        Some((_, rest)) => Some(rest),
        None => None,
    }
}

/// Reads a packet in wire form: the five keys in order, each holding a string
/// or `null`, and nothing after the closing brace.
pub open spec fn decode_wire(t: Seq<char>) -> Option<MessageView> {
    let ty = read_keyed(Some(t), "{\"type\":"@);
    let id = read_keyed(rest_of(ty), ",\"id\":"@);
    let to = read_keyed(rest_of(id), ",\"to\":"@);
    let from = read_keyed(rest_of(to), ",\"from\":"@);
    let payload = read_keyed(rest_of(from), ",\"payload\":"@);
    match (ty, id, to, from, payload) {
        (Some((a, _)), Some((b, _)), Some((c, _)), Some((d, _)), Some((e, rest))) => if rest == "}"@ {
            Some(MessageView { msg_type: a, id: b, to: c, from: d, payload: e })
        } else {
            None
        },
        _ => None,
    }
}

/// Reads a JSON object with one key, written `{"key":` by `prefix`, whose value
/// is a string: that string.
pub open spec fn read_single_field(t: Seq<char>, prefix: Seq<char>) -> Option<Seq<char>> {
    match read_keyed(Some(t), prefix) {
        Some((Some(s), rest)) => if rest == "}"@ {
            Some(s)
        } else {
            None
        },
        _ => None,
    }
}

proof fn lemma_hex_round_trip(k: u32)
    requires
        k < 16,
    ensures
        hex_value(hex_digit(k)) == Some(k),
{
}

/// Escaping works character by character from the front too.
pub proof fn lemma_escaped_front(s: Seq<char>)
    requires
        s.len() > 0,
    ensures
        escaped_text(s) == escaped_char(s[0]) + escaped_text(s.drop_first()),
    decreases s.len(),
{
    if s.len() == 1 {
        assert(s.drop_last() =~= Seq::<char>::empty());
        assert(s.drop_first() =~= Seq::<char>::empty());
        assert(escaped_text(Seq::<char>::empty()) == Seq::<char>::empty());
        assert(escaped_text(s) =~= escaped_char(s[0]));
    } else {
        let init = s.drop_last();
        lemma_escaped_front(init);
        assert(init.drop_first() =~= s.drop_first().drop_last());
        assert(s.drop_first().last() == s.last());
        assert(escaped_text(s) =~= escaped_char(s[0]) + escaped_text(s.drop_first()));
    }
}

/// Reading an escaped character gives the character back.
pub proof fn lemma_read_escaped_char(c: char, rest: Seq<char>)
    ensures
        read_string_body(escaped_char(c) + rest) == prepend(c, read_string_body(rest)),
{
    let t = escaped_char(c) + rest;
    let n = c as u32;
    if c == '"' || c == '\\' || n == 8 || n == 9 || n == 10 || n == 12 || n == 13 {
        assert(t[0] == '\\');
        assert(t.skip(2) =~= rest);
        assert(simple_escape(t[1]) == Some(c));
    } else if n < 32 {
        let hi = n / 16;
        let lo = n % 16;
        lemma_hex_round_trip(hi);
        lemma_hex_round_trip(lo);
        assert(t[0] == '\\');
        assert(t[1] == 'u');
        assert(simple_escape(t[1]) is None);
        let d = t.skip(2);
        assert(d[0] == '0' && d[1] == '0' && d[2] == hex_digit(hi) && d[3] == hex_digit(lo));
        assert(hex_value('0') == Some(0u32));
        assert(unicode_escape(d) == Some(n));
        assert(t.skip(6) =~= rest);
        assert((n as char) == c);
    } else {
        assert(t[0] == c);
        assert(t.drop_first() =~= rest);
    }
}

/// Reading an escaped text up to its closing quote gives the text back, and
/// what follows the quote.
pub proof fn lemma_read_escaped_text(s: Seq<char>, rest: Seq<char>)
    ensures
        read_string_body(escaped_text(s) + seq!['"'] + rest) == Some((s, rest)),
    decreases s.len(),
{
    if s.len() == 0 {
        let t = escaped_text(s) + seq!['"'] + rest;
        assert(t =~= seq!['"'] + rest);
        assert(t.drop_first() =~= rest);
    } else {
        lemma_escaped_front(s);
        lemma_read_escaped_text(s.drop_first(), rest);
        let inner = escaped_text(s.drop_first()) + seq!['"'] + rest;
        assert(escaped_text(s) + seq!['"'] + rest =~= escaped_char(s[0]) + inner);
        lemma_read_escaped_char(s[0], inner);
        assert(seq![s[0]] + s.drop_first() =~= s);
    }
}

/// Reading the JSON text of a field gives the field back.
pub proof fn lemma_read_field(f: Option<Seq<char>>, rest: Seq<char>)
    ensures
        read_value(json_field(f) + rest) == Some((f, rest)),
{
    reveal_strlit("null");
    match f {
        Some(s) => {
            let t = json_field(f) + rest;
            assert(t =~= seq!['"'] + (escaped_text(s) + seq!['"'] + rest));
            assert(t.drop_first() =~= escaped_text(s) + seq!['"'] + rest);
            lemma_read_escaped_text(s, rest);
        },
        None => {
            let t = json_field(f) + rest;
            assert(t[0] == 'n');
            assert(t.take(4) =~= "null"@);
            assert(t.skip(4) =~= rest);
        },
    }
}

/// Reading a key and a field's JSON text after it gives the field back.
pub proof fn lemma_read_keyed(key: Seq<char>, f: Option<Seq<char>>, rest: Seq<char>)
    ensures
        read_keyed(Some(key + (json_field(f) + rest)), key) == Some((f, rest)),
{
    reveal(read_keyed);
    let t = key + (json_field(f) + rest);
    assert(t.take(key.len() as int) =~= key);
    assert(t.skip(key.len() as int) =~= json_field(f) + rest);
    lemma_read_field(f, rest);
}

proof fn lemma_reassociate(
    k1: Seq<char>, a: Seq<char>, k2: Seq<char>, b: Seq<char>, k3: Seq<char>, c: Seq<char>,
    k4: Seq<char>, d: Seq<char>, k5: Seq<char>, e: Seq<char>, z: Seq<char>,
)
    ensures
        k1 + a + k2 + b + k3 + c + k4 + d + k5 + e + z == k1 + (a + (k2 + (b + (k3 + (c + (k4 + (d
            + (k5 + (e + z))))))))),
{
    assert(k1 + a + k2 + b + k3 + c + k4 + d + k5 + e + z =~= k1 + (a + (k2 + (b + (k3 + (c + (k4
        + (d + (k5 + (e + z))))))))));
}

/// The reader recovers every packet from its wire form.
pub proof fn lemma_decode_wire(m: MessageView)
    ensures
        decode_wire(wire_text(m)) == Some(m),
{
    let k1 = "{\"type\":"@;
    let k2 = ",\"id\":"@;
    let k3 = ",\"to\":"@;
    let k4 = ",\"from\":"@;
    let k5 = ",\"payload\":"@;
    let z = "}"@;
    let a = json_field(m.msg_type);
    let b = json_field(m.id);
    let c = json_field(m.to);
    let d = json_field(m.from);
    let e = json_field(m.payload);
    let r4 = k5 + (e + z);
    let r3 = k4 + (d + r4);
    let r2 = k3 + (c + r3);
    let r1 = k2 + (b + r2);
    assert(wire_text(m) == k1 + (a + r1)) by {
        lemma_reassociate(k1, a, k2, b, k3, c, k4, d, k5, e, z);
    }
    let t = wire_text(m);
    lemma_read_keyed(k1, m.msg_type, r1);
    lemma_read_keyed(k2, m.id, r2);
    lemma_read_keyed(k3, m.to, r3);
    lemma_read_keyed(k4, m.from, r4);
    lemma_read_keyed(k5, m.payload, z);
    let ty = read_keyed(Some(t), k1);
    assert(ty == Some((m.msg_type, r1)));
    let id = read_keyed(rest_of(ty), k2);
    assert(id == Some((m.id, r2)));
    let to = read_keyed(rest_of(id), k3);
    assert(to == Some((m.to, r3)));
    let from = read_keyed(rest_of(to), k4);
    assert(from == Some((m.from, r4)));
    let payload = read_keyed(rest_of(from), k5);
    assert(payload == Some((m.payload, z)));
}

/// The reader recovers the string of a one-key object `prefix` + literal + `}`.
pub proof fn lemma_read_single_field(prefix: Seq<char>, s: Seq<char>)
    ensures
        read_single_field(prefix + json_string_literal(s) + "}"@, prefix) == Some(s),
{
    assert(prefix + json_string_literal(s) + "}"@ =~= prefix + (json_field(Some(s)) + "}"@));
    lemma_read_keyed(prefix, Some(s), "}"@);
    reveal(read_keyed);
}

} // verus!
