//! Building the upstream query request: a JSON document that carries the
//! fixed profile/list query and the candidate username as its variable.
//! The username is escaped by the JSON string rules, so the request stays
//! a well-formed document whatever the candidate text holds.

use vstd::prelude::*;

verus! {

/// The lower-case hex digit for one nibble.
pub open spec fn hex_digit(n: u32) -> char
    recommends
        n < 16,
{
    if n == 0 {
        '0'
    } else if n == 1 {
        '1'
    } else if n == 2 {
        '2'
    } else if n == 3 {
        '3'
    } else if n == 4 {
        '4'
    } else if n == 5 {
        '5'
    } else if n == 6 {
        '6'
    } else if n == 7 {
        '7'
    } else if n == 8 {
        '8'
    } else if n == 9 {
        '9'
    } else if n == 10 {
        'a'
    } else if n == 11 {
        'b'
    } else if n == 12 {
        'c'
    } else if n == 13 {
        'd'
    } else if n == 14 {
        'e'
    } else {
        'f'
    }
}

/// The JSON text for one character inside a string value: quote and
/// backslash are escaped with a backslash, a control character as
/// `\u00XX`, and every other character stands as itself.
pub open spec fn json_escape_char(c: char) -> Seq<char> {
    if c == '"' {
        seq!['\\', '"']
    } else if c == '\\' {
        seq!['\\', '\\']
    } else if (c as u32) < 32 {
        seq!['\\', 'u', '0', '0', hex_digit((c as u32) / 16), hex_digit((c as u32) % 16)]
    } else {
        seq![c]
    }
}

/// The JSON text for a whole string value, character by character.
pub open spec fn json_escaped(s: Seq<char>) -> Seq<char>
    decreases s.len(),
{
    if s.len() == 0 {
        Seq::<char>::empty()
    } else {
        json_escaped(s.drop_last()) + json_escape_char(s.last())
    }
}

/// The request document up to the username value.
pub open spec fn body_prefix() -> Seq<char> {
    "{\"query\":\"query ($userName: String) { MediaListCollection(userName: $userName, type: ANIME) { lists { name entries { media { id title { romaji english } format status } score progress status } } } }\",\"variables\":{\"userName\":\""@
}

/// The request document after the username value.
pub open spec fn body_suffix() -> Seq<char> {
    "\"}}"@
}

/// The whole request document for a candidate username.
pub open spec fn request_body(username: Seq<char>) -> Seq<char> {
    body_prefix() + json_escaped(username) + body_suffix()
}

/// The lower-case hex digit for one nibble.
fn hex_digit_char(n: u32) -> (r: char)
    requires
        n < 16,
    ensures
        r == hex_digit(n),
{
    if n == 0 {
        '0'
    } else if n == 1 {
        '1'
    } else if n == 2 {
        '2'
    } else if n == 3 {
        '3'
    } else if n == 4 {
        '4'
    } else if n == 5 {
        '5'
    } else if n == 6 {
        '6'
    } else if n == 7 {
        '7'
    } else if n == 8 {
        '8'
    } else if n == 9 {
        '9'
    } else if n == 10 {
        'a'
    } else if n == 11 {
        'b'
    } else if n == 12 {
        'c'
    } else if n == 13 {
        'd'
    } else if n == 14 {
        'e'
    } else {
        'f'
    }
}

/// Escapes a text by the JSON string rules.
pub fn escape_json_chars(s: &str) -> (out: Vec<char>)
    ensures
        out@ == json_escaped(s@),
{
    let n = s.unicode_len();
    let mut out: Vec<char> = Vec::new();
    proof {
        assert(s@.take(0) =~= Seq::<char>::empty());
    }
    let mut i: usize = 0;
    while i < n
        invariant
            i <= n,
            n == s@.len(),
            out@ == json_escaped(s@.take(i as int)),
        decreases n - i,
    {
        let ghost pre = out@;
        let c = s.get_char(i);
        if c == '"' {
            out.push('\\');
            out.push('"');
        } else if c == '\\' {
            out.push('\\');
            out.push('\\');
        } else if (c as u32) < 32 {
            out.push('\\');
            out.push('u');
            out.push('0');
            out.push('0');
            out.push(hex_digit_char((c as u32) / 16));
            out.push(hex_digit_char((c as u32) % 16));
        } else {
            out.push(c);
        }
        proof {
            assert(out@ =~= pre + json_escape_char(s@[i as int]));
            assert(s@.take(i as int + 1).drop_last() =~= s@.take(i as int));
            assert(s@.take(i as int + 1).last() == s@[i as int]);
        }
        i = i + 1;
    }
    proof {
        assert(s@.take(n as int) =~= s@);
    }
    out
}

/// Relies on the FromIterator impl of String over char, through
/// Iterator::collect: the collected string holds exactly the characters
/// of the vector, in order.
#[verifier::external_body]
fn chars_to_string(v: &Vec<char>) -> (r: String)
    ensures
        r@ == v@,
{
    v.iter().collect()
}

/// Builds the single read-only query the verifier sends upstream for a
/// candidate username.
pub fn build_media_list_request(username: &str) -> (r: String)
    ensures
        r@ == request_body(username@),
{
    let mut out = String::from_str(
        "{\"query\":\"query ($userName: String) { MediaListCollection(userName: $userName, type: ANIME) { lists { name entries { media { id title { romaji english } format status } score progress status } } } }\",\"variables\":{\"userName\":\"",
    );
    let escaped = escape_json_chars(username);
    let escaped_text = chars_to_string(&escaped);
    out.append(escaped_text.as_str());
    out.append("\"}}");
    out
}

} // verus!
