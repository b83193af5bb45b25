//! Building the JSON texts the library sends and persists: string escaping
//! and the fixed object layouts of the provider protocol and the local records.

use vstd::prelude::*;
use vstd::string::StrSliceExecFns;
use vstd::string::StringExecFns;

use crate::decimal::digit_char;
use crate::decimal::i64_text;
use crate::decimal::int_text;

verus! {

/// The character for one hexadecimal digit value, lower case.
pub open spec fn hex_char(d: int) -> char {
    if d < 10 {
        digit_char(d)
    } else if d == 10 {
        'a'
    } else if d == 11 {
        'b'
    } else if d == 12 {
        'c'
    } else if d == 13 {
        'd'
    } else if d == 14 {
        'e'
    } else {
        'f'
    }
}

/// How one character appears inside a JSON string literal: quotes and
/// backslashes are escaped, control characters get their short escape or a
/// `\u00..` form, and everything else stands as itself.
pub open spec fn escape_char(c: char) -> Seq<char> {
    if c == '"' {
        seq!['\\', '"']
    } else if c == '\\' {
        seq!['\\', '\\']
    } else if c as u32 == 8 {
        seq!['\\', 'b']
    } else if c as u32 == 9 {
        seq!['\\', 't']
    } else if c as u32 == 10 {
        seq!['\\', 'n']
    } else if c as u32 == 12 {
        seq!['\\', 'f']
    } else if c as u32 == 13 {
        seq!['\\', 'r']
    } else if (c as u32) < 32 {
        seq!['\\', 'u', '0', '0', hex_char(c as u32 as int / 16), hex_char(c as u32 as int % 16)]
    } else {
        seq![c]
    }
}

/// A whole character sequence escaped for use inside a JSON string literal.
pub open spec fn json_escaped(s: Seq<char>) -> Seq<char>
    decreases s.len(),
{
    if s.len() == 0 {
        Seq::empty()
    } else {
        json_escaped(s.drop_last()) + escape_char(s.last())
    }
}

/// Relies on String::push: appends the given character to the end of the string.
#[verifier::external_body]
fn push_char(s: &mut String, c: char)
    ensures
        final(s)@ == old(s)@ + seq![c],
{
    s.push(c);
}

fn hex_str(d: u32) -> (r: &'static str)
    requires
        d < 16,
    ensures
        r@ == seq![hex_char(d as int)],
{
    let r: &'static str = if d == 0 {
        "0"
    } else if d == 1 {
        "1"
    } else if d == 2 {
        "2"
    } else if d == 3 {
        "3"
    } else if d == 4 {
        "4"
    } else if d == 5 {
        "5"
    } else if d == 6 {
        "6"
    } else if d == 7 {
        "7"
    } else if d == 8 {
        "8"
    } else if d == 9 {
        "9"
    } else if d == 10 {
        "a"
    } else if d == 11 {
        "b"
    } else if d == 12 {
        "c"
    } else if d == 13 {
        "d"
    } else if d == 14 {
        "e"
    } else {
        "f"
    };
    proof {
        reveal_strlit("0");
        reveal_strlit("1");
        reveal_strlit("2");
        reveal_strlit("3");
        reveal_strlit("4");
        reveal_strlit("5");
        reveal_strlit("6");
        reveal_strlit("7");
        reveal_strlit("8");
        reveal_strlit("9");
        reveal_strlit("a");
        reveal_strlit("b");
        reveal_strlit("c");
        reveal_strlit("d");
        reveal_strlit("e");
        reveal_strlit("f");
        assert(r@ =~= seq![hex_char(d as int)]);
    }
    r
}

fn append_escaped_char(out: &mut String, c: char)
    ensures
        final(out)@ == old(out)@ + escape_char(c),
{
    let u = c as u32;
    if c == '"' {
        out.append("\\\"");
        proof {
            reveal_strlit("\\\"");
            assert(final(out)@ =~= old(out)@ + escape_char(c));
        }
    } else if c == '\\' {
        out.append("\\\\");
        proof {
            reveal_strlit("\\\\");
            assert(final(out)@ =~= old(out)@ + escape_char(c));
        }
    } else if u == 8 {
        out.append("\\b");
        proof {
            reveal_strlit("\\b");
            assert(final(out)@ =~= old(out)@ + escape_char(c));
        }
    } else if u == 9 {
        out.append("\\t");
        proof {
            reveal_strlit("\\t");
            assert(final(out)@ =~= old(out)@ + escape_char(c));
        }
    } else if u == 10 {
        out.append("\\n");
        proof {
            reveal_strlit("\\n");
            assert(final(out)@ =~= old(out)@ + escape_char(c));
        }
    } else if u == 12 {
        out.append("\\f");
        proof {
            reveal_strlit("\\f");
            assert(final(out)@ =~= old(out)@ + escape_char(c));
        }
    } else if u == 13 {
        out.append("\\r");
        proof {
            reveal_strlit("\\r");
            assert(final(out)@ =~= old(out)@ + escape_char(c));
        }
    } else if u < 32 {
        out.append("\\u00");
        out.append(hex_str(u / 16));
        out.append(hex_str(u % 16));
        proof {
            reveal_strlit("\\u00");
            assert(final(out)@ =~= old(out)@ + escape_char(c));
        }
    } else {
        push_char(out, c);
        proof {
            assert(final(out)@ =~= old(out)@ + escape_char(c));
        }
    }
}

/// Appends the JSON-escaped form of `s` to `out`.
pub fn append_json_escaped(out: &mut String, s: &str)
    ensures
        final(out)@ == old(out)@ + json_escaped(s@),
{
    let n = s.unicode_len();
    let mut i: usize = 0;
    while i < n
        invariant
            n == s@.len(),
            i <= n,
            out@ == old(out)@ + json_escaped(s@.take(i as int)),
        decreases n - i,
    {
        let c = s.get_char(i);
        proof {
            assert(s@.take(i + 1 as int).drop_last() =~= s@.take(i as int));
            assert(s@.take(i + 1 as int).last() == s@[i as int]);
        }
        append_escaped_char(out, c);
        i += 1;
    }
    proof {
        assert(s@.take(n as int) =~= s@);
    }
}

/// The compact metadata object sent with an upload: the file's name and its
/// parent folder.
pub open spec fn upload_metadata_text(name: Seq<char>, folder_id: Seq<char>) -> Seq<char> {
    "{\"name\":\""@ + json_escaped(name) + "\",\"parents\":[\""@ + json_escaped(folder_id)
        + "\"]}"@
}

/// Builds the upload metadata object.
pub fn upload_metadata_json(name: &str, folder_id: &str) -> (r: String)
    ensures
        r@ == upload_metadata_text(name@, folder_id@),
{
    let mut s = String::from_str("{\"name\":\"");
    append_json_escaped(&mut s, name);
    s.append("\",\"parents\":[\"");
    append_json_escaped(&mut s, folder_id);
    s.append("\"]}");
    proof {
        assert(s@ =~= upload_metadata_text(name@, folder_id@));
    }
    s
}

/// The metadata object that creates the application folder.
pub open spec fn folder_metadata_text() -> Seq<char> {
    "{\"mimeType\":\"application/vnd.google-apps.folder\",\"name\":\"CloudTray\"}"@
}

/// Builds the folder-creation metadata object.
pub fn folder_metadata_json() -> (r: String)
    ensures
        r@ == folder_metadata_text(),
{
    String::from_str("{\"mimeType\":\"application/vnd.google-apps.folder\",\"name\":\"CloudTray\"}")
}

/// The body of the public-read permission grant.
pub open spec fn permission_text() -> Seq<char> {
    "{\"role\":\"reader\",\"type\":\"anyone\"}"@
}

/// Builds the public-read permission grant body.
pub fn permission_json() -> (r: String)
    ensures
        r@ == permission_text(),
{
    String::from_str("{\"role\":\"reader\",\"type\":\"anyone\"}")
}

/// The persisted form of the configuration record.
pub open spec fn config_record_text(retention_hours: int) -> Seq<char> {
    "{\n  \"retention_hours\": "@ + int_text(retention_hours) + "\n}"@
}

/// Renders the configuration record.
pub fn config_record_json(retention_hours: i64) -> (r: String)
    ensures
        r@ == config_record_text(retention_hours as int),
{
    let mut s = String::from_str("{\n  \"retention_hours\": ");
    let num = i64_text(retention_hours);
    s.append(num.as_str());
    s.append("\n}");
    proof {
        assert(s@ =~= config_record_text(retention_hours as int));
    }
    s
}

/// The persisted form of the credential record.
pub open spec fn tokens_record_text(
    access_token: Seq<char>,
    refresh_token: Seq<char>,
    expires_in: int,
    token_type: Seq<char>,
) -> Seq<char> {
    "{\n  \"access_token\": \""@ + json_escaped(access_token) + "\",\n  \"refresh_token\": \""@
        + json_escaped(refresh_token) + "\",\n  \"expires_in\": "@ + int_text(expires_in)
        + ",\n  \"token_type\": \""@ + json_escaped(token_type) + "\"\n}"@
}

/// Renders the credential record.
pub fn tokens_record_json(
    access_token: &str,
    refresh_token: &str,
    expires_in: i32,
    token_type: &str,
) -> (r: String)
    ensures
        r@ == tokens_record_text(access_token@, refresh_token@, expires_in as int, token_type@),
{
    let mut s = String::from_str("{\n  \"access_token\": \"");
    append_json_escaped(&mut s, access_token);
    s.append("\",\n  \"refresh_token\": \"");
    append_json_escaped(&mut s, refresh_token);
    s.append("\",\n  \"expires_in\": ");
    let num = i64_text(expires_in as i64);
    s.append(num.as_str());
    s.append(",\n  \"token_type\": \"");
    append_json_escaped(&mut s, token_type);
    s.append("\"\n}");
    proof {
        assert(s@ =~= tokens_record_text(
            access_token@,
            refresh_token@,
            expires_in as int,
            token_type@,
        ));
    }
    s
}

} // verus!
