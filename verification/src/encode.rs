use vstd::prelude::*;

use crate::model::FileUpdate;
use crate::Error;

verus! {

/// The lowercase hexadecimal digit characters, in order of value.
pub open spec fn hex_char(d: int) -> char {
    if d == 0 {
        '0'
    } else if d == 1 {
        '1'
    } else if d == 2 {
        '2'
    } else if d == 3 {
        '3'
    } else if d == 4 {
        '4'
    } else if d == 5 {
        '5'
    } else if d == 6 {
        '6'
    } else if d == 7 {
        '7'
    } else if d == 8 {
        '8'
    } else if d == 9 {
        '9'
    } else if d == 10 {
        'a'
    } else if d == 11 {
        'b'
    } else if d == 12 {
        'c'
    } else if d == 13 {
        'd'
    } else if d == 14 {
        'e'
    } else {
        'f'
    }
}

/// How one character stands inside a JSON string literal: quotes and
/// backslashes carry an escape, control characters are escaped by name or by
/// code point, and everything else stands as it is.
pub open spec fn json_escape_char(c: char) -> Seq<char> {
    if c == '"' {
        "\\\""@
    } else if c == '\\' {
        "\\\\"@
    } else if c == '\n' {
        "\\n"@
    } else if c == '\r' {
        "\\r"@
    } else if c == '\t' {
        "\\t"@
    } else if (c as int) < 32 {
        "\\u00"@ + seq![hex_char(c as int / 16), hex_char(c as int % 16)]
    } else {
        seq![c]
    }
}

/// The text of a string inside a JSON string literal.
pub open spec fn json_escaped(s: Seq<char>) -> Seq<char>
    decreases s.len(),
{
    if s.len() == 0 {
        Seq::empty()
    } else {
        json_escape_char(s[0]) + json_escaped(s.drop_first())
    }
}

proof fn lemma_json_escaped_push(s: Seq<char>, c: char)
    ensures
        json_escaped(s.push(c)) == json_escaped(s) + json_escape_char(c),
    decreases s.len(),
{
    if s.len() == 0 {
        assert(s.push(c)[0] == c);
        assert(s.push(c).len() == 1);
        assert(s.push(c).drop_first() =~= s);
        assert(json_escaped(s) =~= Seq::<char>::empty());
        assert(json_escaped(s.push(c)) =~= json_escape_char(c) + json_escaped(s));
        assert(json_escaped(s.push(c)) =~= json_escaped(s) + json_escape_char(c));
    } else {
        lemma_json_escaped_push(s.drop_first(), c);
        assert(s.push(c)[0] == s[0]);
        assert(s.push(c).drop_first() =~= s.drop_first().push(c));
        assert(json_escaped(s.push(c)) =~= json_escape_char(s[0]) + (json_escaped(s.drop_first())
            + json_escape_char(c)));
        assert(json_escaped(s.push(c)) =~= json_escaped(s) + json_escape_char(c));
    }
}

/// Escape a string for a JSON string literal.
#[verifier::loop_isolation(false)]
pub fn escape_json_string(s: &str) -> (r: String)
    ensures
        r@ == json_escaped(s@),
{
    let hex_digits = "0123456789abcdef";
    proof {
        reveal_strlit("0123456789abcdef");
        assert(hex_digits.is_ascii());
    }
    let len = s.unicode_len();
    let mut out = String::new();
    let mut i: usize = 0;
    while i < len
        invariant
            out@ =~= json_escaped(s@.subrange(0, i as int)),
            i <= len,
        decreases len - i,
    {
        let c = s.get_char(i);
        proof {
            assert(s@.subrange(0, i + 1 as int) =~= s@.subrange(0, i as int).push(c));
            lemma_json_escaped_push(s@.subrange(0, i as int), c);
        }
        if c == '"' {
            out.append("\\\"");
            proof {
                reveal_strlit("\\\"");
                assert(json_escape_char(c) =~= "\\\""@);
            }
        } else if c == '\\' {
            out.append("\\\\");
        } else if c == '\n' {
            out.append("\\n");
        } else if c == '\r' {
            out.append("\\r");
        } else if c == '\t' {
            out.append("\\t");
        } else if (c as u32) < 32 {
            out.append("\\u00");
            let code = c as u32;
            let high = (code / 16) as usize;
            let low = (code % 16) as usize;
            let high_digit = hex_digits.substring_ascii(high, high + 1);
            assert(high_digit@ =~= seq![hex_char(code as int / 16)]);
            out.append(high_digit);
            let low_digit = hex_digits.substring_ascii(low, low + 1);
            assert(low_digit@ =~= seq![hex_char(code as int % 16)]);
            out.append(low_digit);
            assert(json_escape_char(c) =~= "\\u00"@ + seq![
                hex_char(c as int / 16),
                hex_char(c as int % 16),
            ]);
        } else {
            let verbatim = s.substring_char(i, i + 1);
            assert(verbatim@ =~= seq![c]);
            out.append(verbatim);
            assert(json_escape_char(c) =~= seq![c]);
        }
        i += 1;
    }
    assert(s@.subrange(0, len as int) =~= s@);
    out
}

/// One entry of the bulk file update request, as it is sent.
pub open spec fn file_update_json_spec(file: FileUpdate) -> Seq<char> {
    "{\"id\":\""@ + json_escaped(file.id@) + "\",\"description\":\""@ + json_escaped(
        file.description@,
    ) + "\"}"@
}

/// The entries of the bulk file update request, joined by commas.
pub open spec fn bulk_entries_spec(files: Seq<FileUpdate>) -> Seq<char>
    decreases files.len(),
{
    if files.len() == 0 {
        Seq::empty()
    } else if files.len() == 1 {
        file_update_json_spec(files[0])
    } else {
        bulk_entries_spec(files.drop_last()) + ","@ + file_update_json_spec(files.last())
    }
}

/// The whole body of a bulk file update request: every entry under the `data`
/// envelope key.
pub open spec fn bulk_update_body_spec(files: Seq<FileUpdate>) -> Seq<char> {
    "{\"data\":["@ + bulk_entries_spec(files) + "]}"@
}

/// Render one entry of the bulk file update request.
fn file_update_json(file: &FileUpdate) -> (r: String)
    ensures
        r@ == file_update_json_spec(*file),
{
    let mut out = String::new();
    out.append("{\"id\":\"");
    let id = escape_json_string(file.id.as_str());
    out.append(id.as_str());
    out.append("\",\"description\":\"");
    let description = escape_json_string(file.description.as_str());
    out.append(description.as_str());
    out.append("\"}");
    out
}

/// Validate a bulk file update and render its request body: every entry must
/// carry a description, and the first without one is rejected before
/// anything is sent.
#[verifier::loop_isolation(false)]
pub fn bulk_update_request_body(files: &Vec<FileUpdate>) -> (r: Result<String, Error>)
    ensures
        r matches Ok(body) <==> crate::client::all_descriptions_present(files@),
        r matches Ok(body) ==> body@ == bulk_update_body_spec(files@),
        r is Err ==> r == Err::<String, Error>(Error::MissingDescription),
{
    crate::client::validate_file_updates(files)?;
    let mut out = String::new();
    out.append("{\"data\":[");
    let count = files.len();
    let mut i: usize = 0;
    while i < count
        invariant
            out@ =~= "{\"data\":["@ + bulk_entries_spec(files@.subrange(0, i as int)),
            i <= count,
        decreases count - i,
    {
        if i > 0 {
            out.append(",");
        }
        let entry = file_update_json(&files[i]);
        out.append(entry.as_str());
        proof {
            assert(files@.subrange(0, i + 1 as int).drop_last() =~= files@.subrange(0, i as int));
            assert(files@.subrange(0, i + 1 as int).last() == files@[i as int]);
            if i == 0 {
                assert(bulk_entries_spec(files@.subrange(0, 1)) =~= file_update_json_spec(
                    files@[0],
                ));
            }
            assert(out@ =~= "{\"data\":["@ + bulk_entries_spec(files@.subrange(0, i + 1 as int)));
        }
        i += 1;
    }
    out.append("]}");
    proof {
        assert(files@.subrange(0, count as int) =~= files@);
    }
    Ok(out)
}

} // verus!
