//! Response encoding.
//!
//! One integration run yields an ordered trajectory of samples; each sample
//! arrives here as the decimal string form of its time and of its four
//! compartment populations. [`encode_trajectory`] turns the whole trajectory
//! into the response payload: a single mapping object whose keys are the
//! sample times, in trajectory order, and whose values are the four-element
//! arrays `[S, E, I, R]`.
//!
//! [`error_envelope`] builds the structured error response
//! `{"error": "<kind>", "message": "<detail>"}`, with both pieces escaped so
//! that the envelope is well-formed whatever the detail text holds.

use vstd::prelude::*;

verus! {

/// The character for one hexadecimal digit value.
pub open spec fn hex_digit(v: int) -> char {
    if v == 0 {
        '0'
    } else if v == 1 {
        '1'
    } else if v == 2 {
        '2'
    } else if v == 3 {
        '3'
    } else if v == 4 {
        '4'
    } else if v == 5 {
        '5'
    } else if v == 6 {
        '6'
    } else if v == 7 {
        '7'
    } else if v == 8 {
        '8'
    } else if v == 9 {
        '9'
    } else if v == 10 {
        'a'
    } else if v == 11 {
        'b'
    } else if v == 12 {
        'c'
    } else if v == 13 {
        'd'
    } else if v == 14 {
        'e'
    } else {
        'f'
    }
}

/// How one character appears inside a JSON string literal: quotes and
/// backslashes get a backslash escape, control characters the `\u00XY`
/// form, and every other character stands for itself.
pub open spec fn escaped_char(c: char) -> Seq<char> {
    if c == '"' {
        seq!['\\', '"']
    } else if c == '\\' {
        seq!['\\', '\\']
    } else if (c as u32) < 32 {
        seq!['\\', 'u', '0', '0', hex_digit(c as u32 as int / 16), hex_digit(c as u32 as int % 16)]
    } else {
        seq![c]
    }
}

/// The body of a JSON string literal holding exactly the text `s`.
pub open spec fn escaped(s: Seq<char>) -> Seq<char>
    decreases s.len(),
{
    if s.len() == 0 {
        Seq::empty()
    } else {
        escaped(s.drop_last()) + escaped_char(s.last())
    }
}

/// One hexadecimal digit as a one-character string slice.
fn hex_digit_str(v: u8) -> (r: &'static str)
    requires
        v < 16,
    ensures
        r@ == seq![hex_digit(v as int)],
{
    let r: &'static str = match v {
        0 => "0",
        1 => "1",
        2 => "2",
        3 => "3",
        4 => "4",
        5 => "5",
        6 => "6",
        7 => "7",
        8 => "8",
        9 => "9",
        10 => "a",
        11 => "b",
        12 => "c",
        13 => "d",
        14 => "e",
        _ => "f",
    };
    proof {
        reveal_strlit("0");
        reveal_strlit("1");
        reveal_strlit("2");
        reveal_strlit("3");
        reveal_strlit("4");
        reveal_strlit("5");
        reveal_strlit("6");
        reveal_strlit("7");
        reveal_strlit("8");
        reveal_strlit("9");
        reveal_strlit("a");
        reveal_strlit("b");
        reveal_strlit("c");
        reveal_strlit("d");
        reveal_strlit("e");
        reveal_strlit("f");
        assert(r@ =~= seq![hex_digit(v as int)]);
    }
    r
}

/// Escape arbitrary text for use as the body of a JSON string literal.
pub fn json_escape(s: &str) -> (r: String)
    ensures
        r@ == escaped(s@),
{
    let len: usize = s.unicode_len();
    let mut out = String::new();
    let mut i: usize = 0;
    while i < len
        invariant
            len == s@.len(),
            i <= len,
            out@ == escaped(s@.subrange(0, i as int)),
        decreases len - i,
    {
        let c = s.get_char(i);
        if c == '"' {
            out.append("\\\"");
            proof {
                reveal_strlit("\\\"");
                assert("\\\""@ =~= escaped_char(c));
            }
        } else if c == '\\' {
            out.append("\\\\");
            proof {
                reveal_strlit("\\\\");
                assert("\\\\"@ =~= escaped_char(c));
            }
        } else if (c as u32) < 32 {
            let v: u32 = c as u32;
            out.append("\\u00");
            out.append(hex_digit_str((v / 16) as u8));
            out.append(hex_digit_str((v % 16) as u8));
            proof {
                reveal_strlit("\\u00");
                assert("\\u00"@ + seq![hex_digit(v as int / 16)] + seq![hex_digit(v as int % 16)]
                    =~= escaped_char(c));
            }
        } else {
            out.append(s.substring_char(i, i + 1));
            proof {
                assert(s@.subrange(i as int, i + 1 as int) =~= seq![s@[i as int]]);
            }
        }
        proof {
            assert(s@.subrange(0, i + 1 as int).drop_last() =~= s@.subrange(0, i as int));
            assert(s@.subrange(0, i + 1 as int).last() == s@[i as int]);
            assert(out@ =~= escaped(s@.subrange(0, i + 1 as int)));
        }
        i = i + 1;
    }
    proof {
        assert(s@.subrange(0, len as int) =~= s@);
    }
    out
}

/// The structured error response for a failure kind and a detail message.
pub open spec fn spec_error_envelope(kind: Seq<char>, detail: Seq<char>) -> Seq<char> {
    "{\"error\": \""@ + escaped(kind) + "\", \"message\": \""@ + escaped(detail) + "\"}"@
}

/// Build the error response `{"error": "<kind>", "message": "<detail>"}`,
/// escaping both pieces.
pub fn error_envelope(kind: &str, detail: &str) -> (r: String)
    ensures
        r@ == spec_error_envelope(kind@, detail@),
{
    let mut out = String::from_str("{\"error\": \"");
    let escaped_kind = json_escape(kind);
    out.append(escaped_kind.as_str());
    out.append("\", \"message\": \"");
    let escaped_detail = json_escape(detail);
    out.append(escaped_detail.as_str());
    out.append("\"}");
    proof {
        assert(out@ =~= spec_error_envelope(kind@, detail@));
    }
    out
}

/// One accepted sample of a trajectory, every component already in its
/// decimal string form: the sample time and the four compartment
/// populations (susceptible, exposed, infectious, removed).
pub struct Sample {
    pub time: String,
    pub susceptible: String,
    pub exposed: String,
    pub infectious: String,
    pub removed: String,
}

/// The response text of one sample: `"<time>": [S, E, I, R]`.
pub open spec fn spec_sample_entry(s: Sample) -> Seq<char> {
    "\""@ + s.time@ + "\": ["@ + s.susceptible@ + ", "@ + s.exposed@ + ", "@ + s.infectious@
        + ", "@ + s.removed@ + "]"@
}

/// The comma-separated entries of a whole trajectory, in trajectory order.
pub open spec fn spec_entries(rows: Seq<Sample>) -> Seq<char>
    decreases rows.len(),
{
    if rows.len() == 0 {
        Seq::empty()
    } else if rows.len() == 1 {
        spec_sample_entry(rows[0])
    } else {
        spec_entries(rows.drop_last()) + ", "@ + spec_sample_entry(rows.last())
    }
}

/// The full response payload: a single mapping object holding every entry.
pub open spec fn spec_trajectory_text(rows: Seq<Sample>) -> Seq<char> {
    "{"@ + spec_entries(rows) + "}"@
}

/// Append the response text of one sample.
fn append_sample(out: &mut String, s: &Sample)
    ensures
        final(out)@ == old(out)@ + spec_sample_entry(*s),
{
    out.append("\"");
    out.append(s.time.as_str());
    out.append("\": [");
    out.append(s.susceptible.as_str());
    out.append(", ");
    out.append(s.exposed.as_str());
    out.append(", ");
    out.append(s.infectious.as_str());
    out.append(", ");
    out.append(s.removed.as_str());
    out.append("]");
    proof {
        assert(out@ =~= old(out)@ + spec_sample_entry(*s));
    }
}

/// Serialize a trajectory into the response payload: one mapping object
/// whose keys are the sample times, in trajectory order, each mapped to the
/// four-element array `[S, E, I, R]`. Handles trajectories of any length
/// without truncation.
pub fn encode_trajectory(rows: &Vec<Sample>) -> (r: String)
    ensures
        r@ == spec_trajectory_text(rows@),
{
    let mut out = String::from_str("{");
    let mut i: usize = 0;
    while i < rows.len()
        invariant
            i <= rows@.len(),
            out@ == "{"@ + spec_entries(rows@.subrange(0, i as int)),
        decreases rows@.len() - i,
    {
        if i > 0 {
            out.append(", ");
        }
        append_sample(&mut out, &rows[i]);
        proof {
            assert(rows@.subrange(0, i + 1 as int).drop_last() =~= rows@.subrange(0, i as int));
            assert(rows@.subrange(0, i + 1 as int).last() == rows@[i as int]);
            if i == 0 {
                assert(rows@.subrange(0, 1)[0] == rows@[0]);
            }
            assert(out@ =~= "{"@ + spec_entries(rows@.subrange(0, i + 1 as int)));
        }
        i = i + 1;
    }
    out.append("}");
    proof {
        assert(rows@.subrange(0, rows@.len() as int) =~= rows@);
        assert(out@ =~= spec_trajectory_text(rows@));
    }
    out
}

} // verus!
