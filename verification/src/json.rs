//! A model of JSON values and a verified compact encoder.
//!
//! The worker core builds JSON response bodies and serializes the flushed
//! log batch; both go through this encoder. The encoding is the compact
//! form: no whitespace, `"` and `\` escaped, control characters written as
//! `\u00XX`, all other characters passed through unchanged.

use crate::text::{dec_str, u64_to_string};
use vstd::prelude::*;
use vstd::string::StrSliceExecFns;
use vstd::string::StringExecFns;

verus! {

/// A JSON value: the library's own model of the data a response body or a
/// log batch can carry.
#[derive(Debug)]
pub enum Json {
    Null,
    Bool(bool),
    Num(u64),
    Str(String),
    Arr(Vec<Json>),
    Obj(Vec<(String, Json)>),
}

/// The hexadecimal digit character for a value in `0 ..= 15`.
pub open spec fn hex_char(d: int) -> char {
    if d < 10 {
        crate::text::digit_char(d)
    } else if d == 10 {
        'a'
    } else if d == 11 {
        'b'
    } else if d == 12 {
        'c'
    } else if d == 13 {
        'd'
    } else if d == 14 {
        'e'
    } else {
        'f'
    }
}

/// How one character appears inside a JSON string literal.
pub open spec fn esc_char(c: char) -> Seq<char> {
    if c == '"' {
        seq!['\\', '"']
    } else if c == '\\' {
        seq!['\\', '\\']
    } else if (c as u32) < 32 {
        seq!['\\', 'u', '0', '0', hex_char((c as u32) as int / 16), hex_char((c as u32) as int % 16)]
    } else {
        seq![c]
    }
}

/// The escaped form of a string's characters (without the surrounding quotes).
pub open spec fn escape(s: Seq<char>) -> Seq<char>
    decreases s.len(),
{
    if s.len() == 0 {
        Seq::empty()
    } else {
        escape(s.drop_last()) + esc_char(s.last())
    }
}

/// The compact JSON encoding of a value.
pub open spec fn encode_spec(v: Json) -> Seq<char>
    decreases v,
{
    match v {
        Json::Null => "null"@,
        Json::Bool(b) => if b {
            "true"@
        } else {
            "false"@
        },
        Json::Num(n) => dec_str(n as int),
        Json::Str(s) => seq!['"'] + escape(s@) + seq!['"'],
        Json::Arr(elems) => seq!['['] + encode_elems_spec(elems@) + seq![']'],
        Json::Obj(fields) => seq!['{'] + encode_fields_spec(fields@) + seq!['}'],
    }
}

/// The comma-separated encoding of an array's elements.
pub open spec fn encode_elems_spec(elems: Seq<Json>) -> Seq<char>
    decreases elems,
{
    if elems.len() == 0 {
        Seq::empty()
    } else if elems.len() == 1 {
        encode_spec(elems.last())
    } else {
        encode_elems_spec(elems.drop_last()) + seq![','] + encode_spec(elems.last())
    }
}

/// The encoding of one object member: quoted escaped key, colon, value.
pub open spec fn encode_field_spec(f: (String, Json)) -> Seq<char>
    decreases f,
{
    seq!['"'] + escape(f.0@) + seq!['"', ':'] + encode_spec(f.1)
}

/// The comma-separated encoding of an object's members.
pub open spec fn encode_fields_spec(fields: Seq<(String, Json)>) -> Seq<char>
    decreases fields,
{
    if fields.len() == 0 {
        Seq::empty()
    } else if fields.len() == 1 {
        encode_field_spec(fields.last())
    } else {
        encode_fields_spec(fields.drop_last()) + seq![','] + encode_field_spec(fields.last())
    }
}

/// A one-character string slice for a hexadecimal digit.
fn hex_str(d: u32) -> (r: &'static str)
    requires
        d < 16,
    ensures
        r@ == seq![hex_char(d as int)],
{
    let r: &'static str = if d == 0 {
        "0"
    } else if d == 1 {
        "1"
    } else if d == 2 {
        "2"
    } else if d == 3 {
        "3"
    } else if d == 4 {
        "4"
    } else if d == 5 {
        "5"
    } else if d == 6 {
        "6"
    } else if d == 7 {
        "7"
    } else if d == 8 {
        "8"
    } else if d == 9 {
        "9"
    } else if d == 10 {
        "a"
    } else if d == 11 {
        "b"
    } else if d == 12 {
        "c"
    } else if d == 13 {
        "d"
    } else if d == 14 {
        "e"
    } else {
        "f"
    };
    proof {
        reveal_strlit("0");
        reveal_strlit("1");
        reveal_strlit("2");
        reveal_strlit("3");
        reveal_strlit("4");
        reveal_strlit("5");
        reveal_strlit("6");
        reveal_strlit("7");
        reveal_strlit("8");
        reveal_strlit("9");
        reveal_strlit("a");
        reveal_strlit("b");
        reveal_strlit("c");
        reveal_strlit("d");
        reveal_strlit("e");
        reveal_strlit("f");
        assert(r@ =~= seq![hex_char(d as int)]);
    }
    r
}

/// Appends the escaped form of `s` to `out`.
#[verifier::loop_isolation(false)]
pub(crate) fn append_escaped(out: &mut String, s: &str)
    ensures
        final(out)@ == old(out)@ + escape(s@),
{
    let len = s.unicode_len();
    let mut i: usize = 0;
    while i < len
        invariant
            len == s@.len(),
            i <= len,
            out@ == old(out)@ + escape(s@.subrange(0, i as int)),
        decreases len - i,
    {
        let c = s.get_char(i);
        if c == '"' {
            out.append("\\\"");
            proof {
                reveal_strlit("\\\"");
            }
        } else if c == '\\' {
            out.append("\\\\");
            proof {
                reveal_strlit("\\\\");
            }
        } else if (c as u32) < 32 {
            out.append("\\u00");
            out.append(hex_str((c as u32) / 16));
            out.append(hex_str((c as u32) % 16));
            proof {
                reveal_strlit("\\u00");
            }
        } else {
            out.append(s.substring_char(i, i + 1));
        }
        proof {
            assert(s@.subrange(0, i + 1 as int).drop_last() =~= s@.subrange(0, i as int));
            assert(s@.subrange(0, i + 1 as int).last() == s@[i as int]);
            assert(out@ =~= old(out)@ + escape(s@.subrange(0, i + 1 as int)));
        }
        i = i + 1;
    }
    proof {
        assert(s@.subrange(0, len as int) =~= s@);
    }
}

/// Encodes a JSON value in its compact form.
#[verifier::loop_isolation(false)]
pub fn encode(v: &Json) -> (r: String)
    ensures
        r@ == encode_spec(*v),
    decreases v,
{
    match v {
        Json::Null => {
            String::from_str("null")
        },
        Json::Bool(b) => {
            if *b {
                String::from_str("true")
            } else {
                String::from_str("false")
            }
        },
        Json::Num(n) => u64_to_string(*n),
        Json::Str(s) => {
            let mut out = String::from_str("\"");
            proof {
                reveal_strlit("\"");
            }
            append_escaped(&mut out, s.as_str());
            out.append("\"");
            proof {
                assert(out@ =~= encode_spec(*v));
            }
            out
        },
        Json::Arr(elems) => {
            let mut out = String::from_str("[");
            proof {
                reveal_strlit("[");
                reveal_strlit("]");
                reveal_strlit(",");
                assert("["@ =~= seq!['[']);
                assert("]"@ =~= seq![']']);
                assert(","@ =~= seq![',']);
                assert(out@ =~= seq!['['] + encode_elems_spec(elems@.subrange(0, 0)));
            }
            let n = elems.len();
            let mut i: usize = 0;
            while i < n
                invariant
                    n == elems@.len(),
                    i <= n,
                    out@ == seq!['['] + encode_elems_spec(elems@.subrange(0, i as int)),
                decreases n - i,
            {
                if i > 0 {
                    out.append(",");
                }
                proof {
                    assert(decreases_to!(*v => v->Arr_0));
                    assert(decreases_to!(v->Arr_0 => v->Arr_0[i as int]));
                }
                let piece = encode(&elems[i]);
                out.append(piece.as_str());
                proof {
                    let pre = elems@.subrange(0, i as int);
                    let post = elems@.subrange(0, (i + 1) as int);
                    assert(post.drop_last() =~= pre);
                    assert(post.last() == elems@[i as int]);
                    if i == 0 {
                        assert(encode_elems_spec(post) == encode_spec(elems@[i as int]));
                    } else {
                        assert(encode_elems_spec(post) == encode_elems_spec(pre) + seq![',']
                            + encode_spec(elems@[i as int]));
                    }
                    assert(out@ =~= seq!['['] + encode_elems_spec(post));
                }
                i = i + 1;
            }
            out.append("]");
            proof {
                assert(elems@.subrange(0, n as int) =~= elems@);
                assert(out@ =~= encode_spec(*v));
            }
            out
        },
        Json::Obj(fields) => {
            let mut out = String::from_str("{");
            proof {
                reveal_strlit("{");
                reveal_strlit("}");
                reveal_strlit(",");
                reveal_strlit("\"");
                reveal_strlit("\":");
                assert("{"@ =~= seq!['{']);
                assert("}"@ =~= seq!['}']);
                assert(","@ =~= seq![',']);
                assert("\""@ =~= seq!['"']);
                assert("\":"@ =~= seq!['"', ':']);
                assert(out@ =~= seq!['{'] + encode_fields_spec(fields@.subrange(0, 0)));
            }
            let n = fields.len();
            let mut i: usize = 0;
            while i < n
                invariant
                    n == fields@.len(),
                    i <= n,
                    out@ == seq!['{'] + encode_fields_spec(fields@.subrange(0, i as int)),
                decreases n - i,
            {
                if i > 0 {
                    out.append(",");
                }
                out.append("\"");
                append_escaped(&mut out, fields[i].0.as_str());
                out.append("\":");
                proof {
                    assert(decreases_to!(*v => v->Obj_0));
                    assert(decreases_to!(v->Obj_0 => v->Obj_0[i as int]));
                    assert(decreases_to!(v->Obj_0[i as int] => v->Obj_0[i as int].1));
                }
                let piece = encode(&fields[i].1);
                out.append(piece.as_str());
                proof {
                    let pre = fields@.subrange(0, i as int);
                    let post = fields@.subrange(0, (i + 1) as int);
                    assert(post.drop_last() =~= pre);
                    assert(post.last() == fields@[i as int]);
                    if i == 0 {
                        assert(encode_fields_spec(post) == encode_field_spec(fields@[i as int]));
                    } else {
                        assert(encode_fields_spec(post) == encode_fields_spec(pre) + seq![',']
                            + encode_field_spec(fields@[i as int]));
                    }
                    assert(out@ =~= seq!['{'] + encode_fields_spec(post));
                }
                i = i + 1;
            }
            out.append("}");
            proof {
                assert(fields@.subrange(0, n as int) =~= fields@);
                assert(out@ =~= encode_spec(*v));
            }
            out
        },
    }
}

} // verus!
