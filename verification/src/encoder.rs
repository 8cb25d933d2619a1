//! The command encoder: turns a [`LogicalRequest`] into the fixed script
//! body plus a JSON parameter payload, and synthesizes the short mutating
//! command strings from fixed templates and validated scalars.
//!
//! Keeping the script text constant and passing the per-call data as an
//! auxiliary JSON argument confines the injection surface to the payload's
//! `id` and `query` members, which are rendered with full JSON string
//! escaping below. Free text is never interpolated into script source.

use vstd::prelude::*;
use vstd::string::StringExecFns;

use crate::request::LogicalRequest;
use crate::request::ParamType;
use crate::text::char_vec_to_string;
use crate::text::dec_int;
use crate::text::digit_char;
use crate::text::push_dec_i64;
use crate::text::str_to_char_vec;

verus! {

/// The fixed script body handed to the interpreter for every data request.
/// It dispatches on the `param_type` member of its one JSON argument and
/// prints one JSON value on standard output.
pub const SCRIPT_SOURCE: &'static str = "function run(argv) {\n    const music = Application('Music');\n    const p = JSON.parse(argv[0]);\n    const dump = (o) => o.properties();\n    let out = null;\n    switch (p.param_type) {\n        case 'allTracks':\n            out = music.tracks().map(dump);\n            break;\n        case 'currentTrack':\n            out = dump(music.currentTrack());\n            break;\n        case 'playlistById':\n            out = dump(music.playlists.byId(Number(p.id)));\n            break;\n        case 'playlistTracks':\n            out = music.playlists.byId(Number(p.id)).tracks().map(dump);\n            break;\n        case 'applicationData':\n            out = dump(music);\n            break;\n        case 'searchInPlaylist':\n            out = music.playlists.byId(Number(p.id)).search({ for: p.query }).map(dump);\n            break;\n        case 'artworks':\n            out = music.tracks.byId(Number(p.id)).artworks().map(dump);\n            break;\n    }\n    return JSON.stringify(out);\n}\n";

/// The hexadecimal digit character for a value below sixteen.
pub open spec fn hexdig_char(d: nat) -> char {
    if d < 10 {
        digit_char(d)
    } else if d == 10 {
        'a'
    } else if d == 11 {
        'b'
    } else if d == 12 {
        'c'
    } else if d == 13 {
        'd'
    } else if d == 14 {
        'e'
    } else {
        'f'
    }
}

pub fn hexdig_char_exec_u32(d: u32) -> (r: char)
    requires
        d < 16,
    ensures
        r == hexdig_char(d as nat),
{
    if d < 10 {
        crate::text::digit_char_exec_u32(d)
    } else if d == 10 {
        'a'
    } else if d == 11 {
        'b'
    } else if d == 12 {
        'c'
    } else if d == 13 {
        'd'
    } else if d == 14 {
        'e'
    } else {
        'f'
    }
}

/// What one character becomes inside a JSON string literal: quotes and
/// backslashes are escaped, control characters become `\u00XX`, everything
/// else stands for itself.
pub open spec fn escape_of(c: char) -> Seq<char> {
    if c == '"' {
        seq!['\\', '"']
    } else if c == '\\' {
        seq!['\\', '\\']
    } else if (c as u32) < 0x20 {
        seq!['\\', 'u', '0', '0', hexdig_char((c as u32 / 16) as nat), hexdig_char(
            (c as u32 % 16) as nat,
        )]
    } else {
        seq![c]
    }
}

/// A whole character sequence escaped for use inside a JSON string literal.
pub open spec fn json_escaped(sx: Seq<char>) -> Seq<char>
    decreases sx.len(),
{
    if sx.len() == 0 {
        Seq::empty()
    } else {
        json_escaped(sx.drop_last()) + escape_of(sx.last())
    }
}

/// Appends the characters of `s` to `out`.
pub fn push_str_chars(out: &mut Vec<char>, s: &str)
    ensures
        final(out)@ == old(out)@ + s@,
{
    let mut cs = str_to_char_vec(s);
    out.append(&mut cs);
}

/// Appends the JSON-escaped form of `s` to `out`.
fn push_escaped(out: &mut Vec<char>, s: &str)
    ensures
        final(out)@ == old(out)@ + json_escaped(s@),
{
    let cs = str_to_char_vec(s);
    let mut i: usize = 0;
    while i < cs.len()
        invariant
            i <= cs.len(),
            cs@ == s@,
            out@ == old(out)@ + json_escaped(s@.subrange(0, i as int)),
        decreases cs.len() - i,
    {
        let c = cs[i];
        proof {
            let pre = s@.subrange(0, i as int);
            let nxt = s@.subrange(0, i + 1 as int);
            assert(nxt.drop_last() =~= pre);
            assert(nxt.last() == c);
        }
        if c == '"' {
            out.push('\\');
            out.push('"');
        } else if c == '\\' {
            out.push('\\');
            out.push('\\');
        } else if (c as u32) < 0x20 {
            out.push('\\');
            out.push('u');
            out.push('0');
            out.push('0');
            out.push(hexdig_char_exec_u32((c as u32) / 16));
            out.push(hexdig_char_exec_u32((c as u32) % 16));
        } else {
            out.push(c);
        }
        assert(out@ =~= old(out)@ + json_escaped(s@.subrange(0, i + 1 as int)));
        i += 1;
    }
    assert(s@.subrange(0, cs@.len() as int) =~= s@);
}

/// The structured content of a parameter payload: the request tag, the
/// rendered identifier when one is carried, and the raw query text when
/// one is carried.
pub struct PayloadModel {
    /// The value of the `param_type` member.
    pub param_type: Seq<char>,
    /// The value of the `id` member, already rendered in decimal.
    pub id: Option<Seq<char>>,
    /// The raw (unescaped) value of the `query` member.
    pub query: Option<Seq<char>>,
}

/// The payload content a request is encoded to.
pub open spec fn payload_model(req: LogicalRequest) -> PayloadModel {
    PayloadModel {
        param_type: req.kind.spec_name(),
        id: match req.id {
            Some(n) => Some(dec_int(n as int)),
            None => None,
        },
        query: match req.query {
            Some(q) => Some(q@),
            None => None,
        },
    }
}

/// The JSON text of a payload: an object with `param_type`, then `id` when
/// carried, then `query` when carried.
pub open spec fn render_payload(m: PayloadModel) -> Seq<char> {
    "{\"param_type\":\""@ + m.param_type + "\""@ + (match m.id {
        Some(n) => ",\"id\":\""@ + n + "\""@,
        None => Seq::empty(),
    }) + (match m.query {
        Some(q) => ",\"query\":\""@ + json_escaped(q) + "\""@,
        None => Seq::empty(),
    }) + "}"@
}

/// For every well-formed request, the parameter payload carries an `id`
/// member exactly when the request kind requires an identifier, and a
/// `query` member exactly when the kind takes one.
pub proof fn lemma_payload_id_iff_required(req: LogicalRequest)
    requires
        req.wf(),
    ensures
        payload_model(req).id is Some <==> req.kind.requires_id(),
        payload_model(req).query is Some <==> req.kind.takes_query(),
{
}

/// Renders the parameter payload for a request kind with its optional
/// identifier and query, exactly as [`render_payload`] describes.
pub fn payload_text(kind: ParamType, id: Option<i32>, query: Option<&str>) -> (r: String)
    ensures
        r@ == render_payload(
            PayloadModel {
                param_type: kind.spec_name(),
                id: match id {
                    Some(n) => Some(dec_int(n as int)),
                    None => None,
                },
                query: match query {
                    Some(q) => Some(q@),
                    None => None,
                },
            },
        ),
{
    let mut out: Vec<char> = Vec::new();
    push_str_chars(&mut out, "{\"param_type\":\"");
    push_str_chars(&mut out, kind.as_str());
    push_str_chars(&mut out, "\"");
    match id {
        Some(n) => {
            push_str_chars(&mut out, ",\"id\":\"");
            push_dec_i64(&mut out, n as i64);
            push_str_chars(&mut out, "\"");
        },
        None => {},
    }
    match query {
        Some(q) => {
            push_str_chars(&mut out, ",\"query\":\"");
            push_escaped(&mut out, q);
            push_str_chars(&mut out, "\"");
        },
        None => {},
    }
    push_str_chars(&mut out, "}");
    proof {
        assert(out@ =~= render_payload(
            PayloadModel {
                param_type: kind.spec_name(),
                id: match id {
                    Some(n) => Some(dec_int(n as int)),
                    None => None,
                },
                query: match query {
                    Some(q) => Some(q@),
                    None => None,
                },
            },
        ));
    }
    char_vec_to_string(&out)
}

/// Encodes a logical request: the fixed script body, and the parameter
/// payload rendered from [`payload_model`].
pub fn encode(req: &LogicalRequest) -> (r: (String, String))
    ensures
        r.0@ == SCRIPT_SOURCE@,
        r.1@ == render_payload(payload_model(*req)),
{
    let command = String::from_str(SCRIPT_SOURCE);
    let query_ref: Option<&str> = match &req.query {
        Some(q) => Some(q.as_str()),
        None => None,
    };
    let payload = payload_text(req.kind, req.id, query_ref);
    (command, payload)
}

/// The textual form of a boolean in a player command.
pub open spec fn spec_bool_text(b: bool) -> Seq<char> {
    if b {
        "true"@
    } else {
        "false"@
    }
}

pub(crate) fn bool_text(b: bool) -> (r: &'static str)
    ensures
        r@ == spec_bool_text(b),
{
    if b {
        "true"
    } else {
        "false"
    }
}

/// A player command that applies an action to one item of a collection,
/// addressed by id: the only dynamic content is the validated integer.
pub open spec fn spec_target_command(action: Seq<char>, collection: Seq<char>, id: int) -> Seq<
    char,
> {
    "Application('Music')."@ + action + "(Application('Music')."@ + collection + ".byId("@
        + dec_int(id) + "))"@
}

pub(crate) fn target_command(action: &str, collection: &str, id: i32) -> (r: String)
    ensures
        r@ == spec_target_command(action@, collection@, id as int),
{
    let mut out: Vec<char> = Vec::new();
    push_str_chars(&mut out, "Application('Music').");
    push_str_chars(&mut out, action);
    push_str_chars(&mut out, "(Application('Music').");
    push_str_chars(&mut out, collection);
    push_str_chars(&mut out, ".byId(");
    push_dec_i64(&mut out, id as i64);
    push_str_chars(&mut out, "))");
    proof {
        assert(out@ =~= spec_target_command(action@, collection@, id as int));
    }
    char_vec_to_string(&out)
}

/// A player command that assigns a validated value to one property of the
/// application.
pub open spec fn spec_property_command(property: Seq<char>, value: Seq<char>) -> Seq<char> {
    "Application('Music')."@ + property + " = "@ + value
}

pub(crate) fn property_command(property: &str, value: &str) -> (r: String)
    ensures
        r@ == spec_property_command(property@, value@),
{
    let mut out: Vec<char> = Vec::new();
    push_str_chars(&mut out, "Application('Music').");
    push_str_chars(&mut out, property);
    push_str_chars(&mut out, " = ");
    push_str_chars(&mut out, value);
    proof {
        assert(out@ =~= spec_property_command(property@, value@));
    }
    char_vec_to_string(&out)
}

/// A player command that calls one verb of the application, with no
/// argument.
pub open spec fn spec_verb_command(verb: Seq<char>) -> Seq<char> {
    "Application('Music')."@ + verb + "()"@
}

pub(crate) fn verb_command(verb: &str) -> (r: String)
    ensures
        r@ == spec_verb_command(verb@),
{
    let mut out: Vec<char> = Vec::new();
    push_str_chars(&mut out, "Application('Music').");
    push_str_chars(&mut out, verb);
    push_str_chars(&mut out, "()");
    proof {
        assert(out@ =~= spec_verb_command(verb@));
    }
    char_vec_to_string(&out)
}

/// A player command that assigns a boolean to one flag of one item of a
/// collection, addressed by id.
pub open spec fn spec_flag_command(collection: Seq<char>, id: int, flag: Seq<char>, value: bool)
    -> Seq<char> {
    "Application('Music')."@ + collection + ".byId("@ + dec_int(id) + ")."@ + flag + " = "@
        + spec_bool_text(value)
}

pub(crate) fn flag_command(collection: &str, id: i32, flag: &str, value: bool) -> (r: String)
    ensures
        r@ == spec_flag_command(collection@, id as int, flag@, value),
{
    let mut out: Vec<char> = Vec::new();
    push_str_chars(&mut out, "Application('Music').");
    push_str_chars(&mut out, collection);
    push_str_chars(&mut out, ".byId(");
    push_dec_i64(&mut out, id as i64);
    push_str_chars(&mut out, ").");
    push_str_chars(&mut out, flag);
    push_str_chars(&mut out, " = ");
    push_str_chars(&mut out, bool_text(value));
    proof {
        assert(out@ =~= spec_flag_command(collection@, id as int, flag@, value));
    }
    char_vec_to_string(&out)
}

} // verus!
