//! The demonstration route: answers with a greeting and the request's
//! correlation identifier, and records that answer on the request's span.
use vstd::prelude::*;
use crate::context::{ContextError, RequestContext};
use crate::request_id::{digit_at, is_hyphen_at, nibble, uuid_text};

verus! {

#[verifier::external_type_specification]
#[verifier::external_body]
pub struct ExJsonError(serde_json::Error);

/// The JSON string literal that `serde_json` writes for `s`.
pub uninterp spec fn json_string_of(s: Seq<char>) -> Seq<char>;

/// `s` holds no quote, no backslash and no control character below U+0020.
pub open spec fn needs_no_escape(s: Seq<char>) -> bool {
    forall|i: int| 0 <= i < s.len() ==> s[i] != '"' && s[i] != '\\' && (s[i] as u32) >= 0x20
}

/// `s` between double quotes.
pub open spec fn quoted(s: Seq<char>) -> Seq<char> {
    seq!['"'] + s + seq!['"']
}

/// Relies on `serde_json::to_string` on a `str`: it writes a JSON string
/// literal into memory, which cannot fail, escaping only `"`, `\` and the
/// characters below U+0020.
#[verifier::external_body]
fn json_string(s: &str) -> (r: Result<String, serde_json::Error>)
    ensures
        r is Ok,
        r->Ok_0@ == json_string_of(s@),
        needs_no_escape(s@) ==> r->Ok_0@ == quoted(s@),
{
    serde_json::to_string(s)
}

/// The text form of an identifier needs no escaping in JSON: it holds only
/// hexadecimal digits and hyphens.
pub proof fn lemma_uuid_text_plain(v: u128)
    ensures
        needs_no_escape(uuid_text(v)),
{
    assert forall|p: int| 0 <= p < uuid_text(v).len() implies uuid_text(v)[p] != '"'
        && uuid_text(v)[p] != '\\' && (uuid_text(v)[p] as u32) >= 0x20 by {
        if !is_hyphen_at(p) {
            let s = (124 - 4 * digit_at(p)) as u128;
            assert((v >> s) & 0xfu128 <= 15u128) by (bit_vector);
            let n = nibble(v, digit_at(p));
            assert(0 <= n < 16);
        }
    }
}

/// The greeting the route answers with.
pub open spec fn greeting() -> Seq<char> {
    "Hello World"@
}

/// The JSON object `{"message":...,"request_id":...}` for the two texts.
pub open spec fn output_json(message: Seq<char>, request_id: Seq<char>) -> Seq<char> {
    "{\"message\":"@ + json_string_of(message) + ",\"request_id\":"@ + json_string_of(request_id)
        + "}"@
}

/// The route's JSON body for the identifier text `request_id`.
pub open spec fn answer_body(request_id: Seq<char>) -> Seq<char> {
    "{\"message\":"@ + quoted(greeting()) + ",\"request_id\":"@ + quoted(request_id) + "}"@
}

/// The route's answer.
pub struct OutputData {
    pub message: String,
    pub request_id: String,
}

impl OutputData {
    /// The answer as a JSON object, `message` first.
    pub fn to_json(&self) -> (r: String)
        ensures
            r@ == output_json(self.message@, self.request_id@),
            needs_no_escape(self.message@) && needs_no_escape(self.request_id@) ==> r@
                == "{\"message\":"@ + quoted(self.message@) + ",\"request_id\":"@ + quoted(
                self.request_id@,
            ) + "}"@,
    {
        let message = json_string(self.message.as_str());
        let request_id = json_string(self.request_id.as_str());
        let mut out = String::from_str("{\"message\":");
        match message {
            Ok(t) => out.append(t.as_str()),
            Err(_) => {},
        }
        out.append(",\"request_id\":");
        match request_id {
            Ok(t) => out.append(t.as_str()),
            Err(_) => {},
        }
        out.append("}");
        out
    }
}

/// `GET /abc`: answers with the greeting and the request's identifier, and
/// records the answer's JSON text on the request's span. Fails, changing
/// nothing, where the arrival step did not run.
pub fn abc(ctx: &mut RequestContext) -> (r: Result<OutputData, ContextError>)
    ensures
        final(ctx)@.request_id == old(ctx)@.request_id,
        match (old(ctx)@.span, old(ctx)@.request_id) {
            (Some(s), Some(id)) => {
                &&& r matches Ok(out) && out.message@ == greeting() && out.request_id@
                    == uuid_text(id.0)
                &&& final(ctx)@.span == Some(s.with_output(answer_body(uuid_text(id.0))))
            },
            _ => r == Err::<OutputData, ContextError>(ContextError::Unavailable)
                && final(ctx)@.span == old(ctx)@.span,
        },
{
    if ctx.current_span().is_err() {
        return Err(ContextError::Unavailable);
    }
    let id = match ctx.current_request_id() {
        Ok(id) => id,
        Err(e) => return Err(e),
    };
    let data = OutputData { message: String::from_str("Hello World"), request_id: id.to_text() };
    proof {
        lemma_uuid_text_plain(id.0);
        reveal_strlit("Hello World");
        assert(needs_no_escape(greeting()));
    }
    let text = data.to_json();
    match ctx.record_output(text) {
        Ok(()) => Ok(data),
        Err(e) => Err(e),
    }
}

} // verus!
