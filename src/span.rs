//! The request span: the fields the library decides, held beside the handle
//! of the structured-logging backend that records them.
use vstd::prelude::*;

verus! {

#[verifier::external_type_specification]
#[verifier::external_body]
pub struct ExSpan(tracing::Span);

/// Relies on `tracing::Span::record`: sets a declared field of the span;
/// returns the span itself.
pub assume_specification<'a, Q: tracing::field::AsField + ?Sized, V: tracing::field::Value>[ tracing::Span::record::<Q, V> ](
    span: &'a tracing::Span,
    field: &Q,
    value: V,
) -> (r: &'a tracing::Span)
    ensures
        r == span,
;

/// What a span is opened with.
pub struct SpanFields {
    /// The span's display name: method, a space, then the path.
    pub name: String,
    pub method: String,
    pub uri: String,
    /// The `User-Agent` header, empty where the request has none.
    pub user_agent: String,
    /// The text form of the request's correlation identifier.
    pub request_id: String,
}

pub struct FieldsView {
    pub name: Seq<char>,
    pub method: Seq<char>,
    pub uri: Seq<char>,
    pub user_agent: Seq<char>,
    pub request_id: Seq<char>,
}

impl View for SpanFields {
    type V = FieldsView;

    open spec fn view(&self) -> FieldsView {
        FieldsView {
            name: self.name@,
            method: self.method@,
            uri: self.uri@,
            user_agent: self.user_agent@,
            request_id: self.request_id@,
        }
    }
}

/// A span as the library sees it: its opening fields and what was recorded
/// on it since.
pub struct SpanView {
    pub fields: FieldsView,
    pub status_code: Option<u16>,
    pub output: Option<Seq<char>>,
}

impl SpanView {
    /// A span just opened: the status code is declared but not yet set.
    pub open spec fn opened(fields: FieldsView) -> SpanView {
        SpanView { fields, status_code: None, output: None }
    }

    pub open spec fn with_status(self, code: u16) -> SpanView {
        SpanView { status_code: Some(code), ..self }
    }

    pub open spec fn with_output(self, text: Seq<char>) -> SpanView {
        SpanView { output: Some(text), ..self }
    }
}

/// Opening a span leaves its status code unset; recording a status sets it
/// to exactly that code and keeps every opening field.
pub proof fn lemma_status_lifecycle(fields: FieldsView, code: u16)
    ensures
        SpanView::opened(fields).status_code is None,
        SpanView::opened(fields).with_status(code).status_code == Some(code),
        SpanView::opened(fields).with_status(code).fields == fields,
{
}

/// A request's tracing span.
pub struct TracingSpan {
    fields: SpanFields,
    status_code: Option<u16>,
    output: Option<String>,
    handle: tracing::Span,
}

impl View for TracingSpan {
    type V = SpanView;

    closed spec fn view(&self) -> SpanView {
        SpanView {
            fields: self.fields@,
            status_code: self.status_code,
            output: match self.output {
                Some(s) => Some(s@),
                None => None,
            },
        }
    }
}

impl TracingSpan {
    /// A span opened with `fields`, recorded through `handle`.
    pub fn new(fields: SpanFields, handle: tracing::Span) -> (r: TracingSpan)
        ensures
            r@ == SpanView::opened(fields@),
    {
        TracingSpan { fields, status_code: None, output: None, handle }
    }

    pub fn fields(&self) -> (r: &SpanFields)
        ensures
            r@ == self@.fields,
    {
        &self.fields
    }

    pub fn status_code(&self) -> (r: Option<u16>)
        ensures
            r == self@.status_code,
    {
        self.status_code
    }

    pub fn output(&self) -> (r: Option<&String>)
        ensures
            match r {
                Some(s) => self@.output == Some(s@),
                None => self@.output is None,
            },
    {
        self.output.as_ref()
    }

    /// The backend's handle, for entering the span or logging within it.
    pub fn handle(&self) -> &tracing::Span {
        &self.handle
    }

    /// Records the final status code of the response.
    pub fn record_status(&mut self, code: u16)
        ensures
            final(self)@ == old(self)@.with_status(code),
    {
        self.handle.record("status_code", code);
        self.status_code = Some(code);
    }

    /// Records the serialised output of the handler.
    pub fn record_output(&mut self, text: String)
        ensures
            final(self)@ == old(self)@.with_output(text@),
    {
        self.handle.record("output", text.as_str());
        self.output = Some(text);
    }
}

} // verus!
