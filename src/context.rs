//! Per-request storage: write-once cells, and the context that binds a
//! correlation identifier and a span to one in-flight request.
use vstd::prelude::*;
use crate::request_id::{RequestId, is_v4, uuid_text};
use crate::span::{FieldsView, SpanFields, SpanView, TracingSpan};

verus! {

/// What a write-once cell holds after an initialisation that produced
/// `produced`: what it held before, if anything, else `produced`.
pub open spec fn settled<T>(slot: Option<T>, produced: T) -> Option<T> {
    match slot {
        Some(v) => Some(v),
        None => Some(produced),
    }
}

/// Initialising a cell twice keeps the first value: the second initialiser
/// changes nothing.
pub proof fn lemma_init_once<T>(slot: Option<T>, first: T, second: T)
    ensures
        settled(settled(slot, first), second) == settled(slot, first),
        slot is None ==> settled(settled(slot, first), second) == Some(first),
{
}

/// A cell that is filled at most once and read any number of times.
pub struct LocalCache<T> {
    slot: Option<T>,
}

impl<T> View for LocalCache<T> {
    type V = Option<T>;

    closed spec fn view(&self) -> Option<T> {
        self.slot
    }
}

impl<T> LocalCache<T> {
    /// An empty cell.
    pub fn new() -> (r: LocalCache<T>)
        ensures
            r@ is None,
    {
        LocalCache { slot: None }
    }

    /// Returns the stored value; where there is none yet, first stores what
    /// `init` produces. `init` is called only on an empty cell.
    pub fn get_or_init<F: FnOnce() -> T>(&mut self, init: F) -> (r: &T)
        requires
            old(self)@ is None ==> init.requires(()),
        ensures
            final(self)@ == Some(*r),
            old(self)@ is Some ==> final(self)@ == old(self)@,
            old(self)@ is None ==> init.ensures((), *r),
            final(self)@ == settled(old(self)@, *r),
    {
        if self.slot.is_none() {
            self.slot = Some(init());
        }
        self.slot.as_ref().unwrap()
    }

    /// The stored value, for changing it in place, if any.
    pub fn get_mut(&mut self) -> (r: Option<&mut T>)
        ensures
            match r {
                Some(v) => old(self)@ == Some(*v) && final(self)@ == Some(*final(v)),
                None => old(self)@ is None && final(self)@ is None,
            },
    {
        self.slot.as_mut()
    }

    /// The stored value, if any.
    pub fn get(&self) -> (r: Option<&T>)
        ensures
            match r {
                Some(v) => self@ == Some(*v),
                None => self@ is None,
            },
    {
        self.slot.as_ref()
    }
}

/// Why a handler could not obtain its request's context: the arrival step
/// never ran for this request. A server fault, answered with status 500.
#[derive(Clone, Copy, Debug, PartialEq, Eq, Structural)]
pub enum ContextError {
    Unavailable,
}

impl ContextError {
    /// The HTTP status that answers this fault.
    pub fn status_code(&self) -> (r: u16)
        ensures
            r == 500,
    {
        500
    }
}

/// The user agent a span records: the header's value, or empty without one.
pub open spec fn user_agent_or_empty(user_agent: Option<Seq<char>>) -> Seq<char> {
    match user_agent {
        Some(u) => u,
        None => Seq::empty(),
    }
}

/// The fields a request's span is opened with.
pub open spec fn arrival_fields(
    method: Seq<char>,
    path: Seq<char>,
    user_agent: Option<Seq<char>>,
    id: u128,
) -> FieldsView {
    FieldsView {
        name: method + seq![' '] + path,
        method,
        uri: path,
        user_agent: user_agent_or_empty(user_agent),
        request_id: uuid_text(id),
    }
}

pub open spec fn str_opt_view(s: Option<&str>) -> Option<Seq<char>> {
    match s {
        Some(u) => Some(u@),
        None => None,
    }
}

pub struct ContextView {
    pub request_id: Option<RequestId>,
    pub span: Option<SpanView>,
}

/// The state bound to one in-flight request: its correlation identifier and
/// its span, each written once and then read.
pub struct RequestContext {
    request_id: LocalCache<RequestId>,
    span: LocalCache<TracingSpan>,
}

impl View for RequestContext {
    type V = ContextView;

    closed spec fn view(&self) -> ContextView {
        ContextView {
            request_id: self.request_id@,
            span: match self.span@ {
                Some(s) => Some(s@),
                None => None,
            },
        }
    }
}

impl RequestContext {
    /// The context of a request that has just arrived: nothing stored yet.
    pub fn new() -> (r: RequestContext)
        ensures
            r@.request_id is None,
            r@.span is None,
    {
        RequestContext { request_id: LocalCache::new(), span: LocalCache::new() }
    }

    /// Arrival, first half: makes sure the request has an identifier (a
    /// fresh one unless one is stored already) and returns the fields its
    /// span is to be opened with. The stored span is left as it is.
    pub fn on_request(&mut self, method: &str, path: &str, user_agent: Option<&str>) -> (r:
        SpanFields)
        ensures
            final(self)@.span == old(self)@.span,
            final(self)@.request_id is Some,
            old(self)@.request_id is Some ==> final(self)@.request_id == old(self)@.request_id,
            old(self)@.request_id is None ==> is_v4(final(self)@.request_id->Some_0.0),
            r@ == arrival_fields(
                method@,
                path@,
                str_opt_view(user_agent),
                final(self)@.request_id->Some_0.0,
            ),
    {
        let fresh = || -> (r: RequestId)
            ensures
                is_v4(r.0),
            { RequestId::generate() };
        let id: RequestId = *self.request_id.get_or_init(fresh);
        let mut name = String::from_str(method);
        name.append(" ");
        name.append(path);
        proof {
            reveal_strlit(" ");
        }
        let user_agent = match user_agent {
            Some(u) => String::from_str(u),
            None => String::new(),
        };
        let fields = SpanFields {
            name,
            method: String::from_str(method),
            uri: String::from_str(path),
            user_agent,
            request_id: id.to_text(),
        };
        assert(fields@.name =~= method@ + seq![' '] + path@);
        fields
    }

    /// Arrival, second half: stores the span opened with `fields`, unless the
    /// request has one already.
    pub fn attach_span(&mut self, fields: SpanFields, handle: tracing::Span)
        ensures
            final(self)@.request_id == old(self)@.request_id,
            final(self)@.span == settled(old(self)@.span, SpanView::opened(fields@)),
    {
        let opened = TracingSpan::new(fields, handle);
        if self.span.get().is_none() {
            self.span.get_or_init(move || -> (r: TracingSpan)
                ensures
                    r == opened,
                { opened });
        }
    }

    /// The request's correlation identifier; fails where the arrival step did
    /// not run.
    pub fn current_request_id(&self) -> (r: Result<RequestId, ContextError>)
        ensures
            match self@.request_id {
                Some(id) => r == Ok::<RequestId, ContextError>(id),
                None => r == Err::<RequestId, ContextError>(ContextError::Unavailable),
            },
    {
        match self.request_id.get() {
            Some(id) => Ok(*id),
            None => Err(ContextError::Unavailable),
        }
    }

    /// The request's span; fails where the arrival step did not run.
    pub fn current_span(&self) -> (r: Result<&TracingSpan, ContextError>)
        ensures
            match self@.span {
                Some(s) => r is Ok && r->Ok_0@ == s,
                None => r == Err::<&TracingSpan, ContextError>(ContextError::Unavailable),
            },
    {
        match self.span.get() {
            Some(s) => Ok(s),
            None => Err(ContextError::Unavailable),
        }
    }

    /// Records the handler's serialised output on the request's span; fails
    /// where the arrival step did not run.
    pub fn record_output(&mut self, text: String) -> (r: Result<(), ContextError>)
        ensures
            final(self)@.request_id == old(self)@.request_id,
            match old(self)@.span {
                Some(s) => r is Ok && final(self)@.span == Some(s.with_output(text@)),
                None => r == Err::<(), ContextError>(ContextError::Unavailable)
                    && final(self)@.span is None,
            },
    {
        match self.span.get_mut() {
            Some(s) => {
                s.record_output(text);
                Ok(())
            },
            None => Err(ContextError::Unavailable),
        }
    }

    /// Completion: records the response's status code on the stored span.
    /// Without a span nothing happens, and the response goes out regardless.
    pub fn on_response(&mut self, status: u16)
        ensures
            final(self)@.request_id == old(self)@.request_id,
            match old(self)@.span {
                Some(s) => final(self)@.span == Some(s.with_status(status)),
                None => final(self)@.span is None,
            },
    {
        match self.span.get_mut() {
            Some(s) => s.record_status(status),
            None => {},
        }
    }
}

} // verus!
