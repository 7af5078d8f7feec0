//! The description of an outbound request: method, URL, headers and body,
//! and the redacted snapshot of it that may be recorded.

use vstd::prelude::*;
use crate::headers;
use crate::masking::Maskable;
use crate::masking::MASK_MARKER;
use crate::text::text_eq;

verus! {

/// The HTTP method of a request.
#[derive(Clone, Copy, Debug, PartialEq, Eq, Structural)]
pub enum Method {
    Get,
    Post,
    Put,
    Delete,
    Patch,
}

/// One header as contracts see it.
pub struct HeaderView {
    pub name: Seq<char>,
    /// The real value.
    pub value: Seq<char>,
    /// Whether the value is sensitive.
    pub masked: bool,
}

/// One header as contracts see it.
pub open spec fn header_view(header: (String, Maskable)) -> HeaderView {
    HeaderView { name: header.0@, value: header.1.inner(), masked: header.1.is_masked() }
}

/// A header list as contracts see it.
pub open spec fn headers_view(headers: Seq<(String, Maskable)>) -> Seq<HeaderView> {
    headers.map_values(|header: (String, Maskable)| header_view(header))
}

/// Whether a header named `name` is on the list.
pub open spec fn has_header(headers: Seq<HeaderView>, name: Seq<char>) -> bool {
    exists|i: int| 0 <= i < headers.len() && (#[trigger] headers[i]).name == name
}

/// What a snapshot records of one header: its name, and its value unless
/// the value is sensitive.
pub open spec fn masked_header(header: HeaderView) -> (Seq<char>, Seq<char>) {
    (
        header.name,
        if header.masked {
            MASK_MARKER@
        } else {
            header.value
        },
    )
}

/// What a snapshot records of a header list.
pub open spec fn masked_headers(headers: Seq<HeaderView>) -> Seq<(Seq<char>, Seq<char>)> {
    headers.map_values(|header: HeaderView| masked_header(header))
}

/// The texts of a list of name and value pairs.
pub open spec fn pairs_view(pairs: Seq<(String, String)>) -> Seq<(Seq<char>, Seq<char>)> {
    pairs.map_values(|pair: (String, String)| (pair.0@, pair.1@))
}

/// The value of one field of a payload.
#[derive(Clone, PartialEq, Eq)]
pub enum PayloadValue {
    Integer(i64),
    Boolean(bool),
    Text(String),
    /// A sensitive text, masked in every snapshot.
    Secret(String),
}

/// The value of one field of a payload as contracts see it.
pub enum ValueView {
    Integer(int),
    Boolean(bool),
    Text(Seq<char>),
    Secret(Seq<char>),
}

impl View for PayloadValue {
    type V = ValueView;

    open spec fn view(&self) -> ValueView {
        match *self {
            PayloadValue::Integer(n) => ValueView::Integer(n as int),
            PayloadValue::Boolean(b) => ValueView::Boolean(b),
            PayloadValue::Text(text) => ValueView::Text(text@),
            PayloadValue::Secret(text) => ValueView::Secret(text@),
        }
    }
}

/// A named field of a payload.
#[derive(Clone, PartialEq, Eq)]
pub struct PayloadField {
    pub name: String,
    pub value: PayloadValue,
}

/// A named field of a payload as contracts see it.
pub struct FieldView {
    pub name: Seq<char>,
    pub value: ValueView,
}

impl View for PayloadField {
    type V = FieldView;

    open spec fn view(&self) -> FieldView {
        FieldView { name: self.name@, value: self.value@ }
    }
}

/// A typed payload: a record of named fields, in the order in which they are
/// written out.
#[derive(Clone, PartialEq, Eq)]
pub struct Payload {
    pub fields: Vec<PayloadField>,
}

impl View for Payload {
    type V = Seq<FieldView>;

    open spec fn view(&self) -> Seq<FieldView> {
        self.fields@.map_values(|field: PayloadField| field@)
    }
}

/// What a snapshot records of one value: the marker in place of a sensitive
/// text, every other value as it is.
pub open spec fn masked_value(value: ValueView) -> ValueView {
    match value {
        ValueView::Secret(_) => ValueView::Text(MASK_MARKER@),
        other => other,
    }
}

/// What a snapshot records of a payload: the same fields in the same order,
/// each value masked.
pub open spec fn masked_fields(fields: Seq<FieldView>) -> Seq<FieldView> {
    fields.map_values(|field: FieldView| FieldView { name: field.name, value: masked_value(field.value) })
}

impl PayloadValue {
    /// The value as a snapshot records it.
    pub fn masked(&self) -> (shown: PayloadValue)
        ensures
            shown@ == masked_value(self@),
    {
        match self {
            PayloadValue::Integer(n) => PayloadValue::Integer(*n),
            PayloadValue::Boolean(b) => PayloadValue::Boolean(*b),
            PayloadValue::Text(text) => PayloadValue::Text(text.clone()),
            PayloadValue::Secret(_) => PayloadValue::Text(MASK_MARKER.to_owned()),
        }
    }
}

impl Payload {
    /// A payload without fields.
    pub fn new() -> (payload: Self)
        ensures
            payload@ == Seq::<FieldView>::empty(),
    {
        Payload { fields: Vec::new() }
    }

    /// The payload with one more field at its end.
    pub fn with(self, name: &str, value: PayloadValue) -> (payload: Self)
        ensures
            payload@ == self@.push(FieldView { name: name@, value: value@ }),
    {
        let mut fields = self.fields;
        fields.push(PayloadField { name: name.to_owned(), value });
        let payload = Payload { fields };
        assert(payload@ =~= self@.push(FieldView { name: name@, value: value@ }));
        payload
    }

    /// The number of fields.
    pub fn len(&self) -> (n: usize)
        ensures
            n == self@.len(),
    {
        self.fields.len()
    }

    /// The value of the first field named `name`, if there is such a field.
    pub fn get(&self, name: &str) -> (found: Option<&PayloadValue>)
        ensures
            match found {
                Some(value) => exists|i: int|
                    0 <= i < self@.len() && (#[trigger] self@[i]).name == name@ && self@[i].value
                        == value@ && forall|j: int|
                        0 <= j < i ==> (#[trigger] self@[j]).name != name@,
                None => forall|i: int| 0 <= i < self@.len() ==> (#[trigger] self@[i]).name != name@,
            },
    {
        let mut i: usize = 0;
        while i < self.fields.len()
            invariant
                i <= self.fields.len(),
                forall|j: int| 0 <= j < i ==> (#[trigger] self@[j]).name != name@,
            decreases self.fields.len() - i,
        {
            if text_eq(self.fields[i].name.as_str(), name) {
                assert(self@[i as int].name == name@);
                return Some(&self.fields[i].value);
            }
            i += 1;
        }
        None
    }

    /// The payload as a snapshot records it: every sensitive value replaced
    /// by the marker. The payload itself keeps the real values.
    pub fn masked(&self) -> (shown: Payload)
        ensures
            shown@ == masked_fields(self@),
    {
        let mut fields: Vec<PayloadField> = Vec::new();
        let mut i: usize = 0;
        while i < self.fields.len()
            invariant
                i <= self.fields.len(),
                fields@.len() == i,
                forall|j: int|
                    0 <= j < i ==> (#[trigger] fields@[j])@ == (FieldView {
                        name: self@[j].name,
                        value: masked_value(self@[j].value),
                    }),
            decreases self.fields.len() - i,
        {
            let field = &self.fields[i];
            fields.push(PayloadField { name: field.name.clone(), value: field.value.masked() });
            i += 1;
        }
        let shown = Payload { fields };
        assert(shown@ =~= masked_fields(self@));
        shown
    }
}

/// A snapshot of a payload shows no sensitive value: where the payload holds
/// one, the snapshot holds the marker as an ordinary text, and every other
/// field is shown as it is.
pub proof fn lemma_snapshot_masks_secrets(fields: Seq<FieldView>, i: int)
    requires
        0 <= i < fields.len(),
    ensures
        masked_fields(fields).len() == fields.len(),
        masked_fields(fields)[i].name == fields[i].name,
        !(masked_fields(fields)[i].value is Secret),
        fields[i].value is Secret ==> masked_fields(fields)[i].value == ValueView::Text(
            MASK_MARKER@,
        ),
        !(fields[i].value is Secret) ==> masked_fields(fields)[i].value == fields[i].value,
{
}

/// A snapshot of a header list shows the marker for every sensitive header
/// and the real value for every other one.
pub proof fn lemma_snapshot_masks_headers(headers: Seq<HeaderView>, i: int)
    requires
        0 <= i < headers.len(),
    ensures
        masked_headers(headers).len() == headers.len(),
        masked_headers(headers)[i].0 == headers[i].name,
        headers[i].masked ==> masked_headers(headers)[i].1 == MASK_MARKER@,
        !headers[i].masked ==> masked_headers(headers)[i].1 == headers[i].value,
{
}

/// The body of a request, by encoding.
#[derive(Clone, PartialEq, Eq)]
pub enum RequestContent {
    Json(Payload),
    FormUrlEncoded(Payload),
    Xml(Payload),
    /// Multipart form data.
    FormData(Payload),
    RawBytes(Vec<u8>),
}

/// The body of a request as contracts see it.
pub enum ContentView {
    Json(Seq<FieldView>),
    FormUrlEncoded(Seq<FieldView>),
    Xml(Seq<FieldView>),
    FormData(Seq<FieldView>),
    RawBytes(Seq<u8>),
}

impl View for RequestContent {
    type V = ContentView;

    open spec fn view(&self) -> ContentView {
        match *self {
            RequestContent::Json(payload) => ContentView::Json(payload@),
            RequestContent::FormUrlEncoded(payload) => ContentView::FormUrlEncoded(payload@),
            RequestContent::Xml(payload) => ContentView::Xml(payload@),
            RequestContent::FormData(payload) => ContentView::FormData(payload@),
            RequestContent::RawBytes(bytes) => ContentView::RawBytes(bytes@),
        }
    }
}

/// The one field that a snapshot shows of a body that is not recorded field
/// by field: the kind of the body.
pub open spec fn request_type_note(kind: Seq<char>) -> Seq<FieldView> {
    seq![FieldView { name: "request_type"@, value: ValueView::Text(kind) }]
}

/// What a snapshot records of a body. A typed payload is recorded with its
/// sensitive values masked; of form data and raw bytes only the kind is
/// recorded; of no body, nothing.
pub open spec fn body_snapshot(body: Option<ContentView>) -> Option<Seq<FieldView>> {
    match body {
        Some(ContentView::Json(fields)) => Some(masked_fields(fields)),
        Some(ContentView::FormUrlEncoded(fields)) => Some(masked_fields(fields)),
        Some(ContentView::Xml(fields)) => Some(masked_fields(fields)),
        Some(ContentView::FormData(_)) => Some(request_type_note("FORM_DATA"@)),
        Some(ContentView::RawBytes(_)) => Some(request_type_note("RAW_BYTES"@)),
        None => None,
    }
}

/// The description of one outbound request, ready for the executor.
#[derive(Clone, PartialEq, Eq)]
pub struct Request {
    pub url: String,
    pub headers: Vec<(String, Maskable)>,
    pub method: Method,
    pub body: Option<RequestContent>,
}

/// A request, or a request under construction, as contracts see it.
pub struct RequestView {
    pub url: Seq<char>,
    pub headers: Seq<HeaderView>,
    pub method: Method,
    pub body: Option<ContentView>,
}

/// The body of a request as contracts see it.
pub open spec fn content_view(body: Option<RequestContent>) -> Option<ContentView> {
    match body {
        Some(content) => Some(content@),
        None => None,
    }
}

impl View for Request {
    type V = RequestView;

    open spec fn view(&self) -> RequestView {
        RequestView {
            url: self.url@,
            headers: headers_view(self.headers@),
            method: self.method,
            body: content_view(self.body),
        }
    }
}

impl RequestView {
    /// A request is well formed when it has a URL and says what content type
    /// it carries.
    pub open spec fn well_formed(self) -> bool {
        self.url.len() > 0 && has_header(self.headers, headers::CONTENT_TYPE@)
    }
}

/// The header list as a snapshot records it, in the same order.
pub fn mask_headers(headers: &Vec<(String, Maskable)>) -> (shown: Vec<(String, String)>)
    ensures
        pairs_view(shown@) == masked_headers(headers_view(headers@)),
{
    let mut shown: Vec<(String, String)> = Vec::new();
    let mut i: usize = 0;
    while i < headers.len()
        invariant
            i <= headers.len(),
            shown@.len() == i,
            forall|j: int|
                0 <= j < i ==> (#[trigger] shown@[j]).0@ == headers@[j].0@ && shown@[j].1@
                    == headers@[j].1.shown(),
        decreases headers.len() - i,
    {
        let header = &headers[i];
        shown.push((header.0.clone(), header.1.masked_text()));
        i += 1;
    }
    assert(pairs_view(shown@) =~= masked_headers(headers_view(headers@)));
    shown
}

impl Request {
    /// Whether the request has a URL and a content-type header.
    pub fn is_well_formed(&self) -> (ok: bool)
        ensures
            ok == self@.well_formed(),
    {
        if self.url.as_str().is_empty() {
            return false;
        }
        let mut i: usize = 0;
        while i < self.headers.len()
            invariant
                i <= self.headers.len(),
                self.url@.len() > 0,
                forall|j: int| 0 <= j < i ==> self.headers@[j].0@ != headers::CONTENT_TYPE@,
            decreases self.headers.len() - i,
        {
            if text_eq(self.headers[i].0.as_str(), headers::CONTENT_TYPE) {
                assert(self@.headers[i as int].name == headers::CONTENT_TYPE@);
                return true;
            }
            i += 1;
        }
        assert forall|j: int| 0 <= j < self@.headers.len() implies (#[trigger] self@.headers[j]).name
            != headers::CONTENT_TYPE@ by {
            assert(self@.headers[j].name == self.headers@[j].0@);
        }
        false
    }

    /// The headers as a snapshot records them: sensitive values replaced by
    /// the marker. The request itself keeps the real values.
    pub fn masked_headers(&self) -> (shown: Vec<(String, String)>)
        ensures
            pairs_view(shown@) == masked_headers(self@.headers),
    {
        mask_headers(&self.headers)
    }

    /// The body as a snapshot records it. The request itself keeps the real
    /// values.
    pub fn masked_body(&self) -> (shown: Option<Payload>)
        ensures
            match shown {
                Some(payload) => body_snapshot(self@.body) == Some(payload@),
                None => body_snapshot(self@.body) is None,
            },
    {
        match &self.body {
            Some(RequestContent::Json(payload)) => Some(payload.masked()),
            Some(RequestContent::FormUrlEncoded(payload)) => Some(payload.masked()),
            Some(RequestContent::Xml(payload)) => Some(payload.masked()),
            Some(RequestContent::FormData(_)) => Some(
                Payload::new().with("request_type", PayloadValue::Text("FORM_DATA".to_owned())),
            ),
            Some(RequestContent::RawBytes(_)) => Some(
                Payload::new().with("request_type", PayloadValue::Text("RAW_BYTES".to_owned())),
            ),
            None => None,
        }
    }
}

/// Assembles a request step by step.
#[derive(Clone, PartialEq, Eq)]
pub struct RequestBuilder {
    pub url: String,
    pub headers: Vec<(String, Maskable)>,
    pub method: Method,
    pub body: Option<RequestContent>,
}

impl View for RequestBuilder {
    type V = RequestView;

    open spec fn view(&self) -> RequestView {
        RequestView {
            url: self.url@,
            headers: headers_view(self.headers@),
            method: self.method,
            body: content_view(self.body),
        }
    }
}

impl RequestBuilder {
    /// A builder for a `GET` request with no URL, header or body yet.
    pub fn new() -> (builder: Self)
        ensures
            builder@ == (RequestView {
                url: Seq::empty(),
                headers: Seq::empty(),
                method: Method::Get,
                body: None,
            }),
    {
        let builder = RequestBuilder {
            url: String::new(),
            headers: Vec::new(),
            method: Method::Get,
            body: None,
        };
        assert(builder@.headers =~= Seq::empty());
        builder
    }

    /// Sets the URL.
    pub fn url(self, url: &str) -> (builder: Self)
        ensures
            builder@ == (RequestView { url: url@, ..self@ }),
    {
        RequestBuilder { url: url.to_owned(), headers: self.headers, method: self.method, body: self.body }
    }

    /// Sets the method.
    pub fn method(self, method: Method) -> (builder: Self)
        ensures
            builder@ == (RequestView { method, ..self@ }),
    {
        RequestBuilder { url: self.url, headers: self.headers, method, body: self.body }
    }

    /// Adds the header that marks the request as coming from the hub.
    pub fn attach_default_headers(self) -> (builder: Self)
        ensures
            builder@ == (RequestView {
                headers: self@.headers.push(
                    HeaderView { name: headers::VIA@, value: headers::VIA_VALUE@, masked: false },
                ),
                ..self@
            }),
    {
        let mut list = self.headers;
        list.push((headers::VIA.to_owned(), Maskable::Normal(headers::VIA_VALUE.to_owned())));
        let builder = RequestBuilder { url: self.url, headers: list, method: self.method, body: self.body };
        assert(builder@.headers =~= self@.headers.push(
            HeaderView { name: headers::VIA@, value: headers::VIA_VALUE@, masked: false },
        ));
        builder
    }

    /// Adds one header at the end of the list.
    pub fn header(self, name: &str, value: Maskable) -> (builder: Self)
        ensures
            builder@ == (RequestView {
                headers: self@.headers.push(
                    HeaderView { name: name@, value: value.inner(), masked: value.is_masked() },
                ),
                ..self@
            }),
    {
        let mut list = self.headers;
        list.push((name.to_owned(), value));
        let builder = RequestBuilder { url: self.url, headers: list, method: self.method, body: self.body };
        assert(builder@.headers =~= self@.headers.push(
            HeaderView { name: name@, value: value.inner(), masked: value.is_masked() },
        ));
        builder
    }

    /// Adds `headers` at the end of the list, in their order.
    pub fn headers(self, headers: Vec<(String, Maskable)>) -> (builder: Self)
        ensures
            builder@ == (RequestView { headers: self@.headers + headers_view(headers@), ..self@ }),
    {
        let mut list = self.headers;
        let mut more = headers;
        list.append(&mut more);
        let builder = RequestBuilder { url: self.url, headers: list, method: self.method, body: self.body };
        assert(builder@.headers =~= self@.headers + headers_view(headers@));
        builder
    }

    /// Sets the body.
    pub fn set_body(self, body: RequestContent) -> (builder: Self)
        ensures
            builder@ == (RequestView { body: Some(body@), ..self@ }),
    {
        RequestBuilder { url: self.url, headers: self.headers, method: self.method, body: Some(body) }
    }

    /// The request that was assembled.
    pub fn build(self) -> (request: Request)
        ensures
            request@ == self@,
    {
        Request { url: self.url, headers: self.headers, method: self.method, body: self.body }
    }
}

} // verus!
