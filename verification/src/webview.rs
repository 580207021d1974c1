//! What a webview asks of the host, and what the host's answer becomes.
//!
//! A request for a custom scheme travels to a foreign handler as C strings
//! and comes back as a record that the handler filled in. The functions here
//! decide which requests can travel, what the handler is shown, and which
//! HTTP response its record stands for. Reading the host's memory and
//! talking to the webview is the caller's part.

use vstd::prelude::*;
use vstd::utf8::{decode_utf8, valid_utf8};
use crate::callbacks::StoredCallback;
use crate::string::{c_str_to_string, has_nul};
use crate::types::{CallbackAddress, UserData, NULL_HANDLE};

verus! {

/// A header as a pair of texts.
#[derive(Clone, Debug, PartialEq, Eq)]
pub struct Header {
    pub name: String,
    pub value: String,
}

/// What a header holds.
pub struct HeaderView {
    pub name: Seq<char>,
    pub value: Seq<char>,
}

impl View for Header {
    type V = HeaderView;

    open spec fn view(&self) -> HeaderView {
        HeaderView { name: self.name@, value: self.value@ }
    }
}

/// What each header of a list holds, in the same order.
pub open spec fn headers_view(headers: Seq<Header>) -> Seq<HeaderView> {
    headers.map_values(|header: Header| header@)
}

/// A protocol definition as the host passed it: the scheme as the bytes of
/// a C string, or nothing where the pointer was null; the handler, which is
/// null where the host gave none; and the user data.
#[derive(Clone, Debug, PartialEq, Eq)]
pub struct ProtocolDefinition {
    pub scheme: Option<Vec<u8>>,
    pub handler: CallbackAddress,
    pub user_data: UserData,
}

/// A protocol that a webview is built with.
#[derive(Clone, Debug, PartialEq, Eq)]
pub struct Protocol {
    pub scheme: String,
    pub handler: CallbackAddress,
    pub user_data: UserData,
}

/// What a protocol holds.
pub struct ProtocolView {
    pub scheme: Seq<char>,
    pub handler: CallbackAddress,
    pub user_data: UserData,
}

impl View for Protocol {
    type V = ProtocolView;

    open spec fn view(&self) -> ProtocolView {
        ProtocolView { scheme: self.scheme@, handler: self.handler, user_data: self.user_data }
    }
}

/// The bytes of a C string that may be null.
pub open spec fn optional_bytes(bytes: Option<Vec<u8>>) -> Option<Seq<u8>> {
    match bytes {
        Some(given) => Some(given@),
        None => None,
    }
}

/// Whether a definition can be used: it has a handler, and its scheme is a
/// text.
pub open spec fn usable_definition(definition: ProtocolDefinition) -> bool {
    definition.handler != NULL_HANDLE && definition.scheme is Some && valid_utf8(
        definition.scheme->0@,
    )
}

/// The protocols that a list of definitions gives: one for each usable
/// definition, in the order of the list.
pub open spec fn usable_protocols(definitions: Seq<ProtocolDefinition>) -> Seq<ProtocolView>
    decreases definitions.len(),
{
    if definitions.len() == 0 {
        seq![]
    } else {
        let earlier = usable_protocols(definitions.drop_last());
        let last = definitions.last();
        if usable_definition(last) {
            earlier.push(
                ProtocolView {
                    scheme: decode_utf8(last.scheme->0@),
                    handler: last.handler,
                    user_data: last.user_data,
                },
            )
        } else {
            earlier
        }
    }
}

fn as_slice(bytes: &Option<Vec<u8>>) -> (slice: Option<&[u8]>)
    ensures
        match slice {
            Some(given) => bytes is Some && given@ == bytes->0@,
            None => bytes is None,
        },
{
    match bytes {
        Some(given) => Some(given.as_slice()),
        None => None,
    }
}

/// Picks the protocols to build a webview with out of what the host passed.
/// A definition without a handler, or whose scheme is null or not UTF-8, is
/// passed over.
pub fn protocols_from_definitions(definitions: &Vec<ProtocolDefinition>) -> (protocols: Vec<
    Protocol,
>)
    ensures
        protocols@.map_values(|protocol: Protocol| protocol@) == usable_protocols(definitions@),
{
    let mut protocols: Vec<Protocol> = Vec::new();
    let mut index: usize = 0;
    while index < definitions.len()
        invariant
            index <= definitions.len(),
            protocols@.map_values(|protocol: Protocol| protocol@) == usable_protocols(
                definitions@.take(index as int),
            ),
        decreases definitions.len() - index,
    {
        let definition = &definitions[index];
        let ghost before = protocols@.map_values(|protocol: Protocol| protocol@);
        proof {
            assert(definitions@.take(index + 1).drop_last() =~= definitions@.take(index as int));
            assert(definitions@.take(index + 1).last() == definitions@[index as int]);
        }
        if definition.handler != NULL_HANDLE {
            if let Some(scheme) = c_str_to_string(as_slice(&definition.scheme)) {
                let protocol = Protocol {
                    scheme,
                    handler: definition.handler,
                    user_data: definition.user_data,
                };
                protocols.push(protocol);
                assert(protocols@.map_values(|protocol: Protocol| protocol@) =~= before.push(
                    protocol@,
                ));
            }
        }
        index += 1;
    }
    assert(definitions@.take(index as int) =~= definitions@);
    protocols
}

/// A message from web content on its way to the host's handler.
#[derive(Clone, Debug, PartialEq, Eq)]
pub struct IpcCall {
    pub handler: CallbackAddress,
    pub url: String,
    pub message: String,
    pub user_data: UserData,
}

/// What an IPC call holds.
pub struct IpcCallView {
    pub handler: CallbackAddress,
    pub url: Seq<char>,
    pub message: Seq<char>,
    pub user_data: UserData,
}

impl View for IpcCall {
    type V = IpcCallView;

    open spec fn view(&self) -> IpcCallView {
        IpcCallView {
            handler: self.handler,
            url: self.url@,
            message: self.message@,
            user_data: self.user_data,
        }
    }
}

/// The call that hands a message from web content to the host: the page's
/// address and the message, both as they came. A message cannot travel if it
/// or the address holds a zero character; then no call is made.
pub fn ipc_call(handler: StoredCallback, url: &str, message: &str) -> (call: Option<IpcCall>)
    ensures
        call is Some <==> !url@.contains('\0') && !message@.contains('\0'),
        call matches Some(made) ==> made@ == (IpcCallView {
            handler: handler.callback,
            url: url@,
            message: message@,
            user_data: handler.user_data,
        }),
{
    if has_nul(url) || has_nul(message) {
        None
    } else {
        Some(
            IpcCall {
                handler: handler.callback,
                url: url.to_owned(),
                message: message.to_owned(),
                user_data: handler.user_data,
            },
        )
    }
}

/// A request for a custom scheme, as the webview hands it over. A header
/// whose value is not visible ASCII has no value here.
#[derive(Clone, Debug, PartialEq, Eq)]
pub struct ProtocolRequest {
    pub url: String,
    pub method: String,
    pub headers: Vec<(String, Option<String>)>,
    pub webview_id: String,
}

/// What the host's handler is shown of a request.
#[derive(Clone, Debug, PartialEq, Eq)]
pub struct HandlerRequest {
    pub url: String,
    pub method: String,
    pub headers: Vec<Header>,
    pub webview_id: String,
}

/// What a request to the handler holds.
pub struct HandlerRequestView {
    pub url: Seq<char>,
    pub method: Seq<char>,
    pub headers: Seq<HeaderView>,
    pub webview_id: Seq<char>,
}

impl View for HandlerRequest {
    type V = HandlerRequestView;

    open spec fn view(&self) -> HandlerRequestView {
        HandlerRequestView {
            url: self.url@,
            method: self.method@,
            headers: headers_view(self.headers@),
            webview_id: self.webview_id@,
        }
    }
}

/// Status of the response to a request that cannot travel to the handler.
pub const STATUS_BAD_REQUEST: u16 = 400;

/// Status of the response to a request that the handler did not take.
pub const STATUS_NOT_FOUND: u16 = 404;

/// Status of the response where the handler named none, or none that is a
/// status.
pub const STATUS_OK: u16 = 200;

/// Status of the response that stands in where the response could not be
/// built.
pub const STATUS_INTERNAL_SERVER_ERROR: u16 = 500;

/// The header that a request header becomes for the handler, if it can
/// travel: it needs a value, and neither name nor value may hold a zero
/// character.
pub open spec fn travelling_header(header: (String, Option<String>)) -> Option<HeaderView> {
    if header.1 is Some && !header.0@.contains('\0') && !header.1->0@.contains('\0') {
        Some(HeaderView { name: header.0@, value: header.1->0@ })
    } else {
        None
    }
}

/// The headers that the handler is shown: those of the request that can
/// travel, in their order.
pub open spec fn travelling_headers(headers: Seq<(String, Option<String>)>) -> Seq<HeaderView>
    decreases headers.len(),
{
    if headers.len() == 0 {
        seq![]
    } else {
        let earlier = travelling_headers(headers.drop_last());
        match travelling_header(headers.last()) {
            Some(header) => earlier.push(header),
            None => earlier,
        }
    }
}

/// The identifier of the webview as the handler sees it: the identifier, or
/// an empty text where it holds a zero character.
pub open spec fn travelling_webview_id(webview_id: Seq<char>) -> Seq<char> {
    if webview_id.contains('\0') {
        Seq::empty()
    } else {
        webview_id
    }
}

/// Decides what the handler is shown of a request. A request whose address
/// or method holds a zero character cannot travel: it is answered with
/// status 400 and the handler is not called.
pub fn prepare_request(request: &ProtocolRequest) -> (prepared: Result<HandlerRequest, u16>)
    ensures
        prepared is Ok <==> !request.url@.contains('\0') && !request.method@.contains('\0'),
        prepared matches Ok(shown) ==> shown@ == (HandlerRequestView {
            url: request.url@,
            method: request.method@,
            headers: travelling_headers(request.headers@),
            webview_id: travelling_webview_id(request.webview_id@),
        }),
        prepared matches Err(status) ==> status == STATUS_BAD_REQUEST,
{
    if has_nul(request.url.as_str()) || has_nul(request.method.as_str()) {
        return Err(STATUS_BAD_REQUEST);
    }
    let webview_id = if has_nul(request.webview_id.as_str()) {
        String::new()
    } else {
        request.webview_id.clone()
    };
    let mut headers: Vec<Header> = Vec::new();
    let mut index: usize = 0;
    while index < request.headers.len()
        invariant
            index <= request.headers.len(),
            headers_view(headers@) == travelling_headers(request.headers@.take(index as int)),
        decreases request.headers.len() - index,
    {
        let ghost before = headers_view(headers@);
        proof {
            assert(request.headers@.take(index + 1).drop_last() =~= request.headers@.take(
                index as int,
            ));
            assert(request.headers@.take(index + 1).last() == request.headers@[index as int]);
        }
        let name = &request.headers[index].0;
        if let Some(value) = &request.headers[index].1 {
            if !has_nul(name.as_str()) && !has_nul(value.as_str()) {
                let header = Header { name: name.clone(), value: value.clone() };
                headers.push(header);
                assert(headers_view(headers@) =~= before.push(header@));
            }
        }
        index += 1;
    }
    assert(request.headers@.take(index as int) =~= request.headers@);
    Ok(
        HandlerRequest {
            url: request.url.clone(),
            method: request.method.clone(),
            headers,
            webview_id,
        },
    )
}

/// What the host's handler filled in. Texts are the bytes of C strings, or
/// nothing where the pointer was null.
#[derive(Clone, Debug, PartialEq, Eq)]
pub struct HandlerResponse {
    pub status: u16,
    pub mime_type: Option<Vec<u8>>,
    pub headers: Vec<(Option<Vec<u8>>, Option<Vec<u8>>)>,
    pub body: Vec<u8>,
    /// The function that releases what the handler allocated for the
    /// response, if it named one.
    pub free: Option<StoredCallback>,
}

/// The response that goes back to the webview.
#[derive(Clone, Debug, PartialEq, Eq)]
pub struct HttpResponse {
    pub status: u16,
    pub headers: Vec<Header>,
    pub body: Vec<u8>,
}

/// What the library answers, and what is to be cleaned up afterwards.
#[derive(Clone, Debug, PartialEq, Eq)]
pub struct ResponsePlan {
    pub response: HttpResponse,
    /// The release function to call once the response has been sent.
    pub free: Option<StoredCallback>,
}

/// The name under which `http` keeps a header of this name, if it takes the
/// name at all.
pub uninterp spec fn header_name_of(name: Seq<char>) -> Option<Seq<char>>;

/// `http::header::HeaderName::from_bytes`, and `as_str` on what it gives.
#[verifier::external_body]
fn header_name(name: &str) -> (kept: Option<String>)
    ensures
        optional_text(kept) == header_name_of(name@),
{
    match http::header::HeaderName::from_bytes(name.as_bytes()) {
        Ok(parsed) => Some(parsed.as_str().to_owned()),
        Err(_) => None,
    }
}

/// The characters of a text that may be absent.
pub open spec fn optional_text(text: Option<String>) -> Option<Seq<char>> {
    match text {
        Some(present) => Some(present@),
        None => None,
    }
}

/// Whether a byte may stand in a header value: anything from the space on
/// except the delete character, and the tab.
pub open spec fn header_value_byte(byte: u8) -> bool {
    byte >= 32 && byte != 127 || byte == 9
}

/// Whether `http` takes a text as a header value: it does if every byte of
/// the text may stand in one.
pub open spec fn header_value_ok(value: Seq<char>) -> bool {
    forall|i: int|
        0 <= i < vstd::utf8::encode_utf8(value).len() ==> header_value_byte(
            #[trigger] vstd::utf8::encode_utf8(value)[i],
        )
}

/// `http::header::HeaderValue::from_str`: whether it takes the text.
#[verifier::external_body]
fn header_value_accepted(value: &str) -> (accepted: bool)
    ensures
        accepted == header_value_ok(value@),
{
    http::header::HeaderValue::from_str(value).is_ok()
}

/// Whether a number is an HTTP status: it is if it has three digits.
pub open spec fn valid_status(status: u16) -> bool {
    100 <= status <= 999
}

/// `http::StatusCode::from_u16`: whether it takes the number.
#[verifier::external_body]
fn status_accepted(status: u16) -> (accepted: bool)
    ensures
        accepted == valid_status(status),
{
    http::StatusCode::from_u16(status).is_ok()
}

/// The status of the response: the handler's, or 200 where the handler left
/// it at zero or named a number that is no status.
pub open spec fn response_status(status: u16) -> u16 {
    if valid_status(status) {
        status
    } else {
        STATUS_OK
    }
}

/// The content type header that a response gets from the handler's MIME
/// type, if the type is a text that may stand in a header.
pub open spec fn content_type_header(mime_type: Option<Seq<u8>>) -> Option<HeaderView> {
    if mime_type is Some && valid_utf8(mime_type->0) && header_value_ok(decode_utf8(mime_type->0)) {
        Some(HeaderView { name: "content-type"@, value: decode_utf8(mime_type->0) })
    } else {
        None
    }
}

/// The header that a response gets from a header of the handler: name and
/// value must both be there, both be UTF-8, and both be taken by `http`.
pub open spec fn response_header(header: (Option<Vec<u8>>, Option<Vec<u8>>)) -> Option<HeaderView> {
    if header.0 is Some && header.1 is Some && valid_utf8(header.0->0@) && valid_utf8(header.1->0@)
        && header_name_of(decode_utf8(header.0->0@)) is Some && header_value_ok(
        decode_utf8(header.1->0@),
    ) {
        Some(
            HeaderView {
                name: header_name_of(decode_utf8(header.0->0@))->0,
                value: decode_utf8(header.1->0@),
            },
        )
    } else {
        None
    }
}

/// `headers`, and after them the response headers that the handler's
/// headers give, in their order. A header that gives none is passed over.
pub open spec fn with_response_headers(
    headers: Seq<HeaderView>,
    given: Seq<(Option<Vec<u8>>, Option<Vec<u8>>)>,
) -> Seq<HeaderView>
    decreases given.len(),
{
    if given.len() == 0 {
        headers
    } else {
        let earlier = with_response_headers(headers, given.drop_last());
        match response_header(given.last()) {
            Some(header) => earlier.push(header),
            None => earlier,
        }
    }
}

/// The headers of the response to a request that the handler took: the
/// content type first, if there is one, then the handler's headers.
pub open spec fn planned_headers(response: HandlerResponse) -> Seq<HeaderView> {
    with_response_headers(
        match content_type_header(optional_bytes(response.mime_type)) {
            Some(header) => seq![header],
            None => seq![],
        },
        response.headers@,
    )
}

/// Decides the response to a request, from what the handler said. A request
/// that the handler did not take is answered with status 404 and nothing is
/// released. Otherwise the response has the handler's status, headers and
/// body, as far as they are valid, and what the handler allocated is to be
/// released after the response has been sent.
pub fn plan_response(handled: bool, response: &HandlerResponse) -> (plan: ResponsePlan)
    ensures
        !handled ==> plan.response.status == STATUS_NOT_FOUND && plan.response.headers@.len() == 0
            && plan.response.body@.len() == 0 && plan.free is None,
        handled ==> plan.response.status == response_status(response.status) && headers_view(
            plan.response.headers@,
        ) == planned_headers(*response) && plan.response.body@ == response.body@ && plan.free
            == response.free,
{
    if !handled {
        return ResponsePlan {
            response: HttpResponse {
                status: STATUS_NOT_FOUND,
                headers: Vec::new(),
                body: Vec::new(),
            },
            free: None,
        };
    }
    let status = if status_accepted(response.status) {
        response.status
    } else {
        STATUS_OK
    };
    let mut headers: Vec<Header> = Vec::new();
    if let Some(mime_type) = c_str_to_string(as_slice(&response.mime_type)) {
        if header_value_accepted(mime_type.as_str()) {
            let header = Header { name: "content-type".to_owned(), value: mime_type };
            headers.push(header);
            assert(headers_view(headers@) =~= seq![header@]);
        }
    }
    assert(headers_view(headers@) =~= match content_type_header(
        optional_bytes(response.mime_type),
    ) {
        Some(header) => seq![header],
        None => seq![],
    });
    let ghost first = headers_view(headers@);
    let mut index: usize = 0;
    while index < response.headers.len()
        invariant
            index <= response.headers.len(),
            headers_view(headers@) == with_response_headers(
                first,
                response.headers@.take(index as int),
            ),
        decreases response.headers.len() - index,
    {
        let ghost before = headers_view(headers@);
        proof {
            assert(response.headers@.take(index + 1).drop_last() =~= response.headers@.take(
                index as int,
            ));
            assert(response.headers@.take(index + 1).last() == response.headers@[index as int]);
        }
        let given = &response.headers[index];
        if let Some(name) = c_str_to_string(as_slice(&given.0)) {
            if let Some(value) = c_str_to_string(as_slice(&given.1)) {
                if let Some(kept) = header_name(name.as_str()) {
                    if header_value_accepted(value.as_str()) {
                        let header = Header { name: kept, value };
                        headers.push(header);
                        assert(headers_view(headers@) =~= before.push(header@));
                    }
                }
            }
        }
        index += 1;
    }
    assert(response.headers@.take(index as int) =~= response.headers@);
    ResponsePlan {
        response: HttpResponse { status, headers, body: response.body.clone() },
        free: response.free,
    }
}

/// The address that `url` parses to an absolute URL as, written the way the
/// `url` crate writes it, or nothing where the text is no absolute URL.
pub uninterp spec fn parsed_url(text: Seq<char>) -> Option<Seq<char>>;

/// `url::Url::parse`, and the conversion of the parsed address to a text.
#[verifier::external_body]
fn parse_url(text: &str) -> (parsed: Option<String>)
    ensures
        optional_text(parsed) == parsed_url(text@),
{
    match url::Url::parse(text) {
        Ok(address) => Some(address.into()),
        Err(_) => None,
    }
}

/// The address that a webview is sent to, given what the host passed: the
/// bytes of a C string, or nothing for a null pointer. There is no address,
/// and no navigation, where the pointer is null, the bytes are not UTF-8, or
/// the text is no absolute URL.
pub open spec fn navigation_address(url: Option<Seq<u8>>) -> Option<Seq<char>> {
    if url is Some && valid_utf8(url->0) {
        parsed_url(decode_utf8(url->0))
    } else {
        None
    }
}

/// Decides the address for a navigation request.
pub fn navigation_target(url: Option<&[u8]>) -> (target: Option<String>)
    ensures
        optional_text(target) == navigation_address(
            match url {
                Some(bytes) => Some(bytes@),
                None => None,
            },
        ),
{
    match c_str_to_string(url) {
        Some(text) => parse_url(text.as_str()),
        None => None,
    }
}

} // verus!
