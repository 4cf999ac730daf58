//! Queries against the service URL of one ONVIF device.

use vstd::prelude::*;
use vstd::string::*;
use crate::discovery::xml::XPathValue;
use crate::discovery::xml::XPathValueView;
use crate::discovery::xml::xpath_value;
use crate::discovery::xml::evaluate_xpath;
use crate::discovery::xml::parse_xml;
use crate::discovery::xml::parses_as_xml;
use crate::discovery::xml::has_quote;
use crate::discovery::xml::is_document_of;
use crate::discovery::xml::service_xpath_of;
use crate::discovery::xml::IP_ADDRESS_XPATH;
use crate::discovery::xml::MAC_ADDRESS_XPATH;
use crate::discovery::xml::PROFILES_XPATH;
use crate::discovery::xml::SCOPES_XPATH;
use crate::discovery::xml::SERVICE_XPATH_HEAD;
use crate::discovery::xml::SERVICE_XPATH_TAIL;
use crate::discovery::xml::STREAM_URI_XPATH;
use crate::text::str_contains;

verus! {

/// The property that carries the address of the device service.
pub const ONVIF_DEVICE_SERVICE_URL_LABEL_ID: &'static str = "ONVIF_DEVICE_SERVICE_URL";

/// The property that carries the IP address of the camera.
pub const ONVIF_DEVICE_IP_ADDRESS_LABEL_ID: &'static str = "ONVIF_DEVICE_IP_ADDRESS";

/// The property that carries the MAC address of the camera.
pub const ONVIF_DEVICE_MAC_ADDRESS_LABEL_ID: &'static str = "ONVIF_DEVICE_MAC_ADDRESS";

/// The namespace of the ONVIF media service.
pub const MEDIA_WSDL: &'static str = "http://www.onvif.org/ver10/media/wsdl";

/// The namespace of the ONVIF device service.
pub const DEVICE_WSDL: &'static str = "http://www.onvif.org/ver10/device/wsdl";

/// Why a query against a device gave no answer.
#[derive(Clone, Copy, Debug, PartialEq, Eq, Structural)]
pub enum QueryError {
    /// The request could not be delivered, or no response came back.
    Transport,
    /// The device answered with a status other than 200.
    Status,
    /// The response body is not well-formed XML.
    MalformedXml,
    /// The XPath expression could not be evaluated on the response.
    XPath,
    /// The response holds none of the elements asked for.
    NoneSpecified,
    /// The XPath value is of a kind that cannot hold the answer.
    UnexpectedType,
    /// The namespace of the service asked for holds a quote character, and
    /// no XPath expression can name it.
    ServiceName,
}

/// The texts of an answer that holds one text.
pub open spec fn text_view(answer: Result<String, QueryError>) -> Result<Seq<char>, QueryError> {
    match answer {
        Ok(text) => Ok(text@),
        Err(e) => Err(e),
    }
}

/// The texts of an answer that holds a list of texts.
pub open spec fn texts_view(answer: Result<Vec<String>, QueryError>) -> Result<
    Seq<Seq<char>>,
    QueryError,
> {
    match answer {
        Ok(texts) => Ok(texts.deep_view()),
        Err(e) => Err(e),
    }
}

/// The texts of an answer that holds a pair of texts.
pub open spec fn pair_view(answer: Result<(String, String), QueryError>) -> Result<
    (Seq<char>, Seq<char>),
    QueryError,
> {
    match answer {
        Ok((first, second)) => Ok((first@, second@)),
        Err(e) => Err(e),
    }
}

/// Access to the properties of ONVIF cameras, by device service URL.
///
/// Each query comes with a relation that says which answers the
/// implementation may give to it, and whatever a query returns is in its
/// relation. An implementation that states no relation of its own keeps the
/// one given here, which admits every answer: nothing is taken for granted
/// of such an implementation.
pub trait OnvifQuery {
    /// Whether `answer` may be given for the addresses of the camera at
    /// `service_url`.
    open spec fn reports_ip_and_mac(
        &self,
        service_url: Seq<char>,
        answer: Result<(Seq<char>, Seq<char>), QueryError>,
    ) -> bool {
        true
    }

    /// Whether `answer` may be given for the scopes of the camera at `url`.
    open spec fn reports_scopes(
        &self,
        url: Seq<char>,
        answer: Result<Seq<Seq<char>>, QueryError>,
    ) -> bool {
        true
    }

    /// Whether `answer` may be given for the address of `service` of the
    /// camera at `url`.
    open spec fn reports_service_uri(
        &self,
        url: Seq<char>,
        service: Seq<char>,
        answer: Result<Seq<char>, QueryError>,
    ) -> bool {
        true
    }

    /// Whether `answer` may be given for the profiles of the camera at `url`.
    open spec fn reports_profiles(
        &self,
        url: Seq<char>,
        answer: Result<Seq<Seq<char>>, QueryError>,
    ) -> bool {
        true
    }

    /// Whether `answer` may be given for the streaming address of the
    /// profile `profile_token` of the camera at `url`.
    open spec fn reports_streaming_uri(
        &self,
        url: Seq<char>,
        profile_token: Seq<char>,
        answer: Result<Seq<char>, QueryError>,
    ) -> bool {
        true
    }

    /// The IP and MAC address of the camera.
    fn get_device_ip_and_mac_address(&self, service_url: &str) -> (answer: Result<
        (String, String),
        QueryError,
    >)
        ensures
            self.reports_ip_and_mac(service_url@, pair_view(answer)),
    ;

    /// The scopes of the camera.
    fn get_device_scopes(&self, url: &str) -> (answer: Result<Vec<String>, QueryError>)
        ensures
            self.reports_scopes(url@, texts_view(answer)),
    ;

    /// The address of one service of the camera, such as media.
    fn get_device_service_uri(&self, url: &str, service: &str) -> (answer: Result<
        String,
        QueryError,
    >)
        ensures
            self.reports_service_uri(url@, service@, text_view(answer)),
    ;

    /// The tokens of the streaming profiles of the camera.
    fn get_device_profiles(&self, url: &str) -> (answer: Result<Vec<String>, QueryError>)
        ensures
            self.reports_profiles(url@, texts_view(answer)),
    ;

    /// The streaming address of one profile of the camera.
    fn get_device_profile_streaming_uri(&self, url: &str, profile_token: &str) -> (answer: Result<
        String,
        QueryError,
    >)
        ensures
            self.reports_streaming_uri(url@, profile_token@, text_view(answer)),
    ;
}

/// SOAP request body that asks a camera for its network interfaces.
pub const GET_NETWORK_INTERFACES_TEMPLATE: &'static str = r#"<soap:Envelope xmlns:soap="http://www.w3.org/2003/05/soap-envelope" xmlns:wsdl="http://www.onvif.org/ver10/device/wsdl">
    <soap:Header/>
        <soap:Body>
            <wsdl:GetNetworkInterfaces/>
        </soap:Body>
    </soap:Envelope>"#;

/// SOAP request body that asks a camera for its scopes.
pub const GET_SCOPES_TEMPLATE: &'static str = r#"<soap:Envelope xmlns:soap="http://www.w3.org/2003/05/soap-envelope" xmlns:wsdl="http://www.onvif.org/ver10/device/wsdl">
    <soap:Header/>
        <soap:Body>
            <wsdl:GetScopes/>
        </soap:Body>
    </soap:Envelope>"#;

/// SOAP request body that asks a camera for the addresses of its services.
pub const GET_SERVICES_TEMPLATE: &'static str = r#"<soap:Envelope xmlns:soap="http://www.w3.org/2003/05/soap-envelope" xmlns:wsdl="http://www.onvif.org/ver10/device/wsdl">
    <soap:Header/>
        <soap:Body>
            <wsdl:GetServices />
        </soap:Body>
    </soap:Envelope>"#;

/// SOAP request body that asks a camera for its media profiles.
pub const GET_PROFILES_TEMPLATE: &'static str = r#"<soap:Envelope xmlns:soap="http://www.w3.org/2003/05/soap-envelope" xmlns:wsdl="http://www.onvif.org/ver10/media/wsdl">
    <soap:Header/>
        <soap:Body>
            <wsdl:GetProfiles/>
        </soap:Body>
    </soap:Envelope>"#;

/// What precedes the profile token in the request for a streaming address.
pub const GET_STREAM_URI_HEAD: &'static str = r#"<soap:Envelope xmlns:soap="http://www.w3.org/2003/05/soap-envelope" xmlns:wsdl="http://www.onvif.org/ver10/media/wsdl" xmlns:sch="http://www.onvif.org/ver10/schema">
            <soap:Header/>
            <soap:Body>
                <wsdl:GetStreamUri>
                <wsdl:StreamSetup>
                    <sch:Stream>RTP-Unicast</sch:Stream>
                    <sch:Transport>
                        <sch:Protocol>RTSP</sch:Protocol>
                    </sch:Transport>
                </wsdl:StreamSetup>
                <wsdl:ProfileToken>"#;

/// What follows the profile token in the request for a streaming address.
pub const GET_STREAM_URI_TAIL: &'static str = r#"</wsdl:ProfileToken>
                </wsdl:GetStreamUri>
            </soap:Body>
        </soap:Envelope>;"#;

/// What a value of an XPath expression, or the lack of one, says where a
/// single text is asked for: a string is the text, a node set gives its first
/// node, and no other kind of value can hold the answer.
pub open spec fn single_text(value: Option<XPathValueView>) -> Result<Seq<char>, QueryError> {
    match value {
        None => Err(QueryError::XPath),
        Some(XPathValueView::String(text)) => Ok(text),
        Some(XPathValueView::Nodeset(texts)) => if texts.len() > 0 {
            Ok(texts[0])
        } else {
            Err(QueryError::NoneSpecified)
        },
        Some(XPathValueView::Boolean(_)) => Err(QueryError::UnexpectedType),
        Some(XPathValueView::Number(_)) => Err(QueryError::UnexpectedType),
    }
}

/// What a value says where a list of texts is asked for: only a node set
/// holds one.
pub open spec fn text_list(value: Option<XPathValueView>) -> Result<Seq<Seq<char>>, QueryError> {
    match value {
        None => Err(QueryError::XPath),
        Some(XPathValueView::Nodeset(texts)) => Ok(texts),
        Some(_) => Err(QueryError::UnexpectedType),
    }
}

/// The text that XPath's string conversion gives a value: a boolean by its
/// name, a node set by its first node, or the empty text if it has none.
pub open spec fn string_form(value: XPathValueView) -> Seq<char> {
    match value {
        XPathValueView::Boolean(truth) => if truth {
            "true"@
        } else {
            "false"@
        },
        XPathValueView::Number(text) => text,
        XPathValueView::String(text) => text,
        XPathValueView::Nodeset(texts) => if texts.len() > 0 {
            texts[0]
        } else {
            Seq::empty()
        },
    }
}

/// What a value says where its string form is asked for.
pub open spec fn converted_text(value: Option<XPathValueView>) -> Result<Seq<char>, QueryError> {
    match value {
        None => Err(QueryError::XPath),
        Some(v) => Ok(string_form(v)),
    }
}

/// The view of the outcome of an evaluation.
pub open spec fn outcome_view(outcome: Result<XPathValue, sxd_xpath::Error>) -> Option<
    XPathValueView,
> {
    match outcome {
        Ok(v) => Some(v@),
        Err(_) => None,
    }
}

/// Reads a single text out of the outcome of an evaluation.
pub fn first_text(outcome: Result<XPathValue, sxd_xpath::Error>) -> (text: Result<
    String,
    QueryError,
>)
    ensures
        text_view(text) == single_text(outcome_view(outcome)),
{
    match outcome {
        Ok(XPathValue::String(text)) => Ok(text),
        Ok(XPathValue::Nodeset(texts)) => {
            if texts.len() > 0 {
                assert(texts.deep_view()[0] == texts@[0]@);
                Ok(texts[0].clone())
            } else {
                Err(QueryError::NoneSpecified)
            }
        },
        Ok(XPathValue::Boolean(_)) => Err(QueryError::UnexpectedType),
        Ok(XPathValue::Number(_)) => Err(QueryError::UnexpectedType),
        Err(_) => Err(QueryError::XPath),
    }
}

/// Reads a list of texts out of the outcome of an evaluation.
pub fn all_texts(outcome: Result<XPathValue, sxd_xpath::Error>) -> (texts: Result<
    Vec<String>,
    QueryError,
>)
    ensures
        texts_view(texts) == text_list(outcome_view(outcome)),
{
    match outcome {
        Ok(XPathValue::Nodeset(texts)) => Ok(texts),
        Ok(XPathValue::Boolean(_)) => Err(QueryError::UnexpectedType),
        Ok(XPathValue::Number(_)) => Err(QueryError::UnexpectedType),
        Ok(XPathValue::String(_)) => Err(QueryError::UnexpectedType),
        Err(_) => Err(QueryError::XPath),
    }
}

/// Reads the string form out of the outcome of an evaluation.
pub fn text_of(outcome: Result<XPathValue, sxd_xpath::Error>) -> (text: Result<String, QueryError>)
    ensures
        text_view(text) == converted_text(outcome_view(outcome)),
{
    match outcome {
        Ok(XPathValue::Boolean(truth)) => {
            if truth {
                Ok(String::from_str("true"))
            } else {
                Ok(String::from_str("false"))
            }
        },
        Ok(XPathValue::Number(text)) => Ok(text),
        Ok(XPathValue::String(text)) => Ok(text),
        Ok(XPathValue::Nodeset(texts)) => {
            if texts.len() > 0 {
                assert(texts.deep_view()[0] == texts@[0]@);
                Ok(texts[0].clone())
            } else {
                Ok(String::new())
            }
        },
        Err(_) => Err(QueryError::XPath),
    }
}

/// The SOAP action parameter of the content type, for one operation of a
/// service.
pub open spec fn action_of(wsdl: Seq<char>, function: Seq<char>) -> Seq<char> {
    "action=\""@ + wsdl + "/"@ + function + "\""@
}

/// Creates a SOAP mime action.
pub fn get_action(wsdl: &str, function: &str) -> (action: String)
    ensures
        action@ == action_of(wsdl@, function@),
{
    let mut action = String::from_str("action=\"");
    action.append(wsdl);
    action.append("/");
    action.append(function);
    action.append("\"");
    action
}

/// The SOAP request body that asks for the streaming address of a profile.
pub open spec fn stream_uri_message_of(profile: Seq<char>) -> Seq<char> {
    GET_STREAM_URI_HEAD@ + profile + GET_STREAM_URI_TAIL@
}

/// Gets the SOAP request body for the streaming address of one profile.
pub fn get_stream_uri_message(profile: &str) -> (message: String)
    ensures
        message@ == stream_uri_message_of(profile@),
{
    let mut message = String::from_str(GET_STREAM_URI_HEAD);
    message.append(profile);
    message.append(GET_STREAM_URI_TAIL);
    message
}

/// Gets the XPath expression for the address of one service.
pub fn get_service_xpath(service: &str) -> (xpath: String)
    ensures
        xpath@ == service_xpath_of(service@),
{
    let mut xpath = String::from_str(SERVICE_XPATH_HEAD);
    xpath.append(service);
    xpath.append(SERVICE_XPATH_TAIL);
    xpath
}

/// The addresses that a response to `GetNetworkInterfaces` holds: both
/// texts, or the error of the IP address, or else that of the MAC address.
pub open spec fn ip_and_mac_of(
    ip: Result<Seq<char>, QueryError>,
    mac: Result<Seq<char>, QueryError>,
) -> Result<(Seq<char>, Seq<char>), QueryError> {
    match ip {
        Err(e) => Err(e),
        Ok(ip_address) => match mac {
            Err(e) => Err(e),
            Ok(mac_address) => Ok((ip_address, mac_address)),
        },
    }
}

/// The IP and MAC address that a response to `GetNetworkInterfaces` holds.
pub open spec fn ip_and_mac_in(document: sxd_document::Package) -> Result<
    (Seq<char>, Seq<char>),
    QueryError,
> {
    ip_and_mac_of(
        single_text(xpath_value(document, IP_ADDRESS_XPATH@)),
        single_text(xpath_value(document, MAC_ADDRESS_XPATH@)),
    )
}

/// The scopes that a response to `GetScopes` holds.
pub open spec fn scopes_in(document: sxd_document::Package) -> Result<Seq<Seq<char>>, QueryError> {
    text_list(xpath_value(document, SCOPES_XPATH@))
}

/// The address of the service with namespace `service` that a response to
/// `GetServices` holds. A namespace with a quote character cannot be asked
/// for.
pub open spec fn service_uri_in(document: sxd_document::Package, service: Seq<char>) -> Result<
    Seq<char>,
    QueryError,
> {
    if has_quote(service) {
        Err(QueryError::ServiceName)
    } else {
        converted_text(xpath_value(document, service_xpath_of(service)))
    }
}

/// The profile tokens that a response to `GetProfiles` holds.
pub open spec fn profiles_in(document: sxd_document::Package) -> Result<
    Seq<Seq<char>>,
    QueryError,
> {
    text_list(xpath_value(document, PROFILES_XPATH@))
}

/// The streaming address that a response to `GetStreamUri` holds.
pub open spec fn stream_uri_in(document: sxd_document::Package) -> Result<Seq<char>, QueryError> {
    converted_text(xpath_value(document, STREAM_URI_XPATH@))
}

/// Reads the IP and MAC address out of a response to `GetNetworkInterfaces`.
pub fn ip_and_mac_from_response(network_interfaces_xml: &sxd_document::Package) -> (addresses:
    Result<(String, String), QueryError>)
    ensures
        pair_view(addresses) == ip_and_mac_in(*network_interfaces_xml),
{
    let ip_address = match first_text(evaluate_xpath(network_interfaces_xml, IP_ADDRESS_XPATH)) {
        Ok(ip) => ip,
        Err(e) => {
            return Err(e);
        },
    };
    let mac_address = match first_text(evaluate_xpath(network_interfaces_xml, MAC_ADDRESS_XPATH)) {
        Ok(mac) => mac,
        Err(e) => {
            return Err(e);
        },
    };
    Ok((ip_address, mac_address))
}

/// Reads the scopes out of a response to `GetScopes`.
pub fn scopes_from_response(scopes_xml: &sxd_document::Package) -> (scopes: Result<
    Vec<String>,
    QueryError,
>)
    ensures
        texts_view(scopes) == scopes_in(*scopes_xml),
{
    all_texts(evaluate_xpath(scopes_xml, SCOPES_XPATH))
}

/// Reads the address of the service with namespace `service` out of a
/// response to `GetServices`. A namespace with a quote character is turned
/// away before anything is evaluated.
pub fn service_uri_from_response(services_xml: &sxd_document::Package, service: &str) -> (uri:
    Result<String, QueryError>)
    ensures
        text_view(uri) == service_uri_in(*services_xml, service@),
{
    if str_contains(service, "'") {
        return Err(QueryError::ServiceName);
    }
    let service_xpath_query = get_service_xpath(service);
    text_of(evaluate_xpath(services_xml, service_xpath_query.as_str()))
}

/// Reads the profile tokens out of a response to `GetProfiles`.
pub fn profiles_from_response(profiles_xml: &sxd_document::Package) -> (profiles: Result<
    Vec<String>,
    QueryError,
>)
    ensures
        texts_view(profiles) == profiles_in(*profiles_xml),
{
    all_texts(evaluate_xpath(profiles_xml, PROFILES_XPATH))
}

/// Reads the streaming address out of a response to `GetStreamUri`.
pub fn stream_uri_from_response(stream_uri_xml: &sxd_document::Package) -> (uri: Result<
    String,
    QueryError,
>)
    ensures
        text_view(uri) == stream_uri_in(*stream_uri_xml),
{
    text_of(evaluate_xpath(stream_uri_xml, STREAM_URI_XPATH))
}

/// The capability to send an HTTP POST and to receive the XML document that
/// answers it.
///
/// The relation `answers` says which responses the implementation may give
/// to a request, and whatever `post` returns is in it. An implementation
/// that states no relation of its own keeps the one given here, which admits
/// every response: nothing is taken for granted of such an implementation.
pub trait Http {
    /// Whether `response` may be given to the request with this address,
    /// action and body.
    open spec fn answers(
        &self,
        url: Seq<char>,
        mime_action: Seq<char>,
        msg: Seq<char>,
        response: Result<sxd_document::Package, QueryError>,
    ) -> bool {
        true
    }

    /// Sends `msg` to `url` under the SOAP action `mime_action`, and hands
    /// back the document that answers it.
    fn post(&self, url: &str, mime_action: &str, msg: &str) -> (response: Result<
        sxd_document::Package,
        QueryError,
    >)
        ensures
            self.answers(url@, mime_action@, msg@, response),
    ;
}

/// What a query makes of the response to its request: the error of a
/// failed request, and else what the document holds.
pub open spec fn read_with<T>(
    response: Result<sxd_document::Package, QueryError>,
    read: spec_fn(sxd_document::Package) -> Result<T, QueryError>,
) -> Result<T, QueryError> {
    match response {
        Err(e) => Err(e),
        Ok(document) => read(document),
    }
}

/// `answer` is what the camera at `service_url` says of its addresses: what
/// the response to a `GetNetworkInterfaces` request holds.
pub open spec fn ip_and_mac_answer<H: Http>(
    http: &H,
    service_url: Seq<char>,
    answer: Result<(Seq<char>, Seq<char>), QueryError>,
) -> bool {
    exists|response: Result<sxd_document::Package, QueryError>|
        #[trigger] http.answers(
            service_url,
            action_of(DEVICE_WSDL@, "GetNetworkInterfaces"@),
            GET_NETWORK_INTERFACES_TEMPLATE@,
            response,
        ) && answer == read_with(response, |d: sxd_document::Package| ip_and_mac_in(d))
}

/// `answer` is what the camera at `url` says of its scopes: what the
/// response to a `GetScopes` request holds.
pub open spec fn scopes_answer<H: Http>(
    http: &H,
    url: Seq<char>,
    answer: Result<Seq<Seq<char>>, QueryError>,
) -> bool {
    exists|response: Result<sxd_document::Package, QueryError>|
        #[trigger] http.answers(
            url,
            action_of(DEVICE_WSDL@, "GetScopes"@),
            GET_SCOPES_TEMPLATE@,
            response,
        ) && answer == read_with(response, |d: sxd_document::Package| scopes_in(d))
}

/// `answer` is what the camera at `url` says of the address of `service`:
/// what the response to a `GetServices` request holds.
pub open spec fn service_uri_answer<H: Http>(
    http: &H,
    url: Seq<char>,
    service: Seq<char>,
    answer: Result<Seq<char>, QueryError>,
) -> bool {
    exists|response: Result<sxd_document::Package, QueryError>|
        #[trigger] http.answers(
            url,
            action_of(DEVICE_WSDL@, "GetServices"@),
            GET_SERVICES_TEMPLATE@,
            response,
        ) && answer == read_with(response, |d: sxd_document::Package| service_uri_in(d, service))
}

/// `answer` is what the camera at `url` says of its profiles: what the
/// response to a `GetProfiles` request holds.
pub open spec fn profiles_answer<H: Http>(
    http: &H,
    url: Seq<char>,
    answer: Result<Seq<Seq<char>>, QueryError>,
) -> bool {
    exists|response: Result<sxd_document::Package, QueryError>|
        #[trigger] http.answers(
            url,
            action_of(MEDIA_WSDL@, "GetProfiles"@),
            GET_PROFILES_TEMPLATE@,
            response,
        ) && answer == read_with(response, |d: sxd_document::Package| profiles_in(d))
}

/// `answer` is what the camera at `url` says of the streaming address of
/// the profile `profile_token`: what the response to a `GetStreamUri`
/// request for that profile holds.
pub open spec fn streaming_uri_answer<H: Http>(
    http: &H,
    url: Seq<char>,
    profile_token: Seq<char>,
    answer: Result<Seq<char>, QueryError>,
) -> bool {
    exists|response: Result<sxd_document::Package, QueryError>|
        #[trigger] http.answers(
            url,
            action_of(MEDIA_WSDL@, "GetStreamUri"@),
            stream_uri_message_of(profile_token),
            response,
        ) && answer == read_with(response, |d: sxd_document::Package| stream_uri_in(d))
}

/// The parts of an HTTP exchange with a camera that need no network.
pub struct HttpRequest {}

/// The content type of a SOAP request with the given action parameter.
pub open spec fn content_type_of(mime_action: Seq<char>) -> Seq<char> {
    "application/soap+xml; charset=utf-8; "@ + mime_action
}

impl HttpRequest {
    /// Converts an HTTP response body into the XML document that it holds.
    pub fn handle_request_body(body: &str) -> (document: Result<sxd_document::Package, QueryError>)
        ensures
            document is Ok <==> parses_as_xml(body@),
            document matches Ok(xml_as_tree) ==> is_document_of(xml_as_tree, body@),
            document matches Err(e) ==> e == QueryError::MalformedXml,
    {
        match parse_xml(body) {
            Ok(xml_as_tree) => Ok(xml_as_tree),
            Err(_) => Err(QueryError::MalformedXml),
        }
    }

    /// The value of the `CONTENT-TYPE` header of a request.
    pub fn content_type(mime_action: &str) -> (full_mime: String)
        ensures
            full_mime@ == content_type_of(mime_action@),
    {
        let mut full_mime = String::from_str("application/soap+xml; charset=utf-8; ");
        full_mime.append(mime_action);
        full_mime
    }

    /// Turns the status and body of a response into the document that the
    /// body holds: any status but 200 is a failure, whatever the body holds.
    pub fn handle_response(status_code: u16, body: &str) -> (document: Result<
        sxd_document::Package,
        QueryError,
    >)
        ensures
            document is Ok <==> status_code == 200 && parses_as_xml(body@),
            document matches Ok(xml_as_tree) ==> is_document_of(xml_as_tree, body@),
            document matches Err(e) ==> e == (if status_code != 200 {
                QueryError::Status
            } else {
                QueryError::MalformedXml
            }),
    {
        if status_code != 200 {
            return Err(QueryError::Status);
        }
        HttpRequest::handle_request_body(body)
    }
}

/// Gets the IP and MAC address of a camera.
fn inner_get_device_ip_and_mac_address<H: Http>(service_url: &str, http: &H) -> (answer: Result<
    (String, String),
    QueryError,
>)
    ensures
        ip_and_mac_answer(http, service_url@, pair_view(answer)),
{
    let action = get_action(DEVICE_WSDL, "GetNetworkInterfaces");
    let response = http.post(service_url, action.as_str(), GET_NETWORK_INTERFACES_TEMPLATE);
    let ghost posted = response;
    let answer = match response {
        Ok(network_interfaces_xml) => ip_and_mac_from_response(&network_interfaces_xml),
        Err(e) => Err(e),
    };
    assert(pair_view(answer) == read_with(posted, |d: sxd_document::Package| ip_and_mac_in(d)));
    answer
}

/// Gets the scopes of a camera.
fn inner_get_device_scopes<H: Http>(url: &str, http: &H) -> (answer: Result<
    Vec<String>,
    QueryError,
>)
    ensures
        scopes_answer(http, url@, texts_view(answer)),
{
    let action = get_action(DEVICE_WSDL, "GetScopes");
    let response = http.post(url, action.as_str(), GET_SCOPES_TEMPLATE);
    let ghost posted = response;
    let answer = match response {
        Ok(scopes_xml) => scopes_from_response(&scopes_xml),
        Err(e) => Err(e),
    };
    assert(texts_view(answer) == read_with(posted, |d: sxd_document::Package| scopes_in(d)));
    answer
}

/// Gets the address of one service, such as media, of a camera.
fn inner_get_device_service_uri<H: Http>(url: &str, service: &str, http: &H) -> (answer: Result<
    String,
    QueryError,
>)
    ensures
        service_uri_answer(http, url@, service@, text_view(answer)),
{
    let action = get_action(DEVICE_WSDL, "GetServices");
    let response = http.post(url, action.as_str(), GET_SERVICES_TEMPLATE);
    let ghost posted = response;
    let answer = match response {
        Ok(services_xml) => service_uri_from_response(&services_xml, service),
        Err(e) => Err(e),
    };
    assert(text_view(answer) == read_with(
        posted,
        |d: sxd_document::Package| service_uri_in(d, service@),
    ));
    answer
}

/// Gets the tokens of the media profiles of a camera.
fn inner_get_device_profiles<H: Http>(url: &str, http: &H) -> (answer: Result<
    Vec<String>,
    QueryError,
>)
    ensures
        profiles_answer(http, url@, texts_view(answer)),
{
    let action = get_action(MEDIA_WSDL, "GetProfiles");
    let message = GET_PROFILES_TEMPLATE;
    let response = http.post(url, action.as_str(), message);
    let ghost posted = response;
    let answer = match response {
        Ok(profiles_xml) => profiles_from_response(&profiles_xml),
        Err(e) => Err(e),
    };
    assert(texts_view(answer) == read_with(posted, |d: sxd_document::Package| profiles_in(d)));
    answer
}

/// Gets the streaming address of one profile of a camera.
fn inner_get_device_profile_streaming_uri<H: Http>(
    url: &str,
    profile_token: &str,
    http: &H,
) -> (answer: Result<String, QueryError>)
    ensures
        streaming_uri_answer(http, url@, profile_token@, text_view(answer)),
{
    let stream_soap = get_stream_uri_message(profile_token);
    let action = get_action(MEDIA_WSDL, "GetStreamUri");
    let response = http.post(url, action.as_str(), stream_soap.as_str());
    let ghost posted = response;
    let answer = match response {
        Ok(stream_uri_xml) => stream_uri_from_response(&stream_uri_xml),
        Err(e) => Err(e),
    };
    assert(text_view(answer) == read_with(posted, |d: sxd_document::Package| stream_uri_in(d)));
    answer
}

/// Queries cameras over the HTTP capability `http`. Its answers are what
/// the responses to its requests hold.
pub struct OnvifQueryImpl<H: Http> {
    pub http: H,
}

impl<H: Http> OnvifQuery for OnvifQueryImpl<H> {
    open spec fn reports_ip_and_mac(
        &self,
        service_url: Seq<char>,
        answer: Result<(Seq<char>, Seq<char>), QueryError>,
    ) -> bool {
        ip_and_mac_answer(&self.http, service_url, answer)
    }

    open spec fn reports_scopes(
        &self,
        url: Seq<char>,
        answer: Result<Seq<Seq<char>>, QueryError>,
    ) -> bool {
        scopes_answer(&self.http, url, answer)
    }

    open spec fn reports_service_uri(
        &self,
        url: Seq<char>,
        service: Seq<char>,
        answer: Result<Seq<char>, QueryError>,
    ) -> bool {
        service_uri_answer(&self.http, url, service, answer)
    }

    open spec fn reports_profiles(
        &self,
        url: Seq<char>,
        answer: Result<Seq<Seq<char>>, QueryError>,
    ) -> bool {
        profiles_answer(&self.http, url, answer)
    }

    open spec fn reports_streaming_uri(
        &self,
        url: Seq<char>,
        profile_token: Seq<char>,
        answer: Result<Seq<char>, QueryError>,
    ) -> bool {
        streaming_uri_answer(&self.http, url, profile_token, answer)
    }

    /// Gets the IP and MAC address of a camera.
    fn get_device_ip_and_mac_address(&self, service_url: &str) -> (answer: Result<
        (String, String),
        QueryError,
    >) {
        inner_get_device_ip_and_mac_address(service_url, &self.http)
    }

    /// Gets the scopes of a camera.
    fn get_device_scopes(&self, url: &str) -> (answer: Result<Vec<String>, QueryError>) {
        inner_get_device_scopes(url, &self.http)
    }

    /// Gets the address of one service, such as media, of a camera.
    fn get_device_service_uri(&self, url: &str, service: &str) -> (answer: Result<
        String,
        QueryError,
    >) {
        inner_get_device_service_uri(url, service, &self.http)
    }

    /// Gets the tokens of the streaming profiles of a camera.
    fn get_device_profiles(&self, url: &str) -> (answer: Result<Vec<String>, QueryError>) {
        inner_get_device_profiles(url, &self.http)
    }

    /// Gets the streaming address of one profile of a camera.
    fn get_device_profile_streaming_uri(&self, url: &str, profile_token: &str) -> (answer: Result<
        String,
        QueryError,
    >) {
        inner_get_device_profile_streaming_uri(url, profile_token, &self.http)
    }
}

} // verus!
