//! XML documents and XPath evaluation, done by `sxd_document` and
//! `sxd_xpath`. Nothing here is proved: each contract states what the named
//! function of those crates is taken to do.

use vstd::prelude::*;
use crate::text::is_substring;

verus! {

/// A parsed XML document. Its contents are read through XPath only.
#[verifier::external_type_specification]
#[verifier::external_body]
pub struct ExPackage(sxd_document::Package);

/// Why a text is not well-formed XML.
#[verifier::external_type_specification]
#[verifier::external_body]
pub struct ExXmlError(sxd_document::parser::Error);

/// Why an XPath expression could not be evaluated.
#[verifier::external_type_specification]
#[verifier::external_body]
pub struct ExXPathError(sxd_xpath::Error);

/// Where the response to `GetNetworkInterfaces` holds the IPv4 address.
pub const IP_ADDRESS_XPATH: &'static str = "//*[local-name()='GetNetworkInterfacesResponse']/*[local-name()='NetworkInterfaces']/*[local-name()='IPv4']/*[local-name()='Config']/*/*[local-name()='Address']/text()";

/// Where the response to `GetNetworkInterfaces` holds the hardware address.
pub const MAC_ADDRESS_XPATH: &'static str = "//*[local-name()='GetNetworkInterfacesResponse']/*[local-name()='NetworkInterfaces']/*[local-name()='Info']/*[local-name()='HwAddress']/text()";

/// Where the response to `GetScopes` holds the scope items.
pub const SCOPES_XPATH: &'static str = "//*[local-name()='GetScopesResponse']/*[local-name()='Scopes']/*[local-name()='ScopeItem']/text()";

/// Where the response to `GetProfiles` holds the profile tokens.
pub const PROFILES_XPATH: &'static str = "//*[local-name()='GetProfilesResponse']/*[local-name()='Profiles']/@token";

/// Where the response to `GetStreamUri` holds the streaming address.
pub const STREAM_URI_XPATH: &'static str = "//*[local-name()='GetStreamUriResponse']/*[local-name()='MediaUri']/*[local-name()='Uri']/text()";

/// What precedes the namespace of the service in the XPath for its address.
pub const SERVICE_XPATH_HEAD: &'static str = "//*[local-name()='GetServicesResponse']/*[local-name()='Service' and *[local-name()='Namespace']/text() ='";

/// What follows the namespace of the service in the XPath for its address.
pub const SERVICE_XPATH_TAIL: &'static str = "']/*[local-name()='XAddr']/text()";

/// The XPath expression for the address of the service with namespace
/// `service`.
pub open spec fn service_xpath_of(service: Seq<char>) -> Seq<char> {
    SERVICE_XPATH_HEAD@ + service + SERVICE_XPATH_TAIL@
}

/// Whether `service` holds the quote character that would end its text in
/// the XPath expression for its address.
pub open spec fn has_quote(service: Seq<char>) -> bool {
    is_substring("'"@, service)
}

/// The expressions that the library evaluates: the five that are fixed, and
/// that for the address of a service whose namespace holds no quote. They
/// select text and attribute nodes by local name, and hold no name test with
/// a prefix.
pub open spec fn known_xpath(xpath: Seq<char>) -> bool {
    ||| xpath == IP_ADDRESS_XPATH@
    ||| xpath == MAC_ADDRESS_XPATH@
    ||| xpath == SCOPES_XPATH@
    ||| xpath == PROFILES_XPATH@
    ||| xpath == STREAM_URI_XPATH@
    ||| exists|service: Seq<char>|
        !has_quote(service) && xpath == #[trigger] service_xpath_of(service)
}

/// The value of an XPath expression on a document.
#[derive(Debug)]
pub enum XPathValue {
    Boolean(bool),
    /// A number, held as the text that XPath's string conversion gives it.
    Number(String),
    String(String),
    /// The string values of the nodes of a node set, in document order.
    Nodeset(Vec<String>),
}

/// What a value of an XPath expression holds.
pub enum XPathValueView {
    Boolean(bool),
    Number(Seq<char>),
    String(Seq<char>),
    Nodeset(Seq<Seq<char>>),
}

impl View for XPathValue {
    type V = XPathValueView;

    open spec fn view(&self) -> XPathValueView {
        match self {
            XPathValue::Boolean(truth) => XPathValueView::Boolean(*truth),
            XPathValue::Number(text) => XPathValueView::Number(text@),
            XPathValue::String(text) => XPathValueView::String(text@),
            XPathValue::Nodeset(texts) => XPathValueView::Nodeset(texts.deep_view()),
        }
    }
}

/// Whether `sxd_document::parser::parse` accepts `body` as an XML document.
pub uninterp spec fn parses_as_xml(body: Seq<char>) -> bool;

/// What `sxd_xpath::evaluate_xpath` gives for `xpath` on `document`: the
/// value, or nothing where the expression cannot be evaluated.
pub uninterp spec fn xpath_value(
    document: sxd_document::Package,
    xpath: Seq<char>,
) -> Option<XPathValueView>;

/// What `sxd_xpath::evaluate_xpath` gives for `xpath` on the document that
/// `sxd_document::parser::parse` reads out of `body`.
pub uninterp spec fn xml_xpath_value(body: Seq<char>, xpath: Seq<char>) -> Option<XPathValueView>;

/// `document` is what `body` parses to: each expression that the library
/// evaluates has on it the value that it has on the text.
pub open spec fn is_document_of(document: sxd_document::Package, body: Seq<char>) -> bool {
    forall|xpath: Seq<char>|
        known_xpath(xpath) ==> #[trigger] xpath_value(document, xpath) == xml_xpath_value(
            body,
            xpath,
        )
}

/// Calls `sxd_document::parser::parse`. Claimed: whether a document comes
/// back depends on the text alone, and so does what the expressions that the
/// library evaluates give on it.
#[verifier::external_body]
pub(crate) fn parse_xml(body: &str) -> (parsed: Result<
    sxd_document::Package,
    sxd_document::parser::Error,
>)
    ensures
        parsed is Ok <==> parses_as_xml(body@),
        parsed matches Ok(document) ==> forall|xpath: Seq<char>|
            known_xpath(xpath) ==> #[trigger] xpath_value(document, xpath) == xml_xpath_value(
                body@,
                xpath,
            ),
{
    sxd_document::parser::parse(body)
}

/// Calls `sxd_xpath::evaluate_xpath` on the root of `document`, and hands the
/// value over in the library's own type: a number as its `Value::string`, a
/// node set as the `string_value` of each node of `Nodeset::document_order`.
/// Only an expression that the library knows is admitted: one with a
/// prefixed name test would not return, and one that selects namespace
/// nodes would give them in no fixed order. Claimed: for such an expression
/// the value depends on the document and the expression alone.
#[verifier::external_body]
pub(crate) fn evaluate_xpath(document: &sxd_document::Package, xpath: &str) -> (value: Result<
    XPathValue,
    sxd_xpath::Error,
>)
    requires
        known_xpath(xpath@),
    ensures
        match value {
            Ok(v) => xpath_value(*document, xpath@) == Some(v@),
            Err(_) => xpath_value(*document, xpath@) is None,
        },
{
    match sxd_xpath::evaluate_xpath(&document.as_document(), xpath)? {
        sxd_xpath::Value::Boolean(truth) => Ok(XPathValue::Boolean(truth)),
        number @ sxd_xpath::Value::Number(_) => Ok(XPathValue::Number(number.string())),
        sxd_xpath::Value::String(text) => Ok(XPathValue::String(text)),
        sxd_xpath::Value::Nodeset(nodes) => Ok(
            XPathValue::Nodeset(
                nodes.document_order().iter().map(|node| node.string_value()).collect(),
            ),
        ),
    }
}

} // verus!
