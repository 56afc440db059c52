//! The protected information operations: fetch, create and disable a record.

use vstd::prelude::*;

use crate::common::Response;
use crate::decimal::{decimal, format_i32};
use crate::dispatch::{ApiRequest, Enveloped, Method};

verus! {

/// How a protected information item is named in a request.
#[derive(Debug)]
pub enum ProtectedInformationIdentifier {
    /// The item's numeric identification code.
    Id(i32),
    /// The item's string identifier.
    Tag(String),
}

/// The path segment that names an item: the decimal text of an id, or the tag.
pub open spec fn segment_of(id: ProtectedInformationIdentifier) -> Seq<char> {
    match id {
        ProtectedInformationIdentifier::Id(n) => decimal(n as int),
        ProtectedInformationIdentifier::Tag(t) => t@,
    }
}

impl ProtectedInformationIdentifier {
    /// The path segment that names the item.
    pub fn to_segment(&self) -> (r: String)
        ensures
            r@ == segment_of(*self),
    {
        match self {
            ProtectedInformationIdentifier::Id(n) => format_i32(*n),
            ProtectedInformationIdentifier::Tag(t) => t.clone(),
        }
    }

    /// Whether this names the item with numeric code `id`.
    pub fn is_id(&self, id: i32) -> (r: bool)
        ensures
            r == (*self matches ProtectedInformationIdentifier::Id(n) && n == id),
    {
        match self {
            ProtectedInformationIdentifier::Id(n) => *n == id,
            ProtectedInformationIdentifier::Tag(_) => false,
        }
    }

    /// Whether this names the item with string identifier `tag`.
    pub fn is_tag(&self, tag: &str) -> (r: bool)
        ensures
            r == (*self matches ProtectedInformationIdentifier::Tag(t) && t@ == tag@),
    {
        match self {
            ProtectedInformationIdentifier::Id(_) => false,
            ProtectedInformationIdentifier::Tag(t) => {
                let s: &str = t.as_str();
                equal_text(s, tag)
            },
        }
    }
}

fn equal_text(a: &str, b: &str) -> (r: bool)
    ensures
        r == (a@ == b@),
{
    let n = a.unicode_len();
    if n != b.unicode_len() {
        return false;
    }
    let mut i: usize = 0;
    while i < n
        invariant
            n == a@.len(),
            n == b@.len(),
            i <= n,
            forall|j: int| 0 <= j < i ==> a@[j] == b@[j],
        decreases n - i,
    {
        if a.get_char(i) != b.get_char(i) {
            return false;
        }
        i = i + 1;
    }
    assert(a@ =~= b@);
    true
}

impl From<i32> for ProtectedInformationIdentifier {
    fn from(id: i32) -> (r: ProtectedInformationIdentifier) {
        ProtectedInformationIdentifier::Id(id)
    }
}

impl vstd::std_specs::convert::FromSpecImpl<i32> for ProtectedInformationIdentifier {
    open spec fn obeys_from_spec() -> bool {
        true
    }

    open spec fn from_spec(id: i32) -> ProtectedInformationIdentifier {
        ProtectedInformationIdentifier::Id(id)
    }
}

impl From<String> for ProtectedInformationIdentifier {
    fn from(tag: String) -> (r: ProtectedInformationIdentifier) {
        ProtectedInformationIdentifier::Tag(tag)
    }
}

impl vstd::std_specs::convert::FromSpecImpl<String> for ProtectedInformationIdentifier {
    open spec fn obeys_from_spec() -> bool {
        true
    }

    open spec fn from_spec(tag: String) -> ProtectedInformationIdentifier {
        ProtectedInformationIdentifier::Tag(tag)
    }
}

/// The path of one item: `iso/pam/info/` and the segment that names it.
pub fn info_path(id: &ProtectedInformationIdentifier) -> (r: String)
    ensures
        r@ == "iso/pam/info/"@ + segment_of(*id),
{
    let mut path = String::from_str("iso/pam/info/");
    let segment = id.to_segment();
    path.append(segment.as_str());
    path
}

/// The request that fetches an item: `GET iso/pam/info/{id}`.
pub fn access_request(id: &ProtectedInformationIdentifier) -> (r: ApiRequest)
    ensures
        r.method == Method::Get,
        r.path@ == "iso/pam/info/"@ + segment_of(*id),
{
    ApiRequest { method: Method::Get, path: info_path(id) }
}

/// The request that creates or updates an item: `POST iso/pam/info`, with the
/// item as its JSON body.
pub fn create_request() -> (r: ApiRequest)
    ensures
        r.method == Method::Post,
        r.path@ == "iso/pam/info"@,
{
    ApiRequest { method: Method::Post, path: String::from_str("iso/pam/info") }
}

/// The request that disables an item: `DELETE iso/pam/info/{id}`.
pub fn disable_request(id: &ProtectedInformationIdentifier) -> (r: ApiRequest)
    ensures
        r.method == Method::Delete,
        r.path@ == "iso/pam/info/"@ + segment_of(*id),
{
    ApiRequest { method: Method::Delete, path: info_path(id) }
}

/// The fetched item.
#[derive(Debug)]
pub struct AccessProtectedInformationResult {
    /// The item's numeric identification code.
    pub id: i32,
    /// The item's string identifier; passed through as the API gives it.
    pub tag: Option<String>,
    /// Information type.
    pub info_type: Option<String>,
    /// The protected content.
    pub content: String,
}

/// What fetching an item returns.
#[derive(Debug)]
pub struct AccessProtectedInformationApiResponse {
    /// The envelope.
    pub response: Response,
    /// The item.
    pub info: AccessProtectedInformationResult,
}

/// An item to create or update.
#[derive(Debug)]
pub struct CreateProtectedInformationApiRequest {
    /// Name of the item.
    pub name: Option<String>,
    /// The content to protect.
    pub content: String,
    /// Unique string that identifies the item.
    pub identifier: Option<String>,
    /// Information type.
    pub info_type: Option<String>,
}

/// The created item, as the API reports it.
#[derive(Debug)]
pub struct CreateProtectedInformationResult {
    /// Name of the item.
    pub name: Option<String>,
    /// Information type.
    pub info_type: Option<String>,
    /// Name of the service associated with the item.
    pub service: Option<String>,
    /// URL associated with the item.
    pub url: Option<String>,
    /// The protected content.
    pub content: String,
    /// Comma-separated list of the users and groups allowed.
    pub users_allowed: Option<String>,
    /// Unique string that identifies the item.
    pub identifier: Option<String>,
}

/// What creating an item returns.
#[derive(Debug)]
pub struct CreateProtectedInformationApiResponse {
    /// The envelope.
    pub response: Response,
    /// The item.
    pub info: CreateProtectedInformationResult,
}

/// What disabling an item returns: the envelope alone.
#[derive(Debug)]
pub struct DisableProtectedInformationApiResponse {
    /// The envelope.
    pub response: Response,
}

impl Enveloped for AccessProtectedInformationApiResponse {
    open spec fn envelope(&self) -> Response {
        self.response
    }

    fn reports_error(&self) -> (r: bool) {
        self.response.error
    }

    fn into_envelope(self) -> (r: Response) {
        self.response
    }
}

impl Enveloped for CreateProtectedInformationApiResponse {
    open spec fn envelope(&self) -> Response {
        self.response
    }

    fn reports_error(&self) -> (r: bool) {
        self.response.error
    }

    fn into_envelope(self) -> (r: Response) {
        self.response
    }
}

impl Enveloped for DisableProtectedInformationApiResponse {
    open spec fn envelope(&self) -> Response {
        self.response
    }

    fn reports_error(&self) -> (r: bool) {
        self.response.error
    }

    fn into_envelope(self) -> (r: Response) {
        self.response
    }
}

} // verus!
