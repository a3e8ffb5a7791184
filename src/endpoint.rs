//! Clients for the collection and document endpoints, and the requests they
//! make: a method and a path, with names, ids and filters escaped.

use vstd::prelude::*;
use vstd::string::*;
use vstd::utf8::encode_utf8;

verus! {

/// An unreserved byte: kept as it is by percent-encoding.
pub open spec fn is_unreserved(b: u8) -> bool {
    (48 <= b <= 57) || (65 <= b <= 90) || (97 <= b <= 122) || b == 45 || b == 46 || b == 95
        || b == 126
}

/// The upper-case hex digit of a value below sixteen.
pub open spec fn hex_digit(d: u8) -> char {
    if d < 10 {
        (48 + d) as char
    } else {
        (55 + d) as char
    }
}

/// One byte, percent-encoded.
pub open spec fn percent_encoded_byte(b: u8) -> Seq<char> {
    if is_unreserved(b) {
        seq![b as char]
    } else {
        seq!['%', hex_digit(b / 16), hex_digit(b % 16)]
    }
}

/// Bytes, percent-encoded one after the other.
pub open spec fn percent_encoded(bs: Seq<u8>) -> Seq<char>
    decreases bs.len(),
{
    if bs.len() == 0 {
        Seq::empty()
    } else {
        percent_encoded(bs.drop_last()) + percent_encoded_byte(bs.last())
    }
}

/// Relies on urlencoding::encode: each byte of the text's UTF-8 encoding but
/// the ASCII letters and digits and `-`, `.`, `_`, `~` becomes `%` and two
/// upper-case hex digits.
#[verifier::external_body]
fn percent_encode(s: &str) -> (r: String)
    ensures
        r@ == percent_encoded(s.spec_bytes()),
{
    urlencoding::encode(s).into_owned()
}

/// The HTTP methods that the endpoints use.
#[derive(PartialEq, Eq, Clone, Copy, Debug, Structural)]
pub enum Method {
    Get,
    Post,
    Patch,
    Delete,
}

/// A request to the service: a method and a path with its query string.
#[derive(Debug)]
pub struct Request {
    pub method: Method,
    pub path: String,
}

/// The name of the header that carries the API key.
pub const API_KEY_HEADER: &'static str = "X-TYPESENSE-API-KEY";

pub open spec fn collections_path() -> Seq<char> {
    "/collections"@
}

pub open spec fn collection_path(name: Seq<char>) -> Seq<char> {
    "/collections/"@ + percent_encoded(encode_utf8(name))
}

pub open spec fn documents_path(name: Seq<char>) -> Seq<char> {
    collection_path(name) + "/documents"@
}

pub open spec fn upsert_path(name: Seq<char>) -> Seq<char> {
    documents_path(name) + "?action=upsert"@
}

pub open spec fn delete_by_filter_path(name: Seq<char>, filter: Seq<char>) -> Seq<char> {
    documents_path(name) + "?filter_by="@ + percent_encoded(encode_utf8(filter))
}

pub open spec fn document_path(name: Seq<char>, id: Seq<char>) -> Seq<char> {
    documents_path(name) + "/"@ + percent_encoded(encode_utf8(id))
}

/// The value of the API key header: the key, after its prefix and a space
/// where there is a prefix.
pub open spec fn api_key_value(key: Seq<char>, prefix: Option<Seq<char>>) -> Seq<char> {
    match prefix {
        Some(p) => p + " "@ + key,
        None => key,
    }
}

/// The path of one collection.
pub fn collection_path_of(name: &str) -> (r: String)
    ensures
        r@ == collection_path(name@),
{
    let enc = percent_encode(name);
    String::from_str("/collections/").concat(enc.as_str())
}

/// The path of the documents of one collection.
pub fn documents_path_of(name: &str) -> (r: String)
    ensures
        r@ == documents_path(name@),
{
    collection_path_of(name).concat("/documents")
}

/// The header value for an API key and its optional prefix.
pub fn api_key_header_value(key: &str, prefix: Option<&str>) -> (r: String)
    ensures
        r@ == api_key_value(key@, match prefix {
            Some(p) => Some(p@),
            None => None,
        }),
{
    match prefix {
        Some(p) => String::from_str(p).concat(" ").concat(key),
        None => String::from_str(key),
    }
}

/// Where the service is and the key that every request carries.
#[derive(Debug)]
pub struct Client {
    pub host: String,
    pub api_key: String,
}

impl Client {
    pub fn new(host: String, api_key: String) -> (r: Client)
        ensures
            r.host@ == host@,
            r.api_key@ == api_key@,
    {
        Client { host, api_key }
    }

    /// A copy of the client.
    pub fn duplicate(&self) -> (r: Client)
        ensures
            r.host@ == self.host@,
            r.api_key@ == self.api_key@,
    {
        Client { host: self.host.clone(), api_key: self.api_key.clone() }
    }

    /// The full address of a path on the service.
    pub fn url(&self, path: &str) -> (r: String)
        ensures
            r@ == self.host@ + path@,
    {
        self.host.clone().concat(path)
    }

    /// The client for the collections endpoint.
    pub fn collections(&self) -> (r: CollectionsClient)
        ensures
            r.client.host@ == self.host@,
            r.client.api_key@ == self.api_key@,
    {
        CollectionsClient { client: self.duplicate() }
    }

    /// The client for one collection.
    pub fn collection<'a>(&self, collection_name: &'a str) -> (r: CollectionClient<'a>)
        ensures
            r.client.host@ == self.host@,
            r.client.api_key@ == self.api_key@,
            r.collection_name == collection_name,
    {
        CollectionClient { client: self.duplicate(), collection_name }
    }
}

/// Client for the collections endpoint.
#[derive(Debug)]
pub struct CollectionsClient {
    pub client: Client,
}

impl CollectionsClient {
    /// Creates a collection; the schema goes in the body.
    pub fn create_request(&self) -> (r: Request)
        ensures
            r.method == Method::Post,
            r.path@ == collections_path(),
    {
        Request { method: Method::Post, path: String::from_str("/collections") }
    }

    /// Retrieves every collection.
    pub fn retrieve_request(&self) -> (r: Request)
        ensures
            r.method == Method::Get,
            r.path@ == collections_path(),
    {
        Request { method: Method::Get, path: String::from_str("/collections") }
    }
}

/// Client for one collection.
#[derive(Debug)]
pub struct CollectionClient<'a> {
    pub client: Client,
    pub collection_name: &'a str,
}

impl<'a> CollectionClient<'a> {
    /// Retrieves the collection.
    pub fn retrieve_request(&self) -> (r: Request)
        ensures
            r.method == Method::Get,
            r.path@ == collection_path(self.collection_name@),
    {
        Request { method: Method::Get, path: collection_path_of(self.collection_name) }
    }

    /// Drops the collection and all its documents.
    pub fn delete_request(&self) -> (r: Request)
        ensures
            r.method == Method::Delete,
            r.path@ == collection_path(self.collection_name@),
    {
        Request { method: Method::Delete, path: collection_path_of(self.collection_name) }
    }

    /// The client for the documents of this collection.
    pub fn documents(&self) -> (r: DocumentsClient<'a>)
        ensures
            r.client.host@ == self.client.host@,
            r.client.api_key@ == self.client.api_key@,
            r.collection_name == self.collection_name,
    {
        DocumentsClient { client: self.client.duplicate(), collection_name: self.collection_name }
    }

    /// The client for one document of this collection.
    pub fn document(&self, document_id: &'a str) -> (r: DocumentClient<'a>)
        ensures
            r.client.host@ == self.client.host@,
            r.client.api_key@ == self.client.api_key@,
            r.collection_name == self.collection_name,
            r.document_id == document_id,
    {
        DocumentClient {
            client: self.client.duplicate(),
            collection_name: self.collection_name,
            document_id,
        }
    }
}

/// Client for the documents of one collection.
#[derive(Debug)]
pub struct DocumentsClient<'a> {
    pub client: Client,
    pub collection_name: &'a str,
}

impl<'a> DocumentsClient<'a> {
    /// Creates a document; the document goes in the body.
    pub fn create_request(&self) -> (r: Request)
        ensures
            r.method == Method::Post,
            r.path@ == documents_path(self.collection_name@),
    {
        Request { method: Method::Post, path: documents_path_of(self.collection_name) }
    }

    /// Creates or overwrites a document; the document goes in the body.
    pub fn upsert_request(&self) -> (r: Request)
        ensures
            r.method == Method::Post,
            r.path@ == upsert_path(self.collection_name@),
    {
        Request {
            method: Method::Post,
            path: documents_path_of(self.collection_name).concat("?action=upsert"),
        }
    }

    /// Deletes the documents that a filter expression matches; the
    /// expression is passed on percent-encoded.
    pub fn delete_request(&self, filter_by: &str) -> (r: Request)
        ensures
            r.method == Method::Delete,
            r.path@ == delete_by_filter_path(self.collection_name@, filter_by@),
    {
        let enc = percent_encode(filter_by);
        let path = documents_path_of(self.collection_name).concat("?filter_by=").concat(
            enc.as_str(),
        );
        Request { method: Method::Delete, path }
    }
}

/// Client for one document.
#[derive(Debug)]
pub struct DocumentClient<'a> {
    pub client: Client,
    pub collection_name: &'a str,
    pub document_id: &'a str,
}

impl<'a> DocumentClient<'a> {
    fn path(&self) -> (r: String)
        ensures
            r@ == document_path(self.collection_name@, self.document_id@),
    {
        let enc = percent_encode(self.document_id);
        documents_path_of(self.collection_name).concat("/").concat(enc.as_str())
    }

    /// Retrieves the document.
    pub fn retrieve_request(&self) -> (r: Request)
        ensures
            r.method == Method::Get,
            r.path@ == document_path(self.collection_name@, self.document_id@),
    {
        Request { method: Method::Get, path: self.path() }
    }

    /// Updates some fields of the document; they go in the body.
    pub fn update_request(&self) -> (r: Request)
        ensures
            r.method == Method::Patch,
            r.path@ == document_path(self.collection_name@, self.document_id@),
    {
        Request { method: Method::Patch, path: self.path() }
    }

    /// Deletes the document.
    pub fn delete_request(&self) -> (r: Request)
        ensures
            r.method == Method::Delete,
            r.path@ == document_path(self.collection_name@, self.document_id@),
    {
        Request { method: Method::Delete, path: self.path() }
    }
}

pub open spec fn snapshot_request_path(directory: Seq<char>) -> Seq<char> {
    "/operations/snapshot?snapshot_path="@ + percent_encoded(encode_utf8(directory))
}

pub open spec fn vote_path() -> Seq<char> {
    "/operations/vote"@
}

/// Asks a node for a point-in-time snapshot of its state and data, written
/// to a directory of the node.
pub fn take_snapshot_request(snapshot_path: &str) -> (r: Request)
    ensures
        r.method == Method::Post,
        r.path@ == snapshot_request_path(snapshot_path@),
{
    let enc = percent_encode(snapshot_path);
    Request {
        method: Method::Post,
        path: String::from_str("/operations/snapshot?snapshot_path=").concat(enc.as_str()),
    }
}

/// Asks a follower node to start an election and become the leader.
pub fn vote_request() -> (r: Request)
    ensures
        r.method == Method::Post,
        r.path@ == vote_path(),
{
    Request { method: Method::Post, path: String::from_str("/operations/vote") }
}

} // verus!
