//! A request as the client describes it, before anything is sent.
//!
//! Building a request touches no network: a request is plain data that
//! says which method to use, on which address, under which bearer token
//! and with which body.

use vstd::prelude::*;
use vstd::string::*;
use crate::body::VultrBody;

verus! {

/// The HTTP method of a request.
#[derive(Clone, Copy, Debug, PartialEq, Eq, Structural)]
pub enum VultrMethod {
    Get,
    Post,
    Delete,
}

/// One request to the provider.
#[derive(Debug)]
pub struct VultrRequest {
    pub method: VultrMethod,
    /// The absolute address.
    pub url: String,
    /// The bearer credential that authenticates the request.
    pub token: String,
    /// The fields of the JSON body; only a POST carries one.
    pub body: Option<VultrBody>,
}

/// What a request says, as mathematical values.
pub struct VultrRequestView {
    pub method: VultrMethod,
    pub url: Seq<char>,
    pub token: Seq<char>,
    pub body: Option<Map<Seq<char>, Seq<char>>>,
}

impl View for VultrRequest {
    type V = VultrRequestView;

    open spec fn view(&self) -> VultrRequestView {
        VultrRequestView {
            method: self.method,
            url: self.url@,
            token: self.token@,
            body: match self.body {
                Some(body) => Some(body@),
                None => None,
            },
        }
    }
}

/// The address under which every resource of the provider lives.
pub open spec fn api_root() -> Seq<char> {
    "https://api.vultr.com/v2"@
}

/// The address of a kind of resource: `/v2/<resource>`.
pub open spec fn collection_url(resource: Seq<char>) -> Seq<char> {
    api_root() + "/"@ + resource
}

/// The address of one resource: `/v2/<resource>/<id>`.
pub open spec fn item_url(resource: Seq<char>, id: Seq<char>) -> Seq<char> {
    collection_url(resource) + "/"@ + id
}

/// The address of what belongs to one resource:
/// `/v2/<resource>/<id>/<part>`.
pub open spec fn part_url(resource: Seq<char>, id: Seq<char>, part: Seq<char>) -> Seq<char> {
    item_url(resource, id) + "/"@ + part
}

/// The address of one thing that belongs to one resource:
/// `/v2/<resource>/<id>/<part>/<part_id>`.
pub open spec fn part_item_url(
    resource: Seq<char>,
    id: Seq<char>,
    part: Seq<char>,
    part_id: Seq<char>,
) -> Seq<char> {
    part_url(resource, id, part) + "/"@ + part_id
}

/// Appends `/` and `segment` to an address.
fn descend(url: String, segment: &str) -> (longer: String)
    ensures
        longer@ == url@ + "/"@ + segment@,
{
    url.concat("/").concat(segment)
}

/// Builds the address of a kind of resource.
pub fn collection_address(resource: &str) -> (url: String)
    ensures
        url@ == collection_url(resource@),
{
    descend(String::from_str("https://api.vultr.com/v2"), resource)
}

/// Builds the address of one resource.
pub fn item_address(resource: &str, id: &str) -> (url: String)
    ensures
        url@ == item_url(resource@, id@),
{
    descend(collection_address(resource), id)
}

/// Builds the address of what belongs to one resource.
pub fn part_address(resource: &str, id: &str, part: &str) -> (url: String)
    ensures
        url@ == part_url(resource@, id@, part@),
{
    descend(item_address(resource, id), part)
}

/// Builds the address of one thing that belongs to one resource.
pub fn part_item_address(resource: &str, id: &str, part: &str, part_id: &str) -> (url: String)
    ensures
        url@ == part_item_url(resource@, id@, part@, part_id@),
{
    descend(part_address(resource, id, part), part_id)
}

} // verus!
