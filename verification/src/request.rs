//! Where the three calls of a run go, and what the provider's API wants in
//! their headers.

use vstd::prelude::*;

verus! {

/// One header of a request: a name and its value.
#[derive(Debug, PartialEq)]
pub struct Header {
    pub name: String,
    pub value: String,
}

/// What a [`Header`] holds, as mathematical values.
pub ghost struct HeaderView {
    pub name: Seq<char>,
    pub value: Seq<char>,
}

impl View for Header {
    type V = HeaderView;

    open spec fn view(&self) -> HeaderView {
        HeaderView { name: self.name@, value: self.value@ }
    }
}

/// The views of a sequence of headers, in the same order.
pub open spec fn header_views(headers: Seq<Header>) -> Seq<HeaderView> {
    headers.map_values(|h: Header| h@)
}

/// The address of the service that tells a caller its public IP address.
pub open spec fn ip_lookup_url() -> Seq<char> {
    "http://whatismyip.akamai.com/"@
}

/// The address under which the provider lists the DNS records of `zone`.
pub open spec fn records_url(zone: Seq<char>) -> Seq<char> {
    "https://api.cloudflare.com/client/v4/zones/"@ + zone + "/dns_records"@
}

/// The address under which the provider takes an update of the record
/// `record_id` of `zone`.
pub open spec fn record_url(zone: Seq<char>, record_id: Seq<char>) -> Seq<char> {
    records_url(zone) + "/"@ + record_id
}

/// The value of the `Authorization` header for the credential `token`.
pub open spec fn bearer(token: Seq<char>) -> Seq<char> {
    "Bearer "@ + token
}

/// The headers of a call to the provider's API made with the credential
/// `token`: the content type, then the authorization.
pub open spec fn api_headers(token: Seq<char>) -> Seq<HeaderView> {
    seq![
        HeaderView { name: "Content-Type"@, value: "application/json"@ },
        HeaderView { name: "Authorization"@, value: bearer(token) },
    ]
}

/// The address to ask for the caller's public IP address.
pub fn ip_lookup_address() -> (url: String)
    ensures
        url@ == ip_lookup_url(),
{
    "http://whatismyip.akamai.com/".to_owned()
}

/// The address to fetch the DNS records of `zone` from.
pub fn records_address(zone: &str) -> (url: String)
    ensures
        url@ == records_url(zone@),
{
    "https://api.cloudflare.com/client/v4/zones/".to_owned().concat(zone).concat("/dns_records")
}

/// The address to send an update of the record `record_id` of `zone` to.
pub fn record_address(zone: &str, record_id: &str) -> (url: String)
    ensures
        url@ == record_url(zone@, record_id@),
{
    records_address(zone).concat("/").concat(record_id)
}

/// The headers to send with a call to the provider's API.
pub fn headers_for(token: &str) -> (headers: Vec<Header>)
    ensures
        header_views(headers@) == api_headers(token@),
{
    let mut headers: Vec<Header> = Vec::new();
    headers.push(Header { name: "Content-Type".to_owned(), value: "application/json".to_owned() });
    headers.push(Header { name: "Authorization".to_owned(), value: "Bearer ".to_owned().concat(token) });
    assert(header_views(headers@) =~= api_headers(token@));
    headers
}

} // verus!
