//! The security headers that every response carries.

use vstd::prelude::*;

verus! {

/// One response header.
#[derive(Debug, Clone, Copy)]
pub struct Header {
    pub name: &'static str,
    pub value: &'static str,
}

impl View for Header {
    type V = (Seq<char>, Seq<char>);

    open spec fn view(&self) -> (Seq<char>, Seq<char>) {
        (self.name@, self.value@)
    }
}

/// The four fixed headers, as pairs of name and value.
pub open spec fn security_header_pairs() -> Seq<(Seq<char>, Seq<char>)> {
    seq![
        ("X-Content-Type-Options"@, "nosniff"@),
        ("X-Frame-Options"@, "DENY"@),
        ("X-XSS-Protection"@, "1; mode=block"@),
        ("Referrer-Policy"@, "strict-origin-when-cross-origin"@),
    ]
}

/// The headers to set on every response, whatever the request was.
pub fn security_headers() -> (headers: Vec<Header>)
    ensures
        headers@.map_values(|h: Header| h@) == security_header_pairs(),
{
    let mut headers: Vec<Header> = Vec::new();
    headers.push(Header { name: "X-Content-Type-Options", value: "nosniff" });
    headers.push(Header { name: "X-Frame-Options", value: "DENY" });
    headers.push(Header { name: "X-XSS-Protection", value: "1; mode=block" });
    headers.push(Header { name: "Referrer-Policy", value: "strict-origin-when-cross-origin" });
    assert(headers@.map_values(|h: Header| h@) =~= security_header_pairs());
    headers
}

} // verus!
