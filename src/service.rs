//! The endpoints of the validation service and the headers each request
//! carries.

use vstd::prelude::*;

verus! {

/// An endpoint of the validation service.
#[derive(Debug, Clone, Copy, PartialEq, Eq, Structural)]
pub enum Endpoint {
    /// Upload of the PDF, as a multipart form.
    Arquivo,
    /// Simplified report of an uploaded document.
    Simples,
    /// Conformity report of an uploaded document.
    Conformidade,
    /// Rendering of a conformity report as a PDF.
    DownloadPdf,
}

pub open spec fn base_address() -> Seq<char> {
    "https://validar.iti.gov.br"@
}

impl Endpoint {
    pub open spec fn path(self) -> Seq<char> {
        match self {
            Endpoint::Arquivo => "/arquivo"@,
            Endpoint::Simples => "/simples"@,
            Endpoint::Conformidade => "/conformidade"@,
            Endpoint::DownloadPdf => "/downloadPdf"@,
        }
    }

    /// What the endpoint's reply is accepted as.
    pub open spec fn accept(self) -> Seq<char> {
        match self {
            Endpoint::Arquivo => "*/*"@,
            Endpoint::Simples => "application/json, text/plain, */*"@,
            _ => "application/json"@,
        }
    }

    /// The endpoint's path, as error messages name it.
    pub fn path_str(&self) -> (r: &'static str)
        ensures
            r@ == self.path(),
    {
        match self {
            Endpoint::Arquivo => "/arquivo",
            Endpoint::Simples => "/simples",
            Endpoint::Conformidade => "/conformidade",
            Endpoint::DownloadPdf => "/downloadPdf",
        }
    }

    /// The endpoint's full address.
    pub fn url(&self) -> (r: String)
        ensures
            r@ == base_address() + self.path(),
    {
        let mut s = String::from_str("https://validar.iti.gov.br");
        s.append(self.path_str());
        s
    }
}

/// The headers every request carries, before the endpoint's own `Accept`
/// and `Content-Type`: those of a desktop browser on the service's own page.
pub open spec fn browser_headers() -> Seq<(Seq<char>, Seq<char>)> {
    seq![
        ("Referer"@, "https://validar.iti.gov.br/"@),
        (
            "User-Agent"@,
            "Mozilla/5.0 (X11; Linux x86_64) AppleWebKit/537.36 (KHTML, like Gecko) Chrome/142.0.0.0 Safari/537.36"@,
        ),
        (
            "sec-ch-ua"@,
            "\"Chromium\";v=\"142\", \"Google Chrome\";v=\"142\", \"Not_A Brand\";v=\"99\""@,
        ),
        ("sec-ch-ua-mobile"@, "?0"@),
        ("sec-ch-ua-platform"@, "\"Linux\""@),
        ("Origin"@, "https://validar.iti.gov.br"@),
        ("Sec-Fetch-Site"@, "same-origin"@),
        ("Sec-Fetch-Mode"@, "cors"@),
        ("Sec-Fetch-Dest"@, "empty"@),
    ]
}

/// The headers of a request to `e`: the browser's, its `Accept`, and, for
/// the endpoints that take a JSON body, `Content-Type: application/json`.
pub open spec fn headers_for(e: Endpoint) -> Seq<(Seq<char>, Seq<char>)> {
    let accept = browser_headers().push(("Accept"@, e.accept()));
    if e == Endpoint::Arquivo {
        accept
    } else {
        accept.push(("Content-Type"@, "application/json"@))
    }
}

/// The views of a list of header pairs.
pub open spec fn pairs_view(v: Seq<(&'static str, &'static str)>) -> Seq<(Seq<char>, Seq<char>)> {
    v.map_values(|p: (&'static str, &'static str)| (p.0@, p.1@))
}

/// The headers of a request to `e`, as name and value pairs.
pub fn request_headers(e: Endpoint) -> (r: Vec<(&'static str, &'static str)>)
    ensures
        pairs_view(r@) == headers_for(e),
{
    let mut h: Vec<(&'static str, &'static str)> = Vec::new();
    h.push(("Referer", "https://validar.iti.gov.br/"));
    h.push((
        "User-Agent",
        "Mozilla/5.0 (X11; Linux x86_64) AppleWebKit/537.36 (KHTML, like Gecko) Chrome/142.0.0.0 Safari/537.36",
    ));
    h.push((
        "sec-ch-ua",
        "\"Chromium\";v=\"142\", \"Google Chrome\";v=\"142\", \"Not_A Brand\";v=\"99\"",
    ));
    h.push(("sec-ch-ua-mobile", "?0"));
    h.push(("sec-ch-ua-platform", "\"Linux\""));
    h.push(("Origin", "https://validar.iti.gov.br"));
    h.push(("Sec-Fetch-Site", "same-origin"));
    h.push(("Sec-Fetch-Mode", "cors"));
    h.push(("Sec-Fetch-Dest", "empty"));
    let accept = match e {
        Endpoint::Arquivo => "*/*",
        Endpoint::Simples => "application/json, text/plain, */*",
        _ => "application/json",
    };
    h.push(("Accept", accept));
    if e != Endpoint::Arquivo {
        h.push(("Content-Type", "application/json"));
    }
    assert(pairs_view(h@) =~= headers_for(e));
    h
}

} // verus!
