use validador_iti::desktop::ValidadorApp;
use validador_iti::service::{request_headers, Endpoint};

fn value<'a>(h: &'a [(&'static str, &'static str)], name: &str) -> Option<&'a str> {
    h.iter().find(|(n, _)| *n == name).map(|(_, v)| *v)
}

#[test]
fn endpoint_addresses() {
    assert_eq!(Endpoint::Arquivo.url(), "https://validar.iti.gov.br/arquivo");
    assert_eq!(Endpoint::Simples.url(), "https://validar.iti.gov.br/simples");
    assert_eq!(Endpoint::Conformidade.url(), "https://validar.iti.gov.br/conformidade");
    assert_eq!(Endpoint::DownloadPdf.url(), "https://validar.iti.gov.br/downloadPdf");
    assert_eq!(Endpoint::DownloadPdf.path_str(), "/downloadPdf");
}

#[test]
fn headers_per_endpoint() {
    let upload = request_headers(Endpoint::Arquivo);
    assert_eq!(upload.len(), 10);
    assert_eq!(value(&upload, "Accept"), Some("*/*"));
    assert_eq!(value(&upload, "Content-Type"), None);
    assert_eq!(value(&upload, "Referer"), Some("https://validar.iti.gov.br/"));
    assert_eq!(value(&upload, "Origin"), Some("https://validar.iti.gov.br"));
    assert_eq!(value(&upload, "Sec-Fetch-Site"), Some("same-origin"));
    assert_eq!(value(&upload, "sec-ch-ua-platform"), Some("\"Linux\""));
    let simples = request_headers(Endpoint::Simples);
    assert_eq!(value(&simples, "Accept"), Some("application/json, text/plain, */*"));
    assert_eq!(value(&simples, "Content-Type"), Some("application/json"));
    for e in [Endpoint::Conformidade, Endpoint::DownloadPdf] {
        let h = request_headers(e);
        assert_eq!(h.len(), 11);
        assert_eq!(value(&h, "Accept"), Some("application/json"));
        assert_eq!(value(&h, "Content-Type"), Some("application/json"));
    }
}

#[test]
fn default_window_is_empty() {
    let app = ValidadorApp::default();
    assert!(app.pdf_path.is_none());
    assert!(!app.processing);
    assert!(!app.gerar_relatorio);
    assert!(app.resultado.is_empty());
}
