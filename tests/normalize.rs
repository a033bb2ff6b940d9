use validador_iti::json::Json;
use validador_iti::relatorio::process_relatorio;
use validador_iti::types::ValidationStatus;

fn s(t: &str) -> Json {
    Json::Str(t.to_string())
}

fn obj(members: Vec<(&str, Json)>) -> Json {
    Json::Object(members.into_iter().map(|(k, v)| (k.to_string(), v)).collect())
}

fn portuguese_report() -> Json {
    obj(vec![
        (
            "assinaturas",
            Json::Array(vec![obj(vec![
                ("nome", s("Alice")),
                ("cpf", s("111")),
                ("status", s("ok")),
                ("possuiCarimboTempo", Json::Bool(true)),
            ])]),
        ),
        ("nomeArquivo", s("a.pdf")),
        ("hash", s("h1")),
    ])
}

#[test]
fn portuguese_keys_give_a_valid_result() {
    let r = process_relatorio(portuguese_report(), "local.pdf");
    assert_eq!(r.status, ValidationStatus::Valid);
    assert_eq!(r.total_assinaturas, Some(1));
    let sigs = r.assinaturas.as_ref().unwrap();
    assert_eq!(sigs.len(), 1);
    assert_eq!(sigs[0].assinado_por, "Alice");
    assert_eq!(sigs[0].cpf, "111");
    assert_eq!(sigs[0].status, "ok");
    assert_eq!(sigs[0].certificadora, "N/A");
    assert_eq!(sigs[0].numero_serie_certificado, "N/A");
    assert_eq!(sigs[0].data_assinatura, "N/A");
    assert!(sigs[0].possui_carimbo_tempo);
    let doc = r.documento.as_ref().unwrap();
    assert_eq!(doc.hash, "h1");
    assert_eq!(doc.nome_arquivo, "a.pdf");
    assert_eq!(doc.data_validacao, "N/A");
    assert_eq!(doc.status_documento, "N/A");
    assert!(r.error.is_none());
    assert!(r.details.is_none());
}

#[test]
fn english_aliases_give_the_same_result() {
    let english = obj(vec![
        (
            "signatures",
            Json::Array(vec![obj(vec![
                ("signerName", s("Alice")),
                ("CPF", s("111")),
                ("resultado", s("ok")),
                ("possuiCarimboTempo", Json::Bool(true)),
            ])]),
        ),
        ("nomeArquivo", s("a.pdf")),
        ("documentHash", s("h1")),
    ]);
    let a = process_relatorio(portuguese_report(), "local.pdf");
    let b = process_relatorio(english, "local.pdf");
    assert_eq!(a.status, b.status);
    assert_eq!(a.total_assinaturas, b.total_assinaturas);
    assert_eq!(a.assinaturas, b.assinaturas);
    assert_eq!(a.documento, b.documento);
    assert_eq!(a.error, b.error);
    assert_eq!(a.details, b.details);
}

#[test]
fn english_serial_and_date_aliases_are_read() {
    let report = obj(vec![(
        "signatures",
        Json::Array(vec![obj(vec![
            ("serialNumber", s("42")),
            ("signatureDate", s("2024-01-01")),
            ("certificadora", s("AC X")),
        ])]),
    ), ("validationDate", s("2024-02-02"))]);
    let r = process_relatorio(report, "f.pdf");
    let sig = &r.assinaturas.as_ref().unwrap()[0];
    assert_eq!(sig.numero_serie_certificado, "42");
    assert_eq!(sig.data_assinatura, "2024-01-01");
    assert_eq!(sig.certificadora, "AC X");
    assert!(!sig.possui_carimbo_tempo);
    let doc = r.documento.as_ref().unwrap();
    assert_eq!(doc.data_validacao, "2024-02-02");
    assert_eq!(doc.nome_arquivo, "f.pdf");
}

#[test]
fn portuguese_key_is_preferred_when_both_are_present() {
    let report = obj(vec![(
        "assinaturas",
        Json::Array(vec![obj(vec![("signerName", s("Bob")), ("nome", s("Ana"))])]),
    )]);
    let r = process_relatorio(report, "f.pdf");
    assert_eq!(r.assinaturas.unwrap()[0].assinado_por, "Ana");
}

#[test]
fn non_string_value_falls_back_to_default() {
    let report = obj(vec![(
        "assinaturas",
        Json::Array(vec![obj(vec![("nome", Json::Bool(true)), ("signerName", s("Bob"))])]),
    )]);
    let r = process_relatorio(report, "f.pdf");
    assert_eq!(r.assinaturas.unwrap()[0].assinado_por, "N/A");
}

#[test]
fn empty_signature_list_is_invalid() {
    let report = obj(vec![("assinaturas", Json::Array(vec![]))]);
    let r = process_relatorio(report, "f.pdf");
    assert_eq!(r.status, ValidationStatus::Invalid);
    assert_eq!(r.total_assinaturas, Some(0));
    assert_eq!(r.assinaturas.unwrap().len(), 0);
}

#[test]
fn missing_signature_list_is_invalid() {
    let r = process_relatorio(obj(vec![("hash", s("h"))]), "f.pdf");
    assert_eq!(r.status, ValidationStatus::Invalid);
    assert_eq!(r.total_assinaturas, Some(0));
}

#[test]
fn non_object_entries_are_skipped() {
    let report = obj(vec![(
        "assinaturas",
        Json::Array(vec![s("x"), obj(vec![("nome", s("Ana"))]), Json::Null]),
    )]);
    let r = process_relatorio(report, "f.pdf");
    assert_eq!(r.status, ValidationStatus::Valid);
    assert_eq!(r.total_assinaturas, Some(1));
}

#[test]
fn array_report_is_unknown_with_details() {
    let report = || Json::Array(vec![Json::Number("1".to_string()), s("a")]);
    let r = process_relatorio(report(), "f.pdf");
    assert_eq!(r.status, ValidationStatus::Unknown);
    assert_eq!(r.details, Some(report()));
    assert_eq!(r.error.as_deref(), Some("Formato de resposta desconhecido"));
    assert!(r.documento.is_none());
    assert!(r.assinaturas.is_none());
    assert!(r.total_assinaturas.is_none());
}
