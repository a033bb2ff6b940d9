use validador_iti::desktop::ValidadorApp;
use validador_iti::json::Json;
use validador_iti::json_form::validation_to_json;
use validador_iti::language::Language;
use validador_iti::relatorio::process_relatorio;
use validador_iti::render::{
    default_report_name, render_failure, render_report_section, render_validation,
    report_after_conformidade, report_after_download, should_generate_report, ReportOutcome,
};
use validador_iti::types::{
    ConformidadeResult, ConformidadeStatus, DownloadStatus, PdfDownloadResult, ValidationResult,
    ValidationStatus,
};

fn bare(status: ValidationStatus) -> ValidationResult {
    ValidationResult {
        status,
        documento: None,
        assinaturas: None,
        total_assinaturas: None,
        error: None,
        details: None,
    }
}

fn names(j: &Json) -> Vec<String> {
    match j {
        Json::Object(f) => f.iter().map(|(k, _)| k.clone()).collect(),
        _ => panic!("an object was expected"),
    }
}

#[test]
fn json_form_leaves_out_absent_members() {
    let j = validation_to_json(bare(ValidationStatus::Invalid));
    assert_eq!(names(&j), vec!["status"]);
    assert_eq!(j, Json::Object(vec![("status".to_string(), Json::Str("invalid".to_string()))]));
    let mut with_error = bare(ValidationStatus::Error);
    with_error.error = Some("x".to_string());
    with_error.details = Some(Json::Null);
    assert_eq!(names(&validation_to_json(with_error)), vec!["status", "error", "details"]);
}

#[test]
fn json_form_of_a_full_result() {
    let report = Json::Object(vec![(
        "assinaturas".to_string(),
        Json::Array(vec![
            Json::Object(vec![("nome".to_string(), Json::Str("A".to_string()))]),
            Json::Object(vec![("nome".to_string(), Json::Str("B".to_string()))]),
        ]),
    )]);
    let j = validation_to_json(process_relatorio(report, "f.pdf"));
    assert_eq!(names(&j), vec!["status", "documento", "assinaturas", "total_assinaturas"]);
    match j {
        Json::Object(f) => {
            assert_eq!(f[0].1, Json::Str("valid".to_string()));
            assert_eq!(f[3].1, Json::Number("2".to_string()));
            assert_eq!(
                names(&f[1].1),
                vec!["nome_arquivo", "hash", "data_validacao", "status_documento"]
            );
            match &f[2].1 {
                Json::Array(items) => {
                    assert_eq!(items.len(), 2);
                    assert_eq!(names(&items[0]).len(), 7);
                }
                _ => panic!("an array was expected"),
            }
        }
        _ => panic!("an object was expected"),
    }
}

#[test]
fn window_state_single_flight() {
    let mut app = ValidadorApp::new();
    assert!(app.pdf_path.is_none());
    assert_eq!(app.language, Language::PtBr);
    assert!(!app.can_validate());
    assert!(app.start_validation().is_none());
    app.select_file("/tmp/a.pdf".to_string());
    app.gerar_relatorio = true;
    assert!(app.can_validate());
    let job = app.start_validation().unwrap();
    assert_eq!(job.pdf_path, "/tmp/a.pdf");
    assert!(job.gerar_relatorio);
    assert!(app.processing);
    assert_eq!(app.status_message, "Validando PDF...");
    assert!(!app.can_validate());
    assert!(app.start_validation().is_none());
    app.finish_validation("done".to_string());
    assert!(!app.processing);
    assert_eq!(app.resultado, "done");
    assert_eq!(app.status_message, "Validação concluída!");
    app.clear();
    assert!(app.pdf_path.is_none());
    assert_eq!(app.resultado, "");
}

#[test]
fn languages_codes_and_names() {
    assert_eq!(Language::PtBr.as_str(), "pt-br");
    assert_eq!(Language::En.as_str(), "en");
    assert_eq!(Language::Es.as_str(), "es");
    assert_eq!(Language::PtBr.display(), "Português (BR)");
    assert_eq!(Language::En.display(), "English");
    assert_eq!(Language::Es.display(), "Español");
    assert_eq!(Language::default(), Language::PtBr);
    assert_eq!(Language::from_code("en"), Some(Language::En));
    assert_eq!(Language::from_code("de"), None);
}

#[test]
fn rendering_a_valid_result() {
    let report = Json::Object(vec![(
        "assinaturas".to_string(),
        Json::Array(vec![Json::Object(vec![
            ("nome".to_string(), Json::Str("Alice".to_string())),
            ("possuiCarimboTempo".to_string(), Json::Bool(true)),
        ])]),
    )]);
    let res = process_relatorio(report, "f.pdf");
    let text = render_validation(&res, "{}");
    assert!(text.starts_with("═══════════════════════════════════════════════\n  RESULTADO DA VALIDAÇÃO\n"));
    assert!(text.contains("✓ STATUS: VÁLIDO\n\nTotal de assinaturas: 1\n\nAssinatura 1:\n  • Assinado por: Alice\n"));
    assert!(text.contains("  • Carimbo de tempo: Sim\n\n"));
    assert!(text.ends_with("  JSON COMPLETO\n───────────────────────────────────────────────\n\n{}"));
}

#[test]
fn rendering_other_results() {
    let mut invalid = bare(ValidationStatus::Invalid);
    invalid.error = Some("sem".to_string());
    assert!(render_validation(&invalid, "").contains("✗ STATUS: INVÁLIDO\n\nErro: sem\n\n"));
    let unknown = bare(ValidationStatus::Unknown);
    assert!(render_validation(&unknown, "").contains("⚠ STATUS: ERRO\n\n\n───"));
    assert_eq!(render_failure("net down"), "✗ ERRO\n\nnet down");
}

#[test]
fn report_generation_outcomes() {
    assert!(should_generate_report(true, &bare(ValidationStatus::Valid)));
    assert!(!should_generate_report(false, &bare(ValidationStatus::Valid)));
    assert!(!should_generate_report(true, &bare(ValidationStatus::Invalid)));
    let failed = ConformidadeResult {
        status: ConformidadeStatus::Error,
        relatorio_conformidade: None,
        json_bruto: None,
        error: Some("HTTP".to_string()),
        details: None,
    };
    let o = report_after_conformidade(failed).unwrap_err();
    assert!(matches!(o, ReportOutcome::FetchFailed(ref m) if m == "HTTP"));
    let ok = ConformidadeResult {
        status: ConformidadeStatus::Success,
        relatorio_conformidade: Some(Json::Null),
        json_bruto: None,
        error: None,
        details: None,
    };
    assert_eq!(report_after_conformidade(ok).unwrap(), Json::Null);
    let pdf = PdfDownloadResult {
        status: DownloadStatus::Success,
        pdf_path: Some("p".to_string()),
        pdf_size: Some(3),
        error: None,
        details: None,
    };
    let saved = report_after_download(pdf, "dir/Relatorio_a.pdf".to_string());
    assert!(render_report_section(&saved).ends_with("✓ Relatório PDF salvo em:\n  dir/Relatorio_a.pdf\n"));
    let bad = PdfDownloadResult {
        status: DownloadStatus::Error,
        pdf_path: None,
        pdf_size: None,
        error: None,
        details: None,
    };
    let failed = report_after_download(bad, "x".to_string());
    assert!(render_report_section(&failed).ends_with("✗ Erro ao baixar PDF: \n"));
    assert!(render_report_section(&ReportOutcome::Skipped).ends_with("GERANDO RELATÓRIO PDF\n═══════════════════════════════════════════════\n\n"));
    assert_eq!(default_report_name("a.pdf"), "Relatorio_a.pdf");
}
