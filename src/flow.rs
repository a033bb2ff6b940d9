//! The decisions taken at each step of the three operations against the
//! validation service. The caller performs each request and hands the reply
//! back; these functions say what the operation returns, or which request
//! comes next.

use vstd::prelude::*;
use crate::json::Json;
use crate::language::Language;
use crate::service::Endpoint;
use crate::relatorio::{normalized, process_relatorio};
use crate::text::{is_success, is_success_code, status_display, status_text};
use crate::types::{
    ConformidadeResult, ConformidadeStatus, DownloadStatus, PdfDownloadResult, ValidationResult,
    ValidationResultV, ValidationStatus, opt_text,
};

verus! {

/// A reply of the service: its status code, its body as text, and the body
/// read as JSON, when it is JSON.
#[derive(Debug)]
pub struct HttpReply {
    pub status: u16,
    pub text: String,
    pub json: Option<Json>,
}

/// What follows an upload: the operation ends with a result, fails with a
/// message, or goes on with the uploaded report.
#[derive(Debug)]
pub enum UploadStep<T> {
    Done(T),
    Failed(String),
    Continue(Json),
}

pub open spec fn not_found_message(path: Seq<char>) -> Seq<char> {
    "Arquivo não encontrado: "@ + path
}

pub open spec fn rejected_message() -> Seq<char> {
    "Documento sem assinatura ou inválido"@
}

pub open spec fn upload_error_message(code: u16) -> Seq<char> {
    "Erro HTTP "@ + status_display(code)
}

pub open spec fn simples_error_message(code: u16) -> Seq<char> {
    "Erro no /simples: "@ + status_display(code)
}

/// The message of a failed step, naming the step's endpoint.
pub open spec fn step_error_message(code: u16, endpoint: Seq<char>) -> Seq<char> {
    "Erro HTTP "@ + status_display(code) + " em "@ + endpoint
}

pub open spec fn parse_failure_message(endpoint: Seq<char>) -> Seq<char> {
    "Erro ao parsear resposta de "@ + endpoint
}

pub open spec fn bad_language_message(language: Seq<char>) -> Seq<char> {
    "Idioma inválido: "@ + language + ". Use 'pt-br', 'en' ou 'es'"@
}

/// A validation result that carries only a status, a message and details.
pub open spec fn failed_validation(
    status: ValidationStatus,
    message: Seq<char>,
    details: Option<Json>,
) -> ValidationResultV {
    ValidationResultV {
        status,
        documento: None,
        assinaturas: None,
        total_assinaturas: None,
        error: Some(message),
        details,
    }
}

fn not_found(path: &str) -> (r: String)
    ensures
        r@ == not_found_message(path@),
{
    let mut s = String::from_str("Arquivo não encontrado: ");
    s.append(path);
    s
}

fn with_status(prefix: &str, code: u16) -> (r: String)
    ensures
        r@ == prefix@ + status_display(code),
{
    let mut s = String::from_str(prefix);
    s.append(status_text(code).as_str());
    s
}

fn step_error(code: u16, endpoint: Endpoint) -> (r: String)
    ensures
        r@ == step_error_message(code, endpoint.path()),
{
    let mut s = with_status("Erro HTTP ", code);
    s.append(" em ");
    s.append(endpoint.path_str());
    s
}

fn parse_failure(endpoint: Endpoint) -> (r: String)
    ensures
        r@ == parse_failure_message(endpoint.path()),
{
    let mut s = String::from_str("Erro ao parsear resposta de ");
    s.append(endpoint.path_str());
    s
}

fn validation_failure(status: ValidationStatus, error: String, details: Option<Json>) -> (r: ValidationResult)
    ensures
        r@ == failed_validation(status, error@, details),
{
    ValidationResult {
        status,
        documento: None,
        assinaturas: None,
        total_assinaturas: None,
        error: Some(error),
        details,
    }
}

/// Before any request of a validation: a missing file ends it at once with
/// an error that names the path.
pub fn validate_start(file_exists: bool, path: &str) -> (r: Option<ValidationResult>)
    ensures
        r is Some <==> !file_exists,
        r matches Some(v) ==> v@ == failed_validation(
            ValidationStatus::Error,
            not_found_message(path@),
            None,
        ),
{
    if file_exists {
        None
    } else {
        Some(validation_failure(ValidationStatus::Error, not_found(path), None))
    }
}

/// After the upload of a validation: a 400 means the service rejects the
/// document; any other failure code is an error; a success goes on to the
/// "simples" step with the uploaded report, which must be JSON.
pub fn validate_after_upload(reply: HttpReply) -> (r: UploadStep<ValidationResult>)
    ensures
        reply.status == 400 ==> (r matches UploadStep::Done(v) && v@ == failed_validation(
            ValidationStatus::Invalid,
            rejected_message(),
            reply.json,
        )),
        reply.status != 400 && !is_success_code(reply.status) ==> (r matches UploadStep::Done(v)
            && v@ == failed_validation(
            ValidationStatus::Error,
            upload_error_message(reply.status),
            Some(Json::Str(reply.text)),
        )),
        is_success_code(reply.status) && reply.json is None ==> (r matches UploadStep::Failed(m)
            && m@ == parse_failure_message(Endpoint::Arquivo.path())),
        is_success_code(reply.status) && reply.json is Some ==> r == UploadStep::<ValidationResult>::Continue(reply.json->0),
{
    if reply.status == 400 {
        let m = String::from_str("Documento sem assinatura ou inválido");
        UploadStep::Done(validation_failure(ValidationStatus::Invalid, m, reply.json))
    } else if !is_success(reply.status) {
        let m = with_status("Erro HTTP ", reply.status);
        UploadStep::Done(validation_failure(ValidationStatus::Error, m, Some(Json::Str(reply.text))))
    } else {
        match reply.json {
            Some(j) => UploadStep::Continue(j),
            None => UploadStep::Failed(parse_failure(Endpoint::Arquivo)),
        }
    }
}

/// After the "simples" step of a validation: a failure code is an error;
/// otherwise the report, which must be JSON, is normalized.
pub fn validate_after_simples(reply: HttpReply, filename: &str) -> (r: Result<ValidationResult, String>)
    ensures
        !is_success_code(reply.status) ==> (r matches Ok(v) && v@ == failed_validation(
            ValidationStatus::Error,
            simples_error_message(reply.status),
            Some(Json::Str(reply.text)),
        )),
        is_success_code(reply.status) && reply.json is None ==> (r matches Err(m) && m@
            == parse_failure_message(Endpoint::Simples.path())),
        is_success_code(reply.status) && reply.json is Some ==> (r matches Ok(v) && v@ == normalized(
            reply.json->0,
            filename@,
        )),
{
    if !is_success(reply.status) {
        let m = with_status("Erro no /simples: ", reply.status);
        Ok(validation_failure(ValidationStatus::Error, m, Some(Json::Str(reply.text))))
    } else {
        match reply.json {
            Some(j) => Ok(process_relatorio(j, filename)),
            None => Err(parse_failure(Endpoint::Simples)),
        }
    }
}

/// Before any request of a conformity report: a missing file ends it at once
/// with an error that names the path.
pub fn conformidade_start(file_exists: bool, path: &str) -> (r: Option<ConformidadeResult>)
    ensures
        r is Some <==> !file_exists,
        r matches Some(c) ==> c.status == ConformidadeStatus::Error && opt_text(c.error) == Some(
            not_found_message(path@),
        ) && c.relatorio_conformidade is None && c.json_bruto is None && c.details is None,
{
    if file_exists {
        None
    } else {
        Some(
            ConformidadeResult {
                status: ConformidadeStatus::Error,
                relatorio_conformidade: None,
                json_bruto: None,
                error: Some(not_found(path)),
                details: None,
            },
        )
    }
}

/// After the upload of a conformity report request: a 400 means the service
/// rejects the document; any other failure code is an error naming
/// `/arquivo`; a success goes on with the uploaded report, which must be
/// JSON.
pub fn conformidade_after_upload(reply: HttpReply) -> (r: UploadStep<ConformidadeResult>)
    ensures
        reply.status == 400 ==> (r matches UploadStep::Done(c) && c.status
            == ConformidadeStatus::Invalid && opt_text(c.error) == Some(rejected_message())
            && c.details == reply.json && c.relatorio_conformidade is None && c.json_bruto is None),
        reply.status != 400 && !is_success_code(reply.status) ==> (r matches UploadStep::Done(c)
            && c.status == ConformidadeStatus::Error && opt_text(c.error) == Some(
            step_error_message(reply.status, Endpoint::Arquivo.path()),
        ) && c.details == Some(Json::Str(reply.text)) && c.relatorio_conformidade is None
            && c.json_bruto is None),
        is_success_code(reply.status) && reply.json is None ==> (r matches UploadStep::Failed(m)
            && m@ == parse_failure_message(Endpoint::Arquivo.path())),
        is_success_code(reply.status) && reply.json is Some ==> r == UploadStep::<
            ConformidadeResult,
        >::Continue(reply.json->0),
{
    if reply.status == 400 {
        UploadStep::Done(
            ConformidadeResult {
                status: ConformidadeStatus::Invalid,
                relatorio_conformidade: None,
                json_bruto: None,
                error: Some(String::from_str("Documento sem assinatura ou inválido")),
                details: reply.json,
            },
        )
    } else if !is_success(reply.status) {
        UploadStep::Done(
            ConformidadeResult {
                status: ConformidadeStatus::Error,
                relatorio_conformidade: None,
                json_bruto: None,
                error: Some(step_error(reply.status, Endpoint::Arquivo)),
                details: Some(Json::Str(reply.text)),
            },
        )
    } else {
        match reply.json {
            Some(j) => UploadStep::Continue(j),
            None => UploadStep::Failed(parse_failure(Endpoint::Arquivo)),
        }
    }
}

/// After the "conformidade" step: a failure code is an error naming
/// `/conformidade` that still carries the uploaded report; otherwise both
/// reports, the second of which must be JSON, make a success.
pub fn conformidade_after_report(json_bruto: Json, reply: HttpReply) -> (r: Result<
    ConformidadeResult,
    String,
>)
    ensures
        !is_success_code(reply.status) ==> (r matches Ok(c) && c.status == ConformidadeStatus::Error
            && opt_text(c.error) == Some(step_error_message(reply.status, Endpoint::Conformidade.path()))
            && c.details == Some(Json::Str(reply.text)) && c.relatorio_conformidade is None
            && c.json_bruto == Some(json_bruto)),
        is_success_code(reply.status) && reply.json is None ==> (r matches Err(m) && m@
            == parse_failure_message(Endpoint::Conformidade.path())),
        is_success_code(reply.status) && reply.json is Some ==> (r matches Ok(c) && c.status
            == ConformidadeStatus::Success && c.relatorio_conformidade == reply.json
            && c.json_bruto == Some(json_bruto) && c.error is None && c.details is None),
{
    if !is_success(reply.status) {
        Ok(
            ConformidadeResult {
                status: ConformidadeStatus::Error,
                relatorio_conformidade: None,
                json_bruto: Some(json_bruto),
                error: Some(step_error(reply.status, Endpoint::Conformidade)),
                details: Some(Json::Str(reply.text)),
            },
        )
    } else {
        match reply.json {
            Some(j) => Ok(
                ConformidadeResult {
                    status: ConformidadeStatus::Success,
                    relatorio_conformidade: Some(j),
                    json_bruto: Some(json_bruto),
                    error: None,
                    details: None,
                },
            ),
            None => Err(parse_failure(Endpoint::Conformidade)),
        }
    }
}

/// Before a report download: a language code outside `pt-br`, `en` and `es`
/// ends it at once with an error that names the code; an accepted code
/// gives the language to request.
pub fn download_start(language: &str) -> (r: Result<Language, PdfDownloadResult>)
    ensures
        r is Ok <==> Language::is_code(language@),
        r matches Ok(l) ==> l.code() == language@,
        r matches Err(d) ==> d.status == DownloadStatus::Error && opt_text(d.error) == Some(
            bad_language_message(language@),
        ) && d.pdf_path is None && d.pdf_size is None && d.details is None,
{
    match Language::from_code(language) {
        Some(l) => Ok(l),
        None => {
            let mut m = String::from_str("Idioma inválido: ");
            m.append(language);
            m.append(". Use 'pt-br', 'en' ou 'es'");
            Err(
                PdfDownloadResult {
                    status: DownloadStatus::Error,
                    pdf_path: None,
                    pdf_size: None,
                    error: Some(m),
                    details: None,
                },
            )
        },
    }
}

/// The body of a download request: the conformity report, as JSON text,
/// under `data`, and the language code under `language`.
pub fn download_request_body(report_text: String, language: Language) -> (r: Json)
    ensures
        r matches Json::Object(f) && f@.len() == 2 && f@[0].0@ == "data"@ && f@[0].1 == Json::Str(
            report_text,
        ) && f@[1].0@ == "language"@ && (f@[1].1 matches Json::Str(s) && s@ == language.code()),
{
    let mut fields: Vec<(String, Json)> = Vec::new();
    fields.push((String::from_str("data"), Json::Str(report_text)));
    fields.push((String::from_str("language"), Json::Str(String::from_str(language.as_str()))));
    Json::Object(fields)
}

/// After the download request: a failure code ends the download with an
/// error naming `/downloadPdf` and the reply's text; `None` lets it go on.
pub fn download_after_reply(status: u16, text: String) -> (r: Option<PdfDownloadResult>)
    ensures
        r is Some <==> !is_success_code(status),
        r matches Some(d) ==> d.status == DownloadStatus::Error && opt_text(d.error) == Some(
            step_error_message(status, Endpoint::DownloadPdf.path()),
        ) && d.details == Some(text) && d.pdf_path is None && d.pdf_size is None,
{
    if is_success(status) {
        None
    } else {
        Some(
            PdfDownloadResult {
                status: DownloadStatus::Error,
                pdf_path: None,
                pdf_size: None,
                error: Some(step_error(status, Endpoint::DownloadPdf)),
                details: Some(text),
            },
        )
    }
}

/// A finished download of `size` bytes, saved at `saved_path` when the
/// caller asked for a file.
pub fn download_finished(size: usize, saved_path: Option<String>) -> (r: PdfDownloadResult)
    ensures
        r.status == DownloadStatus::Success,
        r.pdf_size == Some(size),
        r.pdf_path == saved_path,
        r.error is None,
        r.details is None,
{
    PdfDownloadResult {
        status: DownloadStatus::Success,
        pdf_path: saved_path,
        pdf_size: Some(size),
        error: None,
        details: None,
    }
}

} // verus!
