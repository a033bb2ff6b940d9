//! The records that each operation hands back.

use vstd::prelude::*;
use crate::json::Json;

verus! {

/// Verdict of a signature validation.
#[derive(Debug, Clone, Copy, PartialEq, Eq, Structural)]
pub enum ValidationStatus {
    Valid,
    Invalid,
    Error,
    Unknown,
}

/// Outcome of a conformity-report request.
#[derive(Debug, Clone, Copy, PartialEq, Eq, Structural)]
pub enum ConformidadeStatus {
    Success,
    Invalid,
    Error,
}

/// Outcome of a report download.
#[derive(Debug, Clone, Copy, PartialEq, Eq, Structural)]
pub enum DownloadStatus {
    Success,
    Error,
}

/// Metadata of the validated document, as the service reports it.
#[derive(Debug, Clone, PartialEq)]
pub struct Documento {
    pub nome_arquivo: String,
    pub hash: String,
    pub data_validacao: String,
    pub status_documento: String,
}

pub ghost struct DocumentoV {
    pub nome_arquivo: Seq<char>,
    pub hash: Seq<char>,
    pub data_validacao: Seq<char>,
    pub status_documento: Seq<char>,
}

impl View for Documento {
    type V = DocumentoV;

    open spec fn view(&self) -> DocumentoV {
        DocumentoV {
            nome_arquivo: self.nome_arquivo@,
            hash: self.hash@,
            data_validacao: self.data_validacao@,
            status_documento: self.status_documento@,
        }
    }
}

/// One digital signature found in a document.
#[derive(Debug, Clone, PartialEq)]
pub struct Assinatura {
    pub assinado_por: String,
    pub cpf: String,
    pub certificadora: String,
    pub numero_serie_certificado: String,
    pub data_assinatura: String,
    pub status: String,
    pub possui_carimbo_tempo: bool,
}

pub ghost struct AssinaturaV {
    pub assinado_por: Seq<char>,
    pub cpf: Seq<char>,
    pub certificadora: Seq<char>,
    pub numero_serie_certificado: Seq<char>,
    pub data_assinatura: Seq<char>,
    pub status: Seq<char>,
    pub possui_carimbo_tempo: bool,
}

impl View for Assinatura {
    type V = AssinaturaV;

    open spec fn view(&self) -> AssinaturaV {
        AssinaturaV {
            assinado_por: self.assinado_por@,
            cpf: self.cpf@,
            certificadora: self.certificadora@,
            numero_serie_certificado: self.numero_serie_certificado@,
            data_assinatura: self.data_assinatura@,
            status: self.status@,
            possui_carimbo_tempo: self.possui_carimbo_tempo,
        }
    }
}

/// The views of a list of signatures.
pub open spec fn assinaturas_view(v: Seq<Assinatura>) -> Seq<AssinaturaV> {
    v.map_values(|a: Assinatura| a@)
}

/// Outcome of submitting a PDF for signature validation.
#[derive(Debug)]
pub struct ValidationResult {
    pub status: ValidationStatus,
    pub documento: Option<Documento>,
    pub assinaturas: Option<Vec<Assinatura>>,
    pub total_assinaturas: Option<usize>,
    pub error: Option<String>,
    pub details: Option<Json>,
}

pub ghost struct ValidationResultV {
    pub status: ValidationStatus,
    pub documento: Option<DocumentoV>,
    pub assinaturas: Option<Seq<AssinaturaV>>,
    pub total_assinaturas: Option<nat>,
    pub error: Option<Seq<char>>,
    pub details: Option<Json>,
}

impl View for ValidationResult {
    type V = ValidationResultV;

    open spec fn view(&self) -> ValidationResultV {
        ValidationResultV {
            status: self.status,
            documento: match self.documento {
                Some(d) => Some(d@),
                None => None,
            },
            assinaturas: match self.assinaturas {
                Some(v) => Some(assinaturas_view(v@)),
                None => None,
            },
            total_assinaturas: match self.total_assinaturas {
                Some(n) => Some(n as nat),
                None => None,
            },
            error: match self.error {
                Some(e) => Some(e@),
                None => None,
            },
            details: self.details,
        }
    }
}

/// Outcome of requesting a conformity report for a PDF.
#[derive(Debug)]
pub struct ConformidadeResult {
    pub status: ConformidadeStatus,
    pub relatorio_conformidade: Option<Json>,
    pub json_bruto: Option<Json>,
    pub error: Option<String>,
    pub details: Option<Json>,
}

/// Outcome of downloading a conformity report as a PDF.
#[derive(Debug)]
pub struct PdfDownloadResult {
    pub status: DownloadStatus,
    pub pdf_path: Option<String>,
    pub pdf_size: Option<usize>,
    pub error: Option<String>,
    pub details: Option<String>,
}

/// The text of an optional string.
pub open spec fn opt_text(s: Option<String>) -> Option<Seq<char>> {
    match s {
        Some(t) => Some(t@),
        None => None,
    }
}

} // verus!
