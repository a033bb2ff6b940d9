//! Normalization of the "simples" report into a `ValidationResult`.
//!
//! Each field is read under its Portuguese name, then under its English
//! alias, and falls back to a literal default.

use vstd::prelude::*;
use crate::json::{flag_of, flag_or_false, get, get_either, lookup, pick, text_of, text_or, Json};
use crate::types::{assinaturas_view, Assinatura, AssinaturaV, Documento, DocumentoV, ValidationResult, ValidationResultV, ValidationStatus};

verus! {

/// The message of a report whose shape is not an object.
pub open spec fn unknown_format_message() -> Seq<char> {
    "Formato de resposta desconhecido"@
}

/// The signature record read from one report entry.
pub open spec fn assinatura_of(fields: Seq<(String, Json)>) -> AssinaturaV {
    AssinaturaV {
        assinado_por: text_or(pick(fields, "nome"@, "signerName"@), "N/A"@),
        cpf: text_or(pick(fields, "cpf"@, "CPF"@), "N/A"@),
        certificadora: text_or(lookup(fields, "certificadora"@), "N/A"@),
        numero_serie_certificado: text_or(pick(fields, "numSerial"@, "serialNumber"@), "N/A"@),
        data_assinatura: text_or(pick(fields, "data"@, "signatureDate"@), "N/A"@),
        status: text_or(pick(fields, "status"@, "resultado"@), "N/A"@),
        possui_carimbo_tempo: flag_or_false(lookup(fields, "possuiCarimboTempo"@)),
    }
}

/// The signature records of a list of entries: one per entry that is an
/// object, in order; other entries are skipped.
pub open spec fn signatures_of(entries: Seq<Json>) -> Seq<AssinaturaV>
    decreases entries.len(),
{
    if entries.len() == 0 {
        Seq::empty()
    } else {
        let rest = signatures_of(entries.drop_last());
        match entries.last() {
            Json::Object(f) => rest.push(assinatura_of(f@)),
            _ => rest,
        }
    }
}

/// The entries of the signature list: under `assinaturas`, else under
/// `signatures`; none when that member is absent or not an array.
pub open spec fn signature_entries(fields: Seq<(String, Json)>) -> Seq<Json> {
    match pick(fields, "assinaturas"@, "signatures"@) {
        Some(Json::Array(a)) => a@,
        _ => Seq::empty(),
    }
}

/// The document record of a report; its file name falls back to `filename`.
pub open spec fn documento_of(fields: Seq<(String, Json)>, filename: Seq<char>) -> DocumentoV {
    DocumentoV {
        nome_arquivo: text_or(lookup(fields, "nomeArquivo"@), filename),
        hash: text_or(pick(fields, "hash"@, "documentHash"@), "N/A"@),
        data_validacao: text_or(pick(fields, "dataValidacao"@, "validationDate"@), "N/A"@),
        status_documento: text_or(lookup(fields, "statusDocumento"@), "N/A"@),
    }
}

/// The validation result that a report stands for.
pub open spec fn normalized(relatorio: Json, filename: Seq<char>) -> ValidationResultV {
    match relatorio {
        Json::Object(fields) => {
            let sigs = signatures_of(signature_entries(fields@));
            ValidationResultV {
                status: if sigs.len() > 0 {
                    ValidationStatus::Valid
                } else {
                    ValidationStatus::Invalid
                },
                documento: Some(documento_of(fields@, filename)),
                assinaturas: Some(sigs),
                total_assinaturas: Some(sigs.len()),
                error: None,
                details: None,
            }
        },
        _ => ValidationResultV {
            status: ValidationStatus::Unknown,
            documento: None,
            assinaturas: None,
            total_assinaturas: None,
            error: Some(unknown_format_message()),
            details: Some(relatorio),
        },
    }
}


/// Reads one signature entry.
pub fn read_assinatura(fields: &Vec<(String, Json)>) -> (r: Assinatura)
    ensures
        r@ == assinatura_of(fields@),
{
    Assinatura {
        assinado_por: text_of(get_either(fields, "nome", "signerName"), "N/A"),
        cpf: text_of(get_either(fields, "cpf", "CPF"), "N/A"),
        certificadora: text_of(get(fields, &String::from_str("certificadora")), "N/A"),
        numero_serie_certificado: text_of(get_either(fields, "numSerial", "serialNumber"), "N/A"),
        data_assinatura: text_of(get_either(fields, "data", "signatureDate"), "N/A"),
        status: text_of(get_either(fields, "status", "resultado"), "N/A"),
        possui_carimbo_tempo: flag_of(get(fields, &String::from_str("possuiCarimboTempo"))),
    }
}

/// Reads the signature records of a list of entries.
pub fn read_assinaturas(entries: &Vec<Json>) -> (r: Vec<Assinatura>)
    ensures
        assinaturas_view(r@) == signatures_of(entries@),
{
    let mut out: Vec<Assinatura> = Vec::new();
    let mut i: usize = 0;
    while i < entries.len()
        invariant
            0 <= i <= entries.len(),
            assinaturas_view(out@) == signatures_of(entries@.take(i as int)),
        decreases entries.len() - i,
    {
        let ghost before = out@;
        assert(entries@.take(i as int + 1).drop_last() =~= entries@.take(i as int));
        assert(entries@.take(i as int + 1).last() == entries@[i as int]);
        match &entries[i] {
            Json::Object(fields) => {
                let a = read_assinatura(fields);
                out.push(a);
                assert(assinaturas_view(out@) =~= assinaturas_view(before).push(a@));
            },
            _ => {},
        }
        i = i + 1;
    }
    assert(entries@.take(entries@.len() as int) =~= entries@);
    out
}

/// Reads the document record of a report.
pub fn read_documento(fields: &Vec<(String, Json)>, filename: &str) -> (r: Documento)
    ensures
        r@ == documento_of(fields@, filename@),
{
    Documento {
        nome_arquivo: text_of(get(fields, &String::from_str("nomeArquivo")), filename),
        hash: text_of(get_either(fields, "hash", "documentHash"), "N/A"),
        data_validacao: text_of(get_either(fields, "dataValidacao", "validationDate"), "N/A"),
        status_documento: text_of(get(fields, &String::from_str("statusDocumento")), "N/A"),
    }
}

/// Turns a "simples" report into a validation result: `Valid` when at least
/// one signature is found, `Invalid` when none is, and `Unknown`, with the
/// report itself as details, when the report is not an object.
pub fn process_relatorio(relatorio: Json, filename: &str) -> (r: ValidationResult)
    ensures
        r@ == normalized(relatorio, filename@),
        r.status == ValidationStatus::Valid <==> (r.assinaturas is Some && r.assinaturas->0@.len() > 0),
        r.assinaturas is Some ==> r.total_assinaturas == Some(r.assinaturas->0@.len() as usize),
{
    match relatorio {
        Json::Object(fields) => {
            let entries = get_either(&fields, "assinaturas", "signatures");
            let assinaturas = match entries {
                Some(Json::Array(a)) => read_assinaturas(a),
                _ => Vec::new(),
            };
            proof {
                assert(assinaturas_view(assinaturas@) == signatures_of(signature_entries(fields@)));
            }
            let documento = read_documento(&fields, filename);
            let total = assinaturas.len();
            let status = if total > 0 {
                ValidationStatus::Valid
            } else {
                ValidationStatus::Invalid
            };
            ValidationResult {
                status,
                documento: Some(documento),
                assinaturas: Some(assinaturas),
                total_assinaturas: Some(total),
                error: None,
                details: None,
            }
        },
        other => ValidationResult {
            status: ValidationStatus::Unknown,
            documento: None,
            assinaturas: None,
            total_assinaturas: None,
            error: Some(String::from_str("Formato de resposta desconhecido")),
            details: Some(other),
        },
    }
}

} // verus!
