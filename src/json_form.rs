//! The JSON form of a validation result. A member whose value is absent is
//! left out; `status` is always there.

use vstd::prelude::*;
use crate::json::Json;
use crate::text::{decimal, decimal_text};
use crate::types::{assinaturas_view, Assinatura, AssinaturaV, Documento, DocumentoV, ValidationResult, ValidationStatus};

verus! {

/// The names of an object's members, in order.
pub open spec fn names(f: Seq<(String, Json)>) -> Seq<Seq<char>> {
    f.map_values(|p: (String, Json)| p.0@)
}

/// The text a status is written as.
pub open spec fn status_name(s: ValidationStatus) -> Seq<char> {
    match s {
        ValidationStatus::Valid => "valid"@,
        ValidationStatus::Invalid => "invalid"@,
        ValidationStatus::Error => "error"@,
        ValidationStatus::Unknown => "unknown"@,
    }
}

pub open spec fn is_text(j: Json, t: Seq<char>) -> bool {
    j matches Json::Str(s) && s@ == t
}

/// `[name]` when the member is present, nothing otherwise.
pub open spec fn optional_name(present: bool, name: Seq<char>) -> Seq<Seq<char>> {
    if present {
        seq![name]
    } else {
        Seq::empty()
    }
}

/// The member names of a validation result's JSON form, in order.
pub open spec fn validation_member_names(v: ValidationResult) -> Seq<Seq<char>> {
    seq!["status"@] + optional_name(v.documento is Some, "documento"@) + optional_name(
        v.assinaturas is Some,
        "assinaturas"@,
    ) + optional_name(v.total_assinaturas is Some, "total_assinaturas"@) + optional_name(
        v.error is Some,
        "error"@,
    ) + optional_name(v.details is Some, "details"@)
}

/// The JSON form of a document record.
pub open spec fn is_documento_json(j: Json, d: DocumentoV) -> bool {
    j matches Json::Object(f) && names(f@) == seq![
        "nome_arquivo"@,
        "hash"@,
        "data_validacao"@,
        "status_documento"@,
    ] && is_text(f@[0].1, d.nome_arquivo) && is_text(f@[1].1, d.hash) && is_text(
        f@[2].1,
        d.data_validacao,
    ) && is_text(f@[3].1, d.status_documento)
}

/// The JSON form of a signature record.
pub open spec fn is_assinatura_json(j: Json, a: AssinaturaV) -> bool {
    j matches Json::Object(f) && names(f@) == seq![
        "assinado_por"@,
        "cpf"@,
        "certificadora"@,
        "numero_serie_certificado"@,
        "data_assinatura"@,
        "status"@,
        "possui_carimbo_tempo"@,
    ] && is_text(f@[0].1, a.assinado_por) && is_text(f@[1].1, a.cpf) && is_text(
        f@[2].1,
        a.certificadora,
    ) && is_text(f@[3].1, a.numero_serie_certificado) && is_text(f@[4].1, a.data_assinatura)
        && is_text(f@[5].1, a.status) && f@[6].1 == Json::Bool(a.possui_carimbo_tempo)
}

/// The JSON form of a list of signature records.
pub open spec fn is_assinaturas_json(j: Json, s: Seq<AssinaturaV>) -> bool {
    j matches Json::Array(items) && items@.len() == s.len() && forall|i: int|
        0 <= i < s.len() ==> #[trigger] is_assinatura_json(items@[i], s[i])
}

/// Whether `j` is the value that the member `name` of `v`'s JSON form holds.
pub open spec fn is_member_value(name: Seq<char>, j: Json, v: ValidationResult) -> bool {
    &&& name == "status"@ ==> is_text(j, status_name(v.status))
    &&& name == "documento"@ ==> (v.documento matches Some(d) && is_documento_json(j, d@))
    &&& name == "assinaturas"@ ==> (v.assinaturas matches Some(s) && is_assinaturas_json(
        j,
        assinaturas_view(s@),
    ))
    &&& name == "total_assinaturas"@ ==> (v.total_assinaturas matches Some(n) && j matches Json::Number(t)
        && t@ == decimal(n as nat))
    &&& name == "error"@ ==> (v.error matches Some(e) && is_text(j, e@))
    &&& name == "details"@ ==> v.details == Some(j)
}

fn documento_json(d: Documento) -> (r: Json)
    ensures
        is_documento_json(r, d@),
{
    let ghost dv = d@;
    let mut f: Vec<(String, Json)> = Vec::new();
    f.push((String::from_str("nome_arquivo"), Json::Str(d.nome_arquivo)));
    f.push((String::from_str("hash"), Json::Str(d.hash)));
    f.push((String::from_str("data_validacao"), Json::Str(d.data_validacao)));
    f.push((String::from_str("status_documento"), Json::Str(d.status_documento)));
    assert(names(f@) =~= seq!["nome_arquivo"@, "hash"@, "data_validacao"@, "status_documento"@]);
    Json::Object(f)
}

fn assinatura_json(a: Assinatura) -> (r: Json)
    ensures
        is_assinatura_json(r, a@),
{
    let ghost av = a@;
    let mut f: Vec<(String, Json)> = Vec::new();
    f.push((String::from_str("assinado_por"), Json::Str(a.assinado_por)));
    f.push((String::from_str("cpf"), Json::Str(a.cpf)));
    f.push((String::from_str("certificadora"), Json::Str(a.certificadora)));
    f.push((String::from_str("numero_serie_certificado"), Json::Str(a.numero_serie_certificado)));
    f.push((String::from_str("data_assinatura"), Json::Str(a.data_assinatura)));
    f.push((String::from_str("status"), Json::Str(a.status)));
    f.push((String::from_str("possui_carimbo_tempo"), Json::Bool(a.possui_carimbo_tempo)));
    assert(names(f@) =~= seq![
        "assinado_por"@,
        "cpf"@,
        "certificadora"@,
        "numero_serie_certificado"@,
        "data_assinatura"@,
        "status"@,
        "possui_carimbo_tempo"@,
    ]);
    Json::Object(f)
}

fn assinaturas_json(sigs: Vec<Assinatura>) -> (r: Json)
    ensures
        is_assinaturas_json(r, assinaturas_view(sigs@)),
{
    let ghost all = assinaturas_view(sigs@);
    let ghost orig = sigs@;
    let mut rest = sigs;
    let mut items: Vec<Json> = Vec::new();
    while rest.len() > 0
        invariant
            all == assinaturas_view(orig),
            items@.len() + rest@.len() == orig.len(),
            rest@ == orig.subrange(items@.len() as int, orig.len() as int),
            forall|k: int| 0 <= k < items@.len() ==> #[trigger] is_assinatura_json(items@[k], all[k]),
        decreases rest.len(),
    {
        let a = rest.remove(0);
        items.push(assinatura_json(a));
        assert(rest@ =~= orig.subrange(items@.len() as int, orig.len() as int));
    }
    Json::Array(items)
}

fn status_json(s: ValidationStatus) -> (r: Json)
    ensures
        is_text(r, status_name(s)),
{
    match s {
        ValidationStatus::Valid => Json::Str(String::from_str("valid")),
        ValidationStatus::Invalid => Json::Str(String::from_str("invalid")),
        ValidationStatus::Error => Json::Str(String::from_str("error")),
        ValidationStatus::Unknown => Json::Str(String::from_str("unknown")),
    }
}

/// The JSON form of a validation result: `status` first, then each of
/// `documento`, `assinaturas`, `total_assinaturas`, `error` and `details`
/// that is present, in that order.
pub fn validation_to_json(res: ValidationResult) -> (r: Json)
    ensures
        r matches Json::Object(f) && names(f@) == validation_member_names(res) && forall|i: int|
            0 <= i < f@.len() ==> #[trigger] is_member_value(f@[i].0@, f@[i].1, res),
{
    proof {
        reveal_strlit("status");
        reveal_strlit("documento");
        reveal_strlit("assinaturas");
        reveal_strlit("total_assinaturas");
        reveal_strlit("error");
        reveal_strlit("details");
        // the six names have six different lengths
        assert("status"@.len() == 6);
        assert("documento"@.len() == 9);
        assert("assinaturas"@.len() == 11);
        assert("total_assinaturas"@.len() == 17);
        assert("error"@.len() == 5);
        assert("details"@.len() == 7);
    }
    let ghost v = res;
    let mut f: Vec<(String, Json)> = Vec::new();
    f.push((String::from_str("status"), status_json(res.status)));
    assert(names(f@) =~= seq!["status"@]);
    assert(forall|i: int| 0 <= i < f@.len() ==> #[trigger] is_member_value(f@[i].0@, f@[i].1, v));
    match res.documento {
        Some(d) => {
            let ghost before = f@;
            f.push((String::from_str("documento"), documento_json(d)));
            assert(names(f@) =~= names(before).push("documento"@));
            assert(forall|i: int| 0 <= i < f@.len() ==> #[trigger] is_member_value(f@[i].0@, f@[i].1, v));
        },
        None => {},
    }
    assert(names(f@) =~= seq!["status"@] + optional_name(v.documento is Some, "documento"@));
    let ghost n1 = names(f@);
    match res.assinaturas {
        Some(s) => {
            let ghost before = f@;
            f.push((String::from_str("assinaturas"), assinaturas_json(s)));
            assert(names(f@) =~= names(before).push("assinaturas"@));
            assert(forall|i: int| 0 <= i < f@.len() ==> #[trigger] is_member_value(f@[i].0@, f@[i].1, v));
        },
        None => {},
    }
    assert(names(f@) =~= n1 + optional_name(v.assinaturas is Some, "assinaturas"@));
    let ghost n2 = names(f@);
    match res.total_assinaturas {
        Some(n) => {
            let ghost before = f@;
            f.push((String::from_str("total_assinaturas"), Json::Number(decimal_text(n))));
            assert(names(f@) =~= names(before).push("total_assinaturas"@));
            assert(forall|i: int| 0 <= i < f@.len() ==> #[trigger] is_member_value(f@[i].0@, f@[i].1, v));
        },
        None => {},
    }
    assert(names(f@) =~= n2 + optional_name(v.total_assinaturas is Some, "total_assinaturas"@));
    let ghost n3 = names(f@);
    match res.error {
        Some(e) => {
            let ghost before = f@;
            f.push((String::from_str("error"), Json::Str(e)));
            assert(names(f@) =~= names(before).push("error"@));
            assert(forall|i: int| 0 <= i < f@.len() ==> #[trigger] is_member_value(f@[i].0@, f@[i].1, v));
        },
        None => {},
    }
    assert(names(f@) =~= n3 + optional_name(v.error is Some, "error"@));
    let ghost n4 = names(f@);
    match res.details {
        Some(d) => {
            let ghost before = f@;
            f.push((String::from_str("details"), d));
            assert(names(f@) =~= names(before).push("details"@));
            assert(forall|i: int| 0 <= i < f@.len() ==> #[trigger] is_member_value(f@[i].0@, f@[i].1, v));
        },
        None => {},
    }
    assert(names(f@) =~= n4 + optional_name(v.details is Some, "details"@));
    Json::Object(f)
}

} // verus!
