//! Properties that relate the library's functions to one another.

use vstd::prelude::*;
use crate::flow::not_found_message;
use crate::json::{lookup, Json};
use crate::relatorio::{assinatura_of, documento_of};
use crate::json_form::{names, validation_member_names};
use crate::types::ValidationResult;

verus! {

/// The message of a missing file ends with the path itself, so both
/// `validate_start` and `conformidade_start` name the path they could not
/// find.
pub proof fn not_found_message_names_path(path: Seq<char>)
    ensures
        not_found_message(path).len() >= path.len(),
        not_found_message(path).subrange(
            not_found_message(path).len() - path.len(),
            not_found_message(path).len() as int,
        ) == path,
{
    let m = not_found_message(path);
    let p = "Arquivo não encontrado: "@;
    assert(m.subrange(p.len() as int, m.len() as int) =~= path);
}

/// In the JSON form of a validation result (`validation_to_json`), `status`
/// is always a member, and each of `documento`, `assinaturas`, `error` and
/// `details` is a member exactly when the result holds a value for it.
pub proof fn json_form_omits_absent_members(res: ValidationResult, f: Seq<(String, Json)>)
    requires
        names(f) == validation_member_names(res),
    ensures
        names(f).contains("status"@),
        names(f).contains("documento"@) <==> res.documento is Some,
        names(f).contains("assinaturas"@) <==> res.assinaturas is Some,
        names(f).contains("total_assinaturas"@) <==> res.total_assinaturas is Some,
        names(f).contains("error"@) <==> res.error is Some,
        names(f).contains("details"@) <==> res.details is Some,
{
    reveal_strlit("status");
    reveal_strlit("documento");
    reveal_strlit("assinaturas");
    reveal_strlit("total_assinaturas");
    reveal_strlit("error");
    reveal_strlit("details");
    assert("status"@.len() == 6);
    assert("documento"@.len() == 9);
    assert("assinaturas"@.len() == 11);
    assert("total_assinaturas"@.len() == 17);
    assert("error"@.len() == 5);
    assert("details"@.len() == 7);
    let n = names(f);
    assert(n[0] == "status"@);
    let a = seq!["status"@];
    let b = crate::json_form::optional_name(res.documento is Some, "documento"@);
    let c = crate::json_form::optional_name(res.assinaturas is Some, "assinaturas"@);
    let d = crate::json_form::optional_name(res.total_assinaturas is Some, "total_assinaturas"@);
    let e = crate::json_form::optional_name(res.error is Some, "error"@);
    let g = crate::json_form::optional_name(res.details is Some, "details"@);
    assert(n =~= a + b + c + d + e + g);
    // each name lies in the part that may hold it, and nowhere else
    assert forall|x: Seq<char>| #[trigger] n.contains(x) <==> (a.contains(x) || b.contains(x)
        || c.contains(x) || d.contains(x) || e.contains(x) || g.contains(x)) by {
        if n.contains(x) {
            let i = choose|i: int| 0 <= i < n.len() && n[i] == x;
            let ab = a + b;
            let abc = ab + c;
            let abcd = abc + d;
            let abcde = abcd + e;
            if i < a.len() {
                assert(a[i] == x);
            } else if i < ab.len() {
                assert(b[i - a.len()] == x);
            } else if i < abc.len() {
                assert(c[i - ab.len()] == x);
            } else if i < abcd.len() {
                assert(d[i - abc.len()] == x);
            } else if i < abcde.len() {
                assert(e[i - abcd.len()] == x);
            } else {
                assert(g[i - abcde.len()] == x);
            }
        }
        if a.contains(x) || b.contains(x) || c.contains(x) || d.contains(x) || e.contains(x)
            || g.contains(x) {
            let ab = a + b;
            let abc = ab + c;
            let abcd = abc + d;
            let abcde = abcd + e;
            if a.contains(x) {
                assert(n[0] == x);
            } else if b.contains(x) {
                assert(n[a.len() as int] == x);
            } else if c.contains(x) {
                assert(n[ab.len() as int] == x);
            } else if d.contains(x) {
                assert(n[abc.len() as int] == x);
            } else if e.contains(x) {
                assert(n[abcd.len() as int] == x);
            } else {
                assert(n[abcde.len() as int] == x);
            }
        }
    }
    assert(a.contains("status"@));
    if res.documento is Some {
        assert(b[0] == "documento"@);
    }
    if res.assinaturas is Some {
        assert(c[0] == "assinaturas"@);
    }
    if res.total_assinaturas is Some {
        assert(d[0] == "total_assinaturas"@);
    }
    if res.error is Some {
        assert(e[0] == "error"@);
    }
    if res.details is Some {
        assert(g[0] == "details"@);
    }
}

/// Whether `fp` holds under the Portuguese name `p` exactly what `fe` holds
/// under the English name `e`, and neither uses the other's name.
pub open spec fn same_under_alias(
    fp: Seq<(String, Json)>,
    fe: Seq<(String, Json)>,
    p: Seq<char>,
    e: Seq<char>,
) -> bool {
    &&& lookup(fp, p) == lookup(fe, e)
    &&& lookup(fp, e) is None
    &&& lookup(fe, p) is None
}

/// A signature entry written with the English names reads as the same
/// record as one written with the Portuguese names, when both hold the same
/// values.
pub proof fn english_signature_names_read_alike(fp: Seq<(String, Json)>, fe: Seq<(String, Json)>)
    requires
        same_under_alias(fp, fe, "nome"@, "signerName"@),
        same_under_alias(fp, fe, "cpf"@, "CPF"@),
        same_under_alias(fp, fe, "numSerial"@, "serialNumber"@),
        same_under_alias(fp, fe, "data"@, "signatureDate"@),
        same_under_alias(fp, fe, "status"@, "resultado"@),
        lookup(fp, "certificadora"@) == lookup(fe, "certificadora"@),
        lookup(fp, "possuiCarimboTempo"@) == lookup(fe, "possuiCarimboTempo"@),
    ensures
        assinatura_of(fp) == assinatura_of(fe),
{
}

/// A report written with the English document names reads as the same
/// document record as one written with the Portuguese names, when both hold
/// the same values.
pub proof fn english_document_names_read_alike(
    fp: Seq<(String, Json)>,
    fe: Seq<(String, Json)>,
    filename: Seq<char>,
)
    requires
        same_under_alias(fp, fe, "hash"@, "documentHash"@),
        same_under_alias(fp, fe, "dataValidacao"@, "validationDate"@),
        lookup(fp, "nomeArquivo"@) == lookup(fe, "nomeArquivo"@),
        lookup(fp, "statusDocumento"@) == lookup(fe, "statusDocumento"@),
    ensures
        documento_of(fp, filename) == documento_of(fe, filename),
{
}

} // verus!
