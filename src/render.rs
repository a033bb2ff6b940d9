//! The text report that the desktop front end shows for a validation.

use vstd::prelude::*;
use crate::text::{decimal, decimal_text};
use crate::json::Json;
use crate::types::{
    assinaturas_view, Assinatura, AssinaturaV, ConformidadeResult, ConformidadeStatus, DownloadStatus,
    PdfDownloadResult, ValidationResult, ValidationResultV, ValidationStatus, opt_text,
};

verus! {

pub open spec fn heavy_rule() -> Seq<char> {
    "═══════════════════════════════════════════════\n"@
}

pub open spec fn light_rule() -> Seq<char> {
    "───────────────────────────────────────────────\n"@
}

/// The lines that describe the `n`-th signature (counting from one).
pub open spec fn signature_block(n: nat, a: AssinaturaV) -> Seq<char> {
    "Assinatura "@ + decimal(n) + ":\n"@
        + "  • Assinado por: "@ + a.assinado_por + "\n"@
        + "  • CPF: "@ + a.cpf + "\n"@
        + "  • Certificadora: "@ + a.certificadora + "\n"@
        + "  • Status: "@ + a.status + "\n"@
        + "  • Carimbo de tempo: "@ + (if a.possui_carimbo_tempo { "Sim"@ } else { "Não"@ }) + "\n\n"@
}

/// The blocks of a list of signatures, numbered from one, in order.
pub open spec fn signature_blocks(s: Seq<AssinaturaV>) -> Seq<char>
    decreases s.len(),
{
    if s.len() == 0 {
        Seq::empty()
    } else {
        signature_blocks(s.drop_last()) + signature_block(s.len(), s.last())
    }
}

/// The line of a message, if there is one.
pub open spec fn error_line(e: Option<Seq<char>>) -> Seq<char> {
    match e {
        Some(m) => "Erro: "@ + m + "\n\n"@,
        None => Seq::empty(),
    }
}

/// What the status part of the text holds: for a valid result, the count
/// and the list of signatures; for any other, its message.
pub open spec fn status_section(v: ValidationResultV) -> Seq<char> {
    match v.status {
        ValidationStatus::Valid => "✓ STATUS: VÁLIDO\n\n"@ + match v.total_assinaturas {
            Some(n) => "Total de assinaturas: "@ + decimal(n) + "\n\n"@,
            None => Seq::empty(),
        } + match v.assinaturas {
            Some(s) => signature_blocks(s),
            None => Seq::empty(),
        },
        ValidationStatus::Invalid => "✗ STATUS: INVÁLIDO\n\n"@ + error_line(v.error),
        _ => "⚠ STATUS: ERRO\n\n"@ + error_line(v.error),
    }
}

/// The whole text of a validation: a title, the verdict section, and the
/// result's JSON form `json`.
pub open spec fn validation_text(v: ValidationResultV, json: Seq<char>) -> Seq<char> {
    heavy_rule() + "  RESULTADO DA VALIDAÇÃO\n"@ + heavy_rule() + "\n"@
        + status_section(v)
        + "\n"@ + light_rule() + "  JSON COMPLETO\n"@ + light_rule() + "\n"@
        + json
}

fn push_error_line(out: &mut String, e: &Option<String>)
    ensures
        final(out)@ == old(out)@ + error_line(
            match e {
                Some(m) => Some(m@),
                None => None,
            },
        ),
{
    match e {
        Some(m) => {
            out.append("Erro: ");
            out.append(m.as_str());
            out.append("\n\n");
        },
        None => {
            assert(out@ =~= out@ + Seq::<char>::empty());
        },
    }
}

fn signature_text(n: usize, a: &Assinatura) -> (r: String)
    ensures
        r@ == signature_block(n as nat, a@),
{
    let mut s = String::from_str("Assinatura ");
    s.append(decimal_text(n).as_str());
    s.append(":\n");
    s.append("  • Assinado por: ");
    s.append(a.assinado_por.as_str());
    s.append("\n");
    s.append("  • CPF: ");
    s.append(a.cpf.as_str());
    s.append("\n");
    s.append("  • Certificadora: ");
    s.append(a.certificadora.as_str());
    s.append("\n");
    s.append("  • Status: ");
    s.append(a.status.as_str());
    s.append("\n");
    s.append("  • Carimbo de tempo: ");
    s.append(if a.possui_carimbo_tempo { "Sim" } else { "Não" });
    s.append("\n\n");
    s
}

fn push_signatures(out: &mut String, sigs: &Vec<Assinatura>)
    ensures
        final(out)@ == old(out)@ + signature_blocks(assinaturas_view(sigs@)),
{
    let ghost start = out@;
    let ghost all = assinaturas_view(sigs@);
    let mut i: usize = 0;
    while i < sigs.len()
        invariant
            0 <= i <= sigs.len(),
            all == assinaturas_view(sigs@),
            out@ == start + signature_blocks(all.take(i as int)),
        decreases sigs.len() - i,
    {
        let block = signature_text(i + 1, &sigs[i]);
        proof {
            assert(all.take(i as int + 1).drop_last() =~= all.take(i as int));
            assert(all.take(i as int + 1).last() == sigs@[i as int]@);
        }
        out.append(block.as_str());
        assert(out@ =~= start + signature_blocks(all.take(i as int + 1)));
        i = i + 1;
    }
    assert(all.take(sigs.len() as int) =~= all);
}

/// The text that the window shows for a validation result, with the
/// result's JSON form `json_pretty` at its end.
pub fn render_validation(res: &ValidationResult, json_pretty: &str) -> (r: String)
    ensures
        r@ == validation_text(res@, json_pretty@),
{
    let mut out = String::from_str("═══════════════════════════════════════════════\n");
    out.append("  RESULTADO DA VALIDAÇÃO\n");
    out.append("═══════════════════════════════════════════════\n");
    out.append("\n");
    let ghost head = out@;
    match res.status {
        ValidationStatus::Valid => {
            out.append("✓ STATUS: VÁLIDO\n\n");
            match res.total_assinaturas {
                Some(total) => {
                    out.append("Total de assinaturas: ");
                    out.append(decimal_text(total).as_str());
                    out.append("\n\n");
                },
                None => {},
            }
            match &res.assinaturas {
                Some(sigs) => push_signatures(&mut out, sigs),
                None => {},
            }
            assert(out@ =~= head + status_section(res@));
        },
        ValidationStatus::Invalid => {
            out.append("✗ STATUS: INVÁLIDO\n\n");
            push_error_line(&mut out, &res.error);
            assert(out@ =~= head + status_section(res@));
        },
        _ => {
            out.append("⚠ STATUS: ERRO\n\n");
            push_error_line(&mut out, &res.error);
            assert(out@ =~= head + status_section(res@));
        },
    }
    out.append("\n");
    out.append("───────────────────────────────────────────────\n");
    out.append("  JSON COMPLETO\n");
    out.append("───────────────────────────────────────────────\n");
    out.append("\n");
    out.append(json_pretty);
    out
}

/// How the report generation that follows a validation ended.
#[derive(Debug)]
pub enum ReportOutcome {
    /// The report was saved at this path.
    Saved(String),
    /// The download failed with this message.
    DownloadFailed(String),
    /// The conformity report could not be had, with this message.
    FetchFailed(String),
    /// The service reported success without a report: nothing was done.
    Skipped,
}

/// Whether a report is generated after a validation: only when asked for,
/// and only for a valid document.
pub fn should_generate_report(gerar_relatorio: bool, res: &ValidationResult) -> (r: bool)
    ensures
        r == (gerar_relatorio && res.status == ValidationStatus::Valid),
{
    gerar_relatorio && res.status == ValidationStatus::Valid
}

/// The text of an optional message, empty when there is none.
pub open spec fn text_or_empty(e: Option<Seq<char>>) -> Seq<char> {
    match e {
        Some(m) => m,
        None => Seq::empty(),
    }
}

fn take_text(e: Option<String>) -> (r: String)
    ensures
        r@ == text_or_empty(opt_text(e)),
{
    match e {
        Some(m) => m,
        None => String::new(),
    }
}

/// After the conformity request of a report generation: on success with a
/// report, that report is the one to download; otherwise the generation
/// ends here.
pub fn report_after_conformidade(c: ConformidadeResult) -> (r: Result<Json, ReportOutcome>)
    ensures
        c.status == ConformidadeStatus::Success && c.relatorio_conformidade is Some ==> r == Ok::<
            Json,
            ReportOutcome,
        >(c.relatorio_conformidade->0),
        c.status == ConformidadeStatus::Success && c.relatorio_conformidade is None ==> r == Err::<
            Json,
            ReportOutcome,
        >(ReportOutcome::Skipped),
        c.status != ConformidadeStatus::Success ==> (r matches Err(ReportOutcome::FetchFailed(m))
            && m@ == text_or_empty(opt_text(c.error))),
{
    match c.status {
        ConformidadeStatus::Success => match c.relatorio_conformidade {
            Some(j) => Ok(j),
            None => Err(ReportOutcome::Skipped),
        },
        _ => Err(ReportOutcome::FetchFailed(take_text(c.error))),
    }
}

/// After the download of a report generation: saved at `output_path` on
/// success, or failed with the download's message.
pub fn report_after_download(p: PdfDownloadResult, output_path: String) -> (r: ReportOutcome)
    ensures
        p.status == DownloadStatus::Success ==> r == ReportOutcome::Saved(output_path),
        p.status != DownloadStatus::Success ==> (r matches ReportOutcome::DownloadFailed(m) && m@
            == text_or_empty(opt_text(p.error))),
{
    match p.status {
        DownloadStatus::Success => ReportOutcome::Saved(output_path),
        _ => ReportOutcome::DownloadFailed(take_text(p.error)),
    }
}

/// The lines that say how a report generation ended.
pub open spec fn outcome_lines(o: ReportOutcome) -> Seq<char> {
    match o {
        ReportOutcome::Saved(p) => "✓ Relatório PDF salvo em:\n  "@ + p@ + "\n"@,
        ReportOutcome::DownloadFailed(m) => "✗ Erro ao baixar PDF: "@ + m@ + "\n"@,
        ReportOutcome::FetchFailed(m) => "✗ Erro ao obter relatório: "@ + m@ + "\n"@,
        ReportOutcome::Skipped => Seq::empty(),
    }
}

/// The section that follows a validation's text when a report was
/// generated: a title, then how it ended.
pub open spec fn report_section_text(o: ReportOutcome) -> Seq<char> {
    "\n\n"@ + heavy_rule() + "  GERANDO RELATÓRIO PDF\n"@ + heavy_rule() + "\n"@ + outcome_lines(o)
}

/// The section that follows a validation's text when a report was
/// generated.
pub fn render_report_section(o: &ReportOutcome) -> (r: String)
    ensures
        r@ == report_section_text(*o),
{
    let mut out = String::from_str("\n\n");
    out.append("═══════════════════════════════════════════════\n");
    out.append("  GERANDO RELATÓRIO PDF\n");
    out.append("═══════════════════════════════════════════════\n");
    out.append("\n");
    let ghost head = out@;
    match o {
        ReportOutcome::Saved(p) => {
            out.append("✓ Relatório PDF salvo em:\n  ");
            out.append(p.as_str());
            out.append("\n");
        },
        ReportOutcome::DownloadFailed(m) => {
            out.append("✗ Erro ao baixar PDF: ");
            out.append(m.as_str());
            out.append("\n");
        },
        ReportOutcome::FetchFailed(m) => {
            out.append("✗ Erro ao obter relatório: ");
            out.append(m.as_str());
            out.append("\n");
        },
        ReportOutcome::Skipped => {},
    }
    assert(out@ =~= head + outcome_lines(*o));
    out
}

/// The text shown when a validation failed before it had a result.
pub fn render_failure(message: &str) -> (r: String)
    ensures
        r@ == "✗ ERRO\n\n"@ + message@,
{
    let mut out = String::from_str("✗ ERRO\n\n");
    out.append(message);
    out
}

/// The file name a report is saved under when no path is given.
pub fn default_report_name(file_name: &str) -> (r: String)
    ensures
        r@ == "Relatorio_"@ + file_name@,
{
    let mut out = String::from_str("Relatorio_");
    out.append(file_name);
    out
}

} // verus!
