//! State of the desktop front end, and the text it shows.
//!
//! The window owns one `ValidadorApp`; each event of the window is one call
//! of a method here. A validation runs elsewhere: `start_validation` hands
//! out the job, and `finish_validation` takes back its text.

use vstd::prelude::*;
use crate::language::Language;

verus! {

/// What a background validation needs to know.
#[derive(Debug)]
pub struct ValidationJob {
    pub pdf_path: String,
    pub gerar_relatorio: bool,
    pub language: Language,
}

/// The state of the window.
#[derive(Debug)]
pub struct ValidadorApp {
    pub pdf_path: Option<String>,
    pub language: Language,
    pub resultado: String,
    pub status_message: String,
    pub processing: bool,
    pub gerar_relatorio: bool,
}

pub open spec fn validating_message() -> Seq<char> {
    "Validando PDF..."@
}

pub open spec fn finished_message() -> Seq<char> {
    "Validação concluída!"@
}

impl ValidadorApp {
    /// Whether the "validate" action is enabled: a file is chosen and no
    /// validation is running.
    pub open spec fn may_validate(&self) -> bool {
        self.pdf_path is Some && !self.processing
    }

    /// A window with nothing chosen: no file, Portuguese reports, no report
    /// generation, nothing running, nothing shown.
    pub fn new() -> (r: ValidadorApp)
        ensures
            r.pdf_path is None,
            r.language == Language::PtBr,
            r.resultado@ == Seq::<char>::empty(),
            r.status_message@ == Seq::<char>::empty(),
            !r.processing,
            !r.gerar_relatorio,
    {
        ValidadorApp {
            pdf_path: None,
            language: Language::PtBr,
            resultado: String::new(),
            status_message: String::new(),
            processing: false,
            gerar_relatorio: false,
        }
    }

    /// A file was chosen: it replaces the former one, and the result and
    /// status are cleared.
    pub fn select_file(&mut self, path: String)
        ensures
            final(self).pdf_path == Some(path),
            final(self).resultado@ == Seq::<char>::empty(),
            final(self).status_message@ == Seq::<char>::empty(),
            final(self).language == old(self).language,
            final(self).processing == old(self).processing,
            final(self).gerar_relatorio == old(self).gerar_relatorio,
    {
        self.pdf_path = Some(path);
        self.resultado = String::new();
        self.status_message = String::new();
    }

    /// The "clear" action: no file, no result, no status.
    pub fn clear(&mut self)
        ensures
            final(self).pdf_path is None,
            final(self).resultado@ == Seq::<char>::empty(),
            final(self).status_message@ == Seq::<char>::empty(),
            final(self).language == old(self).language,
            final(self).processing == old(self).processing,
            final(self).gerar_relatorio == old(self).gerar_relatorio,
    {
        self.pdf_path = None;
        self.resultado = String::new();
        self.status_message = String::new();
    }

    /// Whether the "validate" action is enabled.
    pub fn can_validate(&self) -> (r: bool)
        ensures
            r == self.may_validate(),
    {
        self.pdf_path.is_some() && !self.processing
    }

    /// The "validate" action. When it is enabled, the window enters the
    /// running state and the job to run is returned; otherwise nothing
    /// changes and no job is returned, so at most one runs at a time.
    pub fn start_validation(&mut self) -> (r: Option<ValidationJob>)
        ensures
            r is Some <==> old(self).may_validate(),
            r is None ==> *final(self) == *old(self),
            r matches Some(job) ==> {
                &&& Some(job.pdf_path) == old(self).pdf_path
                &&& job.gerar_relatorio == old(self).gerar_relatorio
                &&& job.language == old(self).language
                &&& final(self).processing
                &&& final(self).status_message@ == validating_message()
                &&& final(self).resultado@ == Seq::<char>::empty()
                &&& final(self).pdf_path == old(self).pdf_path
                &&& final(self).language == old(self).language
                &&& final(self).gerar_relatorio == old(self).gerar_relatorio
            },
    {
        if self.processing {
            return None;
        }
        match &self.pdf_path {
            Some(p) => {
                let job = ValidationJob {
                    pdf_path: p.clone(),
                    gerar_relatorio: self.gerar_relatorio,
                    language: self.language,
                };
                self.processing = true;
                self.status_message = String::from_str("Validando PDF...");
                self.resultado = String::new();
                Some(job)
            },
            None => None,
        }
    }

    /// The text of a finished validation arrived: it is shown, and the
    /// window leaves the running state.
    pub fn finish_validation(&mut self, text: String)
        ensures
            final(self).resultado == text,
            !final(self).processing,
            final(self).status_message@ == finished_message(),
            final(self).pdf_path == old(self).pdf_path,
            final(self).language == old(self).language,
            final(self).gerar_relatorio == old(self).gerar_relatorio,
    {
        self.resultado = text;
        self.processing = false;
        self.status_message = String::from_str("Validação concluída!");
    }
}

impl Default for ValidadorApp {
    fn default() -> (r: ValidadorApp)
        ensures
            r.pdf_path is None,
            r.language == Language::PtBr,
            !r.processing,
            !r.gerar_relatorio,
    {
        ValidadorApp::new()
    }
}

} // verus!
