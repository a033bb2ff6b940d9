//! Client-side logic for validating digitally signed PDF documents against
//! the ITI validation service: normalization of the service's reports, the
//! decisions taken at each step of the HTTP exchange, and the state of the
//! desktop front end.

pub mod json;
pub mod language;
pub mod types;
pub mod relatorio;
pub mod text;
pub mod flow;
pub mod json_form;
pub mod desktop;
pub mod render;
pub mod service;
pub mod laws;
