//! Verified core of an interactive curve-fitting tool: curve families, point text
//! parsing, CSV framing, formula text, editor state machines and export naming.

pub mod family;
pub mod text;
pub mod points_text;
pub mod point_rows;
pub mod csv_import;
pub mod formula;
pub mod formula_text_law;
pub mod history;
pub mod layers;
pub mod replay;
pub mod diagnostics;
pub mod fit_completion;
pub mod normalization;
pub mod model_dimensions;
pub mod catalog_laws;
pub mod fit_control;
pub mod model_catalog;
pub mod optimizer;
pub mod i18n;
pub mod hints;
pub mod export;
pub mod status;
pub mod fit_session;
