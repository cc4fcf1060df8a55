//! Rendering of the messages that an IDE shows when the cursor hovers over code.
//!
//! What a hover is about is handed in as plain values: [`semantics`], [`syntax`] and
//! [`definition`] say what is read of types, tokens and definitions. [`expr`], [`docs`],
//! [`lint`] and [`definition`] render; [`laws`] states what holds of all that they render, and
//! [`expr_laws`], [`docs_laws`], [`lint_laws`] and [`definition_laws`] what each call gives.
pub mod config;
pub mod definition;
pub mod definition_laws;
pub mod docs;
pub mod docs_laws;
pub mod expr;
pub mod expr_laws;
pub mod hover;
pub mod laws;
pub mod lint;
pub mod lint_laws;
pub mod markup;
pub mod semantics;
pub mod syntax;
pub mod text;
