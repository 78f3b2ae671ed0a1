//! Removes statically known event-handler properties from calls to a JSX
//! factory whose tag is an intrinsic element (a string literal).
mod ast;
mod pattern;
pub mod rules;
pub mod laws;
mod visitor;

pub use ast::{
    entries_m, entry_m, expr_m, exprs_m, Expr, ExprM, Id, ImportNamedSpecifier, Module,
    ModuleExportName, ModuleItem, ModuleItemM, PropEntry, PropEntryM, PropForm, PropKey,
    SpecifierM,
};
pub use visitor::{
    default_jsxs, default_matches, process_transform, texts, TreeshakeEventsConfig,
    TreeshakeEventsVisitor,
};
pub use pattern::{pattern_compiles, pattern_matches, Pattern, PatternError};
