//! Signature analysis for request handlers.
//!
//! A handler is a function that a web-serving framework can call for an
//! incoming request. The framework accepts a function only if it is
//! asynchronous, takes recognized argument types, takes the argument that
//! consumes the request body last, and returns a recognized response type.
//! This crate checks a function's declared shape against those four rules
//! and reports the first one that is broken, with the place in the source
//! that breaks it.
//!
//! The analysis runs in stages, each a module:
//!
//! - [`model`] builds a [`SignatureModel`] from a declaration;
//! - [`table`] classifies the types written in it;
//! - [`rules`] holds the four rules;
//! - [`selector`] picks the first rule that is broken;
//! - [`emitter`] decides what the host toolchain is told, and [`report`]
//!   renders it as text;
//! - [`router`] runs all of this over the handlers of a router.
//!
//! [`laws`] proves what holds of every signature, and [`service`] holds the
//! compile-time checks of a service value.

pub mod emitter;
pub mod laws;
pub mod model;
pub mod report;
pub mod router;
pub mod rules;
pub mod selector;
pub mod service;
pub mod span;
pub mod table;
pub mod types;

pub use crate::emitter::{analyze, emit, Emission, LocalizedError};
pub use crate::model::{
    build_signature, ArgumentSyntax, BuildError, Declaration, FunctionSyntax, ParamInfo,
    ReturnInfo, SignatureModel,
};
pub use crate::report::render_report;
pub use crate::router::{aggregate, HandlerReport};
pub use crate::rules::{rule_set, MessageTemplate, RuleId};
pub use crate::selector::{select, Diagnostic};
pub use crate::service::{check_service, debug_service};
pub use crate::span::{Position, SourceSpan};
pub use crate::table::{Recognition, Role, TableEntry, TypeClass, TypeTable};
pub use crate::types::{Ownership, TypeRef};
