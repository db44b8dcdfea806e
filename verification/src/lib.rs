//! Resolver for an application's command/usage specification.
//!
//! A specification can be present on disk in one of two forms: a pre-rendered
//! JSON artifact (a file whose name ends in `cliq.json`) or a source
//! definition (a file whose name ends in `usage.kdl`) that an external parser
//! turns into a structured value. The resolver searches an ordered list of
//! candidate directories and settles on exactly one file: within a directory
//! an artifact wins over a source, more than one file of the same kind is an
//! ambiguity error, and a directory without a qualifying file falls through to
//! the next candidate.
//!
//! The host is expected to list the candidate directories (`CandidateDir`),
//! run [`resolve::resolve`] on them, and then either read the chosen artifact
//! verbatim or hand the chosen source file to the external parser and
//! serialize the parsed value with [`render::render_spec`].

pub mod laws;
pub mod render;
pub mod resolve;
pub mod scan;
pub mod suffix;
