//! Validation core of a service that registers markings: labelled
//! classification tags with a name, a type and a free-text definition.
//!
//! Untrusted strings become domain values only through the parse functions in
//! [`domain`]; [`routes`] assembles a whole request into one validated
//! aggregate. [`text`] holds the Unicode facts that the rules are stated over.

pub mod domain;
pub mod routes;
pub mod text;
