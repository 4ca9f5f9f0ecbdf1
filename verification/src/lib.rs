//! Runs feed scripts in a sandboxed interpreter and turns what they hand back
//! into one of the four oracle value shapes a feed can declare.
//!
//! A feed names a script and the shape of the value it publishes: a text, a
//! truth value, an unsigned number or a byte sequence. This library runs the
//! script in a Rhai engine of its own, takes the script's last value down as
//! plain data ([`value`]), and coerces it into the declared shape
//! ([`coerce`]), or says why it cannot.
//!
//! The engine has the language's standard and string packages and the host
//! functions of [`host`]. It has no module resolver, so that an `import`
//! loads nothing, it does not parse `eval`, and it writes nothing out.
//!
//! The library does no input or output of its own. The embedding program
//! performs the GET requests that a script asks for and reports each as a
//! [`host::FetchOutcome`]; it may run [`engine::evaluate`] wherever it
//! likes and hand the outcome to [`pipeline::complete_isolated`].
//!
//! What is proved: the coercion rules, the host functions and the records of
//! [`pipeline`] do what their contracts say, on every input and without
//! panicking. What is believed: that `rhai`, `serde_json` and a handful of
//! string routines of the standard library behave as the doc comments of the
//! functions that call them say.

pub mod binary64;
pub mod coerce;
pub mod engine;
pub mod host;
pub mod json;
pub mod laws;
pub mod pipeline;
pub mod text;
pub mod types;
pub mod value;
