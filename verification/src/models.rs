//! The backend model table and per-call model resolution.
//!
//! The model selector is an open string: an unrecognized name is passed to
//! the backend unmodified, which is the authority on validity. The table
//! here is read-only data for a presentation layer.

use vstd::prelude::*;

verus! {

/// Default model for the backend invocation (fastest and cheapest).
pub const DEFAULT_CLAUDE_MODEL: &'static str = "haiku";

/// The model that one call will name: the requested one if any was named,
/// else the default.
pub fn resolve_model(model: &str) -> (r: String)
    ensures
        model@.len() == 0 ==> r@ == DEFAULT_CLAUDE_MODEL@,
        model@.len() != 0 ==> r@ == model@,
{
    if model.is_empty() {
        DEFAULT_CLAUDE_MODEL.to_owned()
    } else {
        model.to_owned()
    }
}

/// The fixed table of backend models, as identifier and label pairs, for a
/// presentation layer.
pub fn get_claude_cli_models() -> (r: Vec<(String, String)>)
    ensures
        r@.len() == 3,
        r@[0].0@ == "haiku"@,
        r@[0].1@ == "Haiku (fastest, cheapest)"@,
        r@[1].0@ == "sonnet"@,
        r@[1].1@ == "Sonnet (balanced)"@,
        r@[2].0@ == "opus"@,
        r@[2].1@ == "Opus (most capable)"@,
{
    let mut v: Vec<(String, String)> = Vec::new();
    v.push(("haiku".to_owned(), "Haiku (fastest, cheapest)".to_owned()));
    v.push(("sonnet".to_owned(), "Sonnet (balanced)".to_owned()));
    v.push(("opus".to_owned(), "Opus (most capable)".to_owned()));
    v
}

} // verus!
