//! Severity-filter resolution: the directives string the subscriber layers
//! are built from. The externally supplied expression wins when it is usable,
//! then the configured expression, then the hardcoded "info" floor; an
//! expression that fails at each stage falls through to the next, never to an
//! error. An expression is usable when it is ASCII and the directive parser
//! accepts it: the parser is only total on ASCII input (see the trusted call
//! below), so a non-ASCII expression is treated as failing to parse.

use vstd::prelude::*;
use vstd::string::StrSliceExecFns;
use vstd::utf8::is_ascii_chars;

verus! {

/// Whether `tracing_subscriber::EnvFilter::try_new` accepts a directives
/// string: a function of the string alone.
pub uninterp spec fn filter_parses(s: Seq<char>) -> bool;

/// Relies on `tracing_subscriber::EnvFilter::try_new`: acceptance of a
/// directives string depends on the string alone. The parser slices the
/// untrimmed string at indices taken from a trimmed copy, so on non-ASCII
/// input it can cut a character in half and panic; ASCII input keeps every
/// byte index on a character boundary, and on it the call always returns.
#[verifier::external_body]
fn directives_parse(s: &str) -> (r: bool)
    requires
        is_ascii_chars(s@),
    ensures
        r == filter_parses(s@),
{
    tracing_subscriber::EnvFilter::try_new(s).is_ok()
}

/// A candidate directives string is used only when it is ASCII and the
/// parser accepts it.
pub open spec fn spec_directives_usable(s: Seq<char>) -> bool {
    is_ascii_chars(s) && filter_parses(s)
}

/// The directives string that filter resolution settles on.
pub open spec fn spec_chosen_directives(external: Option<Seq<char>>, cfg: Seq<char>) -> Seq<
    char,
> {
    match external {
        Some(e) => if spec_directives_usable(e) {
            e
        } else {
            spec_fallback_directives(cfg)
        },
        None => spec_fallback_directives(cfg),
    }
}

/// The configured expression when it is usable, else the "info" floor.
pub open spec fn spec_fallback_directives(cfg: Seq<char>) -> Seq<char> {
    if spec_directives_usable(cfg) {
        cfg
    } else {
        "info"@
    }
}

/// Resolves the severity-filter directives: the externally supplied
/// expression (the process's own filter variable) when present and usable,
/// else the configured expression when usable, else "info". Total: a
/// malformed or non-ASCII expression falls through, it never errors.
pub fn resolve_filter_directives(external: &Option<String>, cfg: &str) -> (r: String)
    ensures
        r@ == spec_chosen_directives(external.deep_view(), cfg@),
{
    if let Some(e) = external {
        if e.as_str().is_ascii() && directives_parse(e.as_str()) {
            return e.clone();
        }
    }
    if cfg.is_ascii() && directives_parse(cfg) {
        return cfg.to_owned();
    }
    "info".to_owned()
}

} // verus!
