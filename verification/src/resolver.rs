//! Module resolution: a specifier plus its referrer is mapped to exactly one
//! canonical module specifier. A relative `./modules/...` reference named
//! from inside the internal namespace is rewritten into the internal
//! namespace; every other specifier goes through standard resolution against
//! its base.

use vstd::prelude::*;
use crate::strutil::starts_with_spec;
use crate::strutil::str_starts_with;
use crate::strutil::str_concat;
use crate::strutil::str_skip;
use crate::trusted::url_parse_of;
use crate::trusted::url_join_of;
use crate::trusted::url_parse;
use crate::trusted::url_join;
use crate::trusted::UrlParseOutcome;

verus! {

/// The internal namespace's scheme-qualified prefix.
pub open spec fn internal_prefix_spec() -> Seq<char> {
    "ejsr:runtime/"@
}

/// The internal prefix without its trailing separator; the rewrite
/// substitutes it for the leading `.` of a relative sibling reference.
pub open spec fn internal_scheme_spec() -> Seq<char> {
    "ejsr:runtime"@
}

/// The relative prefix under which internal modules address their siblings.
pub open spec fn modules_prefix_spec() -> Seq<char> {
    "./modules/"@
}

/// The rewrite rule applies: an internal referrer names a sibling module
/// with a relative `./modules/...` specifier.
pub open spec fn is_internal_relative(specifier: Seq<char>, referrer: Seq<char>) -> bool {
    starts_with_spec(specifier, modules_prefix_spec()) && starts_with_spec(
        referrer,
        internal_prefix_spec(),
    )
}

/// The rewritten form of a relative sibling reference: the internal scheme
/// substituted for the specifier's leading `.`.
pub open spec fn internal_rewrite_spec(specifier: Seq<char>) -> Seq<char> {
    internal_scheme_spec() + specifier.skip(1)
}

/// A specifier carrying one of the recognised relative prefixes.
pub open spec fn has_relative_prefix(s: Seq<char>) -> bool {
    starts_with_spec(s, "/"@) || starts_with_spec(s, "./"@) || starts_with_spec(s, "../"@)
}

/// On which inputs `resolve` succeeds, and with what: the rewritten internal
/// path where the rewrite rule applies (and the rewrite is well-formed);
/// otherwise the canonical form of an absolute specifier, or the join of a
/// relative specifier against its referrer.
pub open spec fn resolve_ok_spec(specifier: Seq<char>, referrer: Seq<char>) -> Option<
    Seq<char>,
> {
    if is_internal_relative(specifier, referrer) {
        match url_parse_of(internal_rewrite_spec(specifier)) {
            Ok(_) => Some(internal_rewrite_spec(specifier)),
            Err(_) => None,
        }
    } else {
        match url_parse_of(specifier) {
            Ok(c) => Some(c),
            Err(e) => if e is None && has_relative_prefix(specifier) {
                match url_join_of(referrer, specifier) {
                    Ok(c) => Some(c),
                    Err(_) => None,
                }
            } else {
                None
            },
        }
    }
}

/// Why one module reference is being resolved. The outcome does not
/// depend on it: the contract of `resolve` speaks only of the specifier
/// and the referrer.
#[derive(Debug, PartialEq, Eq, Clone, Copy)]
pub enum ResolutionKind {
    /// The program's main entry.
    MainModule,
    /// An ordinary static import.
    Import,
    /// An import requested at run time.
    DynamicImport,
}

/// The text an `InvalidSpecifier` failure carries: the parser's message
/// for whichever parse or join refused the specifier.
pub open spec fn resolve_invalid_text_spec(specifier: Seq<char>, referrer: Seq<char>) -> Seq<
    char,
> {
    if is_internal_relative(specifier, referrer) {
        match url_parse_of(internal_rewrite_spec(specifier)) {
            Ok(_) => Seq::empty(),
            Err(Some(m)) => m,
            Err(None) => "relative URL without a base"@,
        }
    } else {
        match url_parse_of(specifier) {
            Ok(_) => Seq::empty(),
            Err(Some(m)) => m,
            Err(None) => match url_join_of(referrer, specifier) {
                Ok(_) => Seq::empty(),
                Err(m) => m,
            },
        }
    }
}

/// Why resolution failed.
#[derive(Debug, PartialEq, Eq, Clone)]
pub enum ResolveError {
    /// The specifier (or its rewritten internal form) is not a well-formed
    /// module specifier; carries the parser's message.
    InvalidSpecifier(String),
    /// The specifier is neither absolute nor prefixed with `/`, `./` or
    /// `../`; carries the specifier itself.
    PrefixMissing(String),
}

/// The human-readable message of one resolution failure.
pub open spec fn resolve_error_message_spec(e: ResolveError) -> Seq<char> {
    match e {
        ResolveError::InvalidSpecifier(m) => m@,
        ResolveError::PrefixMissing(s) => "relative import path '"@ + s@
            + "' is not prefixed with / or ./ or ../"@,
    }
}

impl ResolveError {
    /// Renders the failure as the one generic, human-readable message the
    /// embedder reports.
    pub fn message(&self) -> (r: String)
        ensures
            r@ == resolve_error_message_spec(*self),
    {
        match self {
            ResolveError::InvalidSpecifier(m) => m.clone(),
            ResolveError::PrefixMissing(s) => str_concat(
                str_concat("relative import path '", s.as_str()).as_str(),
                "' is not prefixed with / or ./ or ../",
            ),
        }
    }
}

/// Maps `specifier`, as written in `referrer`, to one canonical module
/// specifier. A `./modules/...` reference from inside the internal namespace
/// is rewritten into the internal namespace; everything else resolves as an
/// absolute URI or relatively against the referrer.
pub fn resolve(specifier: &str, referrer: &str, _kind: ResolutionKind) -> (r: Result<
    String,
    ResolveError,
>)
    ensures
        (r is Ok) == (resolve_ok_spec(specifier@, referrer@) is Some),
        (r matches Ok(s) ==> s@ == resolve_ok_spec(specifier@, referrer@)->Some_0),
        (r matches Err(e) ==> ((e is PrefixMissing) <==> (!is_internal_relative(
            specifier@,
            referrer@,
        ) && url_parse_of(specifier@) is Err && url_parse_of(specifier@)->Err_0 is None
            && !has_relative_prefix(specifier@)))),
        (r matches Err(ResolveError::PrefixMissing(s)) ==> s@ == specifier@),
        (r matches Err(ResolveError::InvalidSpecifier(m)) ==> m@ == resolve_invalid_text_spec(
            specifier@,
            referrer@,
        )),
{
    if str_starts_with(specifier, "./modules/") && str_starts_with(referrer, "ejsr:runtime/") {
        proof {
            reveal_strlit("./modules/");
        }
        let rewritten = str_concat("ejsr:runtime", str_skip(specifier, 1));
        match url_parse(rewritten.as_str()) {
            UrlParseOutcome::Parsed(_) => Ok(rewritten),
            UrlParseOutcome::NeedsBase => Err(
                ResolveError::InvalidSpecifier(String::from_str("relative URL without a base")),
            ),
            UrlParseOutcome::Invalid(m) => Err(ResolveError::InvalidSpecifier(m)),
        }
    } else {
        match url_parse(specifier) {
            UrlParseOutcome::Parsed(c) => Ok(c),
            UrlParseOutcome::NeedsBase => {
                if str_starts_with(specifier, "/") || str_starts_with(specifier, "./")
                    || str_starts_with(specifier, "../") {
                    match url_join(referrer, specifier) {
                        Ok(c) => Ok(c),
                        Err(m) => Err(ResolveError::InvalidSpecifier(m)),
                    }
                } else {
                    Err(ResolveError::PrefixMissing(String::from_str(specifier)))
                }
            },
            UrlParseOutcome::Invalid(m) => Err(ResolveError::InvalidSpecifier(m)),
        }
    }
}

/// Rewrite law: whenever the rewrite rule applies and resolution succeeds,
/// the result is the internal scheme followed by the specifier minus its
/// leading `.`.
pub proof fn lemma_internal_relative_resolution(specifier: Seq<char>, referrer: Seq<char>)
    requires
        is_internal_relative(specifier, referrer),
        resolve_ok_spec(specifier, referrer) is Some,
    ensures
        resolve_ok_spec(specifier, referrer)->Some_0 == internal_scheme_spec() + specifier.skip(
            1,
        ),
{
}

} // verus!
