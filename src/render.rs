use vstd::prelude::*;
use crate::auth::{AUTH_MIDDLEWARE_SRC, AUTH_ROUTES_SRC};
use crate::config::{names_valid, Config, Route};
use crate::entry::main_source;
use crate::generate::module_decls;
use crate::handlers::handler_file;
use crate::naming::valid_name;

verus! {

/// A generated file that does not parse as Rust source.
#[derive(Clone, Copy, Debug, PartialEq, Eq, Structural)]
pub enum SynthesisError {
    Unparsable,
}

/// The layout that the pretty-printer gives to source text `s`.
pub uninterp spec fn pretty_of(s: Seq<char>) -> Seq<char>;

/// Source text `s` parses as a Rust file.
pub uninterp spec fn parses(s: Seq<char>) -> bool;

/// The texts that this library generates: a handler file, an entry point or
/// a module list over valid resource names, and the two authentication
/// files. They hold only complete items, with no verbatim tokens and no
/// macro definitions.
pub open spec fn generated_source(s: Seq<char>) -> bool {
    ||| s == AUTH_ROUTES_SRC@
    ||| s == AUTH_MIDDLEWARE_SRC@
    ||| exists|n: Seq<char>, a: bool| valid_name(n) && s == #[trigger] handler_file(n, a)
    ||| exists|cfg: Config, rs: Seq<Route>| names_valid(rs) && s == #[trigger] main_source(cfg, rs)
    ||| exists|ns: Seq<String>|
        (forall|i: int| 0 <= i < ns.len() ==> valid_name(#[trigger] ns[i]@)) && s
            == #[trigger] module_decls(ns)
}

/// Relies on syn::parse_file, which parses a whole source file and fails
/// exactly on text that is not one, and on prettyplease::unparse, which
/// prints the parsed file back in a fixed layout. Both results depend on the
/// source text alone. The input is restricted to generated texts: the printer
/// stops on verbatim items and malformed macro definitions, which these texts
/// do not hold.
#[verifier::external_body]
fn pretty_print(src: &str) -> (r: Option<String>)
    requires
        generated_source(src@),
    ensures
        r is Some <==> parses(src@),
        r matches Some(p) ==> p@ == pretty_of(src@),
{
    match syn::parse_file(src) {
        Ok(file) => Some(prettyplease::unparse(&file)),
        Err(_) => None,
    }
}

/// Checks that generated text `src` parses as a Rust file and lays it out;
/// text that does not parse is never handed on.
pub(crate) fn render(src: &str) -> (r: Result<String, SynthesisError>)
    requires
        generated_source(src@),
    ensures
        r is Ok <==> parses(src@),
        r matches Ok(p) ==> p@ == pretty_of(src@),
{
    match pretty_print(src) {
        Some(p) => Ok(p),
        None => Err(SynthesisError::Unparsable),
    }
}

/// An owned copy of `s`.
pub fn text(s: &str) -> (r: String)
    ensures
        r@ == s@,
{
    String::from_str(s)
}

/// `s` when `b` holds, else nothing.
pub open spec fn only_if(b: bool, s: Seq<char>) -> Seq<char> {
    if b {
        s
    } else {
        Seq::empty()
    }
}

/// `s` when `b` holds, else the empty string.
pub fn text_when(b: bool, s: &str) -> (r: String)
    ensures
        r@ == only_if(b, s@),
{
    if b {
        String::from_str(s)
    } else {
        String::new()
    }
}

} // verus!
