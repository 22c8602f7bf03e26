//! Module loading: a script's source dialect is read off its path, and sources
//! of the typed or JSX dialects are transpiled to plain script before they run.
use deno_ast::{MediaType, ModuleSpecifier, ParseParams};
use vstd::prelude::*;

verus! {

/// The source dialects that the loader tells apart.
#[derive(Debug, Clone, Copy, PartialEq, Eq, Structural)]
pub enum MediaKind {
    TypeScript,
    Mts,
    Cts,
    Jsx,
    Tsx,
    /// Plain script, or anything that is run as it is.
    Other,
}

/// Why a module could not be loaded.
#[derive(Debug, Clone, Copy, PartialEq, Eq, Structural)]
pub enum LoadError {
    /// The source did not parse or could not be transpiled.
    Transpile,
}

/// The dialect that deno_ast reads off a path.
pub uninterp spec fn media_kind_of(path: Seq<char>) -> MediaKind;

/// The plain script that deno_ast makes of a source, `None` where it fails.
pub uninterp spec fn transpiled(path: Seq<char>, code: Seq<char>, kind: MediaKind) -> Option<Seq<char>>;

/// Relies on MediaType::from_path: the dialect follows from the file name.
#[verifier::external_body]
fn media_kind(path: &str) -> (r: MediaKind)
    ensures
        r == media_kind_of(path@),
{
    match MediaType::from_path(std::path::Path::new(path)) {
        MediaType::TypeScript => MediaKind::TypeScript,
        MediaType::Mts => MediaKind::Mts,
        MediaType::Cts => MediaKind::Cts,
        MediaType::Jsx => MediaKind::Jsx,
        MediaType::Tsx => MediaKind::Tsx,
        _ => MediaKind::Other,
    }
}

/// Relies on deno_ast::parse_module and ParsedSource::transpile with default options.
#[verifier::external_body]
fn transpile_source(path: &str, code: String, kind: MediaKind) -> (r: Option<String>)
    ensures
        r is Some <==> transpiled(path@, code@, kind) is Some,
        r is Some ==> r->Some_0@ == transpiled(path@, code@, kind)->Some_0,
{
    let media_type = match kind {
        MediaKind::TypeScript => MediaType::TypeScript,
        MediaKind::Mts => MediaType::Mts,
        MediaKind::Cts => MediaType::Cts,
        MediaKind::Jsx => MediaType::Jsx,
        MediaKind::Tsx => MediaType::Tsx,
        MediaKind::Other => MediaType::JavaScript,
    };
    let specifier = ModuleSpecifier::from_file_path(path).ok()?;
    let params = ParseParams { specifier, text: code.into(), media_type, capture_tokens: false, scope_analysis: false, maybe_syntax: None };
    let parsed = deno_ast::parse_module(params).ok()?;
    let out = parsed.transpile(&Default::default(), &Default::default(), &Default::default()).ok()?;
    Some(out.into_source().text)
}

/// The dialects that are transpiled before they run.
pub open spec fn needs_transpile(kind: MediaKind) -> bool {
    match kind {
        MediaKind::TypeScript | MediaKind::Mts | MediaKind::Cts | MediaKind::Jsx | MediaKind::Tsx => true,
        MediaKind::Other => false,
    }
}

pub struct TsModuleLoader;

impl TsModuleLoader {
    /// Whether a source of dialect `kind` is transpiled.
    pub fn needs_transpile(kind: MediaKind) -> (r: bool)
        ensures
            r == needs_transpile(kind),
    {
        match kind {
            MediaKind::Other => false,
            _ => true,
        }
    }

    /// The plain script to run for the file at `path` whose text is `code`, once
    /// its dialect `kind` is known.
    pub fn source_for_kind(path: &str, code: String, kind: MediaKind) -> (r: Result<String, LoadError>)
        ensures
            !needs_transpile(kind) ==> (r matches Ok(s) && s@ == code@),
            needs_transpile(kind) ==> match transpiled(path@, code@, kind) {
                Some(t) => r matches Ok(s) && s@ == t,
                None => r == Err::<String, LoadError>(LoadError::Transpile),
            },
    {
        if !TsModuleLoader::needs_transpile(kind) {
            return Ok(code);
        }
        match transpile_source(path, code, kind) {
            Some(s) => Ok(s),
            None => Err(LoadError::Transpile),
        }
    }

    /// The plain script to run for the file at `path` whose text is `code`: plain
    /// script as it is, the typed and JSX dialects transpiled.
    pub fn load_source(path: &str, code: String) -> (r: Result<String, LoadError>)
        ensures
            !needs_transpile(media_kind_of(path@)) ==> (r matches Ok(s) && s@ == code@),
            needs_transpile(media_kind_of(path@)) ==> match transpiled(path@, code@, media_kind_of(path@)) {
                Some(t) => r matches Ok(s) && s@ == t,
                None => r == Err::<String, LoadError>(LoadError::Transpile),
            },
    {
        let kind = media_kind(path);
        TsModuleLoader::source_for_kind(path, code, kind)
    }
}

} // verus!
