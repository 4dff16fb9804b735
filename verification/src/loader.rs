//! Module loading: dispatch by namespace. A specifier under the internal
//! prefix must name one of the compiled-in modules, whose source ships with
//! the binary; any other specifier must denote a local file, which the
//! embedder reads and hands back to `finish_file_load`. Loading is
//! idempotent and keeps no cache.

use vstd::prelude::*;
use crate::strutil::starts_with_spec;
use crate::strutil::str_starts_with;
use crate::strutil::str_eq;
use crate::strutil::str_skip;
use crate::resolver::internal_prefix_spec;
use crate::trusted::file_path_of;
use crate::trusted::url_to_file_path;

verus! {

/// The compiled-in source of the bootstrap entry module.
pub fn bootstrap_source() -> (r: &'static str)
    ensures
        r@ == bootstrap_source_spec(),
{
    "import './modules/console.js';\nimport './modules/fetch.js';\nimport './modules/fs.js';\nimport './modules/timer.js';\nimport './modules/crypto.js';\n"
}

pub open spec fn bootstrap_source_spec() -> Seq<char> {
    "import './modules/console.js';\nimport './modules/fetch.js';\nimport './modules/fs.js';\nimport './modules/timer.js';\nimport './modules/crypto.js';\n"@
}

/// The compiled-in source of the console module.
pub fn console_source() -> (r: &'static str)
    ensures
        r@ == console_source_spec(),
{
    "const core = globalThis.Deno.core;\nglobalThis.console = {\n  log(...args) { core.print(args.map(String).join(' ') + '\\n', false); },\n  error(...args) { core.print(args.map(String).join(' ') + '\\n', true); },\n};\n"
}

pub open spec fn console_source_spec() -> Seq<char> {
    "const core = globalThis.Deno.core;\nglobalThis.console = {\n  log(...args) { core.print(args.map(String).join(' ') + '\\n', false); },\n  error(...args) { core.print(args.map(String).join(' ') + '\\n', true); },\n};\n"@
}

/// The compiled-in source of the fetch module.
pub fn fetch_source() -> (r: &'static str)
    ensures
        r@ == fetch_source_spec(),
{
    "const core = globalThis.Deno.core;\nglobalThis.fetch = (url, init) => core.ops.op_fetch(url, init);\n"
}

pub open spec fn fetch_source_spec() -> Seq<char> {
    "const core = globalThis.Deno.core;\nglobalThis.fetch = (url, init) => core.ops.op_fetch(url, init);\n"@
}

/// The compiled-in source of the filesystem module.
pub fn fs_source() -> (r: &'static str)
    ensures
        r@ == fs_source_spec(),
{
    "const core = globalThis.Deno.core;\nglobalThis.readFile = (path) => core.ops.op_read_file(path);\nglobalThis.writeFile = (path, contents) => core.ops.op_write_file(path, contents);\nglobalThis.removeFile = (path) => core.ops.op_remove_file(path);\n"
}

pub open spec fn fs_source_spec() -> Seq<char> {
    "const core = globalThis.Deno.core;\nglobalThis.readFile = (path) => core.ops.op_read_file(path);\nglobalThis.writeFile = (path, contents) => core.ops.op_write_file(path, contents);\nglobalThis.removeFile = (path) => core.ops.op_remove_file(path);\n"@
}

/// The compiled-in source of the timer module.
pub fn timer_source() -> (r: &'static str)
    ensures
        r@ == timer_source_spec(),
{
    "const core = globalThis.Deno.core;\nglobalThis.setTimeout = (delay) => core.ops.op_set_timeout(delay);\n"
}

pub open spec fn timer_source_spec() -> Seq<char> {
    "const core = globalThis.Deno.core;\nglobalThis.setTimeout = (delay) => core.ops.op_set_timeout(delay);\n"@
}

/// The compiled-in source of the crypto module.
pub fn crypto_source() -> (r: &'static str)
    ensures
        r@ == crypto_source_spec(),
{
    "const core = globalThis.Deno.core;\nglobalThis.md5Hash = (text) => core.ops.op_md5_hash(text);\n"
}

pub open spec fn crypto_source_spec() -> Seq<char> {
    "const core = globalThis.Deno.core;\nglobalThis.md5Hash = (text) => core.ops.op_md5_hash(text);\n"@
}

/// The fixed set of internal module paths (relative to the internal prefix).
pub open spec fn is_internal_module(rel: Seq<char>) -> bool {
    ||| rel == "index.js"@
    ||| rel == "modules/console.js"@
    ||| rel == "modules/fetch.js"@
    ||| rel == "modules/fs.js"@
    ||| rel == "modules/timer.js"@
    ||| rel == "modules/crypto.js"@
}

/// The compiled-in source text of one internal module.
pub open spec fn internal_source_spec(rel: Seq<char>) -> Seq<char> {
    if rel == "index.js"@ {
        bootstrap_source_spec()
    } else if rel == "modules/console.js"@ {
        console_source_spec()
    } else if rel == "modules/fetch.js"@ {
        fetch_source_spec()
    } else if rel == "modules/fs.js"@ {
        fs_source_spec()
    } else if rel == "modules/timer.js"@ {
        timer_source_spec()
    } else if rel == "modules/crypto.js"@ {
        crypto_source_spec()
    } else {
        Seq::empty()
    }
}

/// Why loading failed.
#[derive(Debug, PartialEq, Eq, Clone)]
pub enum LoadError {
    /// No compiled-in module under the requested internal path; carries
    /// exactly that path.
    NotFound(String),
    /// The specifier cannot denote a local filesystem path; carries the
    /// specifier.
    InvalidPath(String),
    /// A filesystem read failed; carries the OS error's message.
    Io(String),
}

/// The human-readable message of one load failure.
pub open spec fn load_error_message_spec(e: LoadError) -> Seq<char> {
    match e {
        LoadError::NotFound(p) => "internal module '"@ + p@ + "' does not exist"@,
        LoadError::InvalidPath(s) => "cannot turn '"@ + s@ + "' into a file path"@,
        LoadError::Io(m) => m@,
    }
}

impl LoadError {
    /// Renders the failure as the one generic, human-readable message the
    /// embedder reports; no failure is swallowed.
    pub fn message(&self) -> (r: String)
        ensures
            r@ == load_error_message_spec(*self),
    {
        match self {
            LoadError::NotFound(p) => crate::strutil::str_concat(
                crate::strutil::str_concat("internal module '", p.as_str()).as_str(),
                "' does not exist",
            ),
            LoadError::InvalidPath(s) => crate::strutil::str_concat(
                crate::strutil::str_concat("cannot turn '", s.as_str()).as_str(),
                "' into a file path",
            ),
            LoadError::Io(m) => m.clone(),
        }
    }
}

/// The one module kind in use.
#[derive(Debug, PartialEq, Eq, Clone, Copy)]
pub enum ModuleKind {
    Script,
}

/// A loaded module: its canonical specifier paired with its source text.
/// Never mutated after creation; re-requesting a specifier yields a fresh
/// record.
#[derive(Debug, PartialEq, Eq, Clone)]
pub struct ModuleRecord {
    pub specifier: String,
    pub source: String,
    pub kind: ModuleKind,
}

/// Looks one internal path up in the compiled-in set. Exactly the known
/// paths succeed; any other path fails with `NotFound` naming that path.
pub fn load_internal(rel: &str) -> (r: Result<String, LoadError>)
    ensures
        (r is Ok) == is_internal_module(rel@),
        (r matches Ok(src) ==> src@ == internal_source_spec(rel@)),
        (r matches Err(e) ==> (e matches LoadError::NotFound(p) && p@ == rel@)),
{
    if str_eq(rel, "index.js") {
        Ok(String::from_str(bootstrap_source()))
    } else if str_eq(rel, "modules/console.js") {
        Ok(String::from_str(console_source()))
    } else if str_eq(rel, "modules/fetch.js") {
        Ok(String::from_str(fetch_source()))
    } else if str_eq(rel, "modules/fs.js") {
        Ok(String::from_str(fs_source()))
    } else if str_eq(rel, "modules/timer.js") {
        Ok(String::from_str(timer_source()))
    } else if str_eq(rel, "modules/crypto.js") {
        Ok(String::from_str(crypto_source()))
    } else {
        Err(LoadError::NotFound(String::from_str(rel)))
    }
}

/// A specifier in the internal namespace.
pub open spec fn is_internal_specifier(s: Seq<char>) -> bool {
    starts_with_spec(s, internal_prefix_spec())
}

/// The path component of an internal specifier, after the prefix.
pub open spec fn internal_rel_spec(s: Seq<char>) -> Seq<char> {
    s.skip(internal_prefix_spec().len() as int)
}

/// Namespace law: the sibling rewrite never leaks into the filesystem
/// namespace. Whenever the rewrite rule applies and resolution succeeds,
/// the resulting specifier lies in the internal namespace, and the path it
/// asks the compiled-in set for is the specifier minus its leading `./`.
pub proof fn lemma_rewrite_stays_internal(specifier: Seq<char>, referrer: Seq<char>)
    requires
        crate::resolver::is_internal_relative(specifier, referrer),
        crate::resolver::resolve_ok_spec(specifier, referrer) is Some,
    ensures
        is_internal_specifier(crate::resolver::resolve_ok_spec(specifier, referrer)->Some_0),
        internal_rel_spec(crate::resolver::resolve_ok_spec(specifier, referrer)->Some_0)
            == specifier.skip(2),
{
    reveal_strlit("ejsr:runtime");
    reveal_strlit("ejsr:runtime/");
    reveal_strlit("./modules/");
    let out = crate::resolver::resolve_ok_spec(specifier, referrer)->Some_0;
    crate::resolver::lemma_internal_relative_resolution(specifier, referrer);
    assert(specifier.subrange(0, 10) == "./modules/"@);
    assert(specifier[1] == '/') by {
        assert(specifier.subrange(0, 10)[1] == specifier[1]);
    }
    assert(out.subrange(0, 13) =~= "ejsr:runtime/"@);
    assert(out.skip(13) =~= specifier.skip(2));
}

/// How to obtain the source for one specifier.
#[derive(Debug, PartialEq, Eq, Clone)]
pub enum LoadPlan {
    /// The module is compiled in; here is its record.
    Loaded(ModuleRecord),
    /// The module lives on the filesystem at this path; the embedder reads
    /// the file and finishes with `finish_file_load`.
    ReadFile(String),
    /// The specifier denotes no loadable module.
    Refused(LoadError),
}

/// What `plan_load` must yield for one specifier.
pub open spec fn plan_matches(specifier: Seq<char>, r: LoadPlan) -> bool {
    if is_internal_specifier(specifier) {
        match r {
            LoadPlan::Loaded(m) => is_internal_module(internal_rel_spec(specifier))
                && m.specifier@ == specifier && m.source@ == internal_source_spec(
                internal_rel_spec(specifier),
            ) && m.kind is Script,
            LoadPlan::ReadFile(_) => false,
            LoadPlan::Refused(e) => !is_internal_module(internal_rel_spec(specifier)) && (
            e matches LoadError::NotFound(p) && p@ == internal_rel_spec(specifier)),
        }
    } else {
        match r {
            LoadPlan::Loaded(_) => false,
            LoadPlan::ReadFile(p) => file_path_of(specifier) matches Some(q) && p@ == q,
            LoadPlan::Refused(e) => file_path_of(specifier) is None && (
            e matches LoadError::InvalidPath(s) && s@ == specifier),
        }
    }
}

/// Dispatches one canonical specifier: an internal specifier is answered
/// from the compiled-in set; any other must denote a local file, which the
/// caller is asked to read.
pub fn plan_load(specifier: &str) -> (r: LoadPlan)
    ensures
        plan_matches(specifier@, r),
{
    if str_starts_with(specifier, "ejsr:runtime/") {
        proof {
            reveal_strlit("ejsr:runtime/");
        }
        let rel = str_skip(specifier, 13);
        match load_internal(rel) {
            Ok(source) => loaded_plan(specifier, source),
            Err(e) => LoadPlan::Refused(e),
        }
    } else {
        match url_to_file_path(specifier) {
            Some(path) => LoadPlan::ReadFile(path),
            None => LoadPlan::Refused(LoadError::InvalidPath(String::from_str(specifier))),
        }
    }
}

/// Builds the record of a freshly loaded internal module.
fn loaded_plan(specifier: &str, source: String) -> (r: LoadPlan)
    ensures
        (r matches LoadPlan::Loaded(m) && m.specifier@ == specifier@ && m.source == source
            && m.kind is Script),
{
    LoadPlan::Loaded(
        ModuleRecord {
            specifier: String::from_str(specifier),
            source,
            kind: ModuleKind::Script,
        },
    )
}

/// Finishes a filesystem load: `contents` is the outcome of reading the
/// planned path. The read text becomes the module's source; an OS failure's
/// message becomes `LoadError::Io`.
pub fn finish_file_load(specifier: &str, contents: Result<String, String>) -> (r: Result<
    ModuleRecord,
    LoadError,
>)
    ensures
        (contents matches Ok(text) ==> (r matches Ok(m) && m.specifier@ == specifier@
            && m.source@ == text@ && m.kind is Script)),
        (contents matches Err(msg) ==> (r matches Err(LoadError::Io(m)) && m@ == msg@)),
{
    match contents {
        Ok(text) => Ok(
            ModuleRecord {
                specifier: String::from_str(specifier),
                source: text,
                kind: ModuleKind::Script,
            },
        ),
        Err(m) => Err(LoadError::Io(m)),
    }
}

} // verus!
