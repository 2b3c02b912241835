//! The agent that is deployed: its source, made from a template, and the
//! compiler run that turns the source into a binary.
//!
//! Nothing is written or run here. The functions say what to write, what
//! to run, and what the end of the compiler run means.

use crate::error::{Error, ErrorKind, ErrorView};
use crate::text::{
    append_decimal, decimal, ends_with, is_prefix, is_suffix, replace, replace_all, starts_with,
};
use vstd::prelude::*;

verus! {

/// How the name of a source file begins.
pub const SOURCE_PREFIX: &'static str = "i-";

/// How the name of a source file ends.
pub const SOURCE_SUFFIX: &'static str = ".go";

/// How the name of a binary begins.
pub const BINARY_PREFIX: &'static str = "cf-update-";

/// The compiler.
pub const COMPILER: &'static str = "go";

/// A source file to write.
#[derive(Debug, Clone, PartialEq, Eq)]
pub struct SourceFile {
    pub filename: String,
    pub source: String,
}

/// A compiler run to make.
#[derive(Debug, Clone, PartialEq, Eq)]
pub struct CompileJob {
    /// The program to run.
    pub program: String,
    /// Its arguments, in order.
    pub arguments: Vec<String>,
    /// The name of the binary that the run leaves behind when it succeeds.
    pub output_path: String,
}

/// The template with the credentials filled in: the token, the zone, the
/// address of the account and the domain take the places of `@token`,
/// `@zone`, `@email` and `@dns`, one after the other.
pub open spec fn rendered(
    template: Seq<char>,
    token: Seq<char>,
    zone: Seq<char>,
    domain: Seq<char>,
    email: Seq<char>,
) -> Seq<char> {
    replace_all(
        replace_all(
            replace_all(replace_all(template, "@token"@, token), "@zone"@, zone),
            "@email"@,
            email,
        ),
        "@dns"@,
        domain,
    )
}

/// The name of the source file that is made at `micros` microseconds.
pub open spec fn source_name(micros: nat) -> Seq<char> {
    SOURCE_PREFIX@ + decimal(micros) + SOURCE_SUFFIX@
}

/// What identifies a source file: its name without the prefix and the
/// suffix of source files. A name of another shape identifies nothing.
pub open spec fn source_id(path: Seq<char>) -> Option<Seq<char>> {
    if is_prefix(SOURCE_PREFIX@, path) && is_suffix(
        path.skip(SOURCE_PREFIX@.len() as int),
        SOURCE_SUFFIX@,
    ) {
        Some(path.subrange(SOURCE_PREFIX@.len() as int, path.len() - SOURCE_SUFFIX@.len()))
    } else {
        None
    }
}

/// The name of the binary for the source that `id` identifies.
pub open spec fn binary_name(id: Seq<char>) -> Seq<char> {
    BINARY_PREFIX@ + id
}

/// The arguments of the compiler run that turns `path` into `output`.
pub open spec fn compiler_arguments(output: Seq<char>, path: Seq<char>) -> Seq<Seq<char>> {
    seq!["build"@, "-ldflags"@, "-s -w"@, "-o"@, output, path]
}

/// The failure when the source file could not be written.
pub open spec fn write_failure(detail: Seq<char>) -> ErrorView {
    ErrorView { kind: ErrorKind::IOError, message: "Error writing to source file "@ + detail }
}

/// The failure when the compiler could not be run to its end.
pub open spec fn compiler_failure(detail: Seq<char>) -> ErrorView {
    ErrorView { kind: ErrorKind::CompilerError, message: "Compile command failed "@ + detail }
}

/// The failure when the compiler rejected the source.
pub open spec fn rejected_failure() -> ErrorView {
    ErrorView {
        kind: ErrorKind::CompilerError,
        message: "Compilation exited with non-zero exit code"@,
    }
}

/// The failure when a file that is no longer needed could not be removed.
pub open spec fn cleanup_failure(detail: Seq<char>) -> ErrorView {
    ErrorView { kind: ErrorKind::IOErrorNonFatal, message: detail }
}

/// What the end of a compiler run means: the binary's name when the
/// compiler exited well, else the failure.
pub open spec fn compile_result(output: Seq<char>, finished: Result<bool, Seq<char>>) -> Result<
    Seq<char>,
    ErrorView,
> {
    match finished {
        Err(detail) => Err(compiler_failure(detail)),
        Ok(success) => if success {
            Ok(output)
        } else {
            Err(rejected_failure())
        },
    }
}

/// The source file to write for an agent: the template with the
/// credentials filled in, under a name made from the time `micros`, in
/// microseconds.
pub fn create_source_file(
    template: &str,
    cf_token: String,
    cf_zone: String,
    cf_domain: String,
    cf_email: String,
    micros: u128,
) -> (r: SourceFile)
    ensures
        r.filename@ == source_name(micros as nat),
        r.source@ == rendered(template@, cf_token@, cf_zone@, cf_domain@, cf_email@),
{
    let with_token = replace(template, "@token", cf_token.as_str());
    let with_zone = replace(with_token.as_str(), "@zone", cf_zone.as_str());
    let with_email = replace(with_zone.as_str(), "@email", cf_email.as_str());
    let source = replace(with_email.as_str(), "@dns", cf_domain.as_str());
    let mut filename = String::from_str(SOURCE_PREFIX);
    append_decimal(&mut filename, micros);
    filename.append(SOURCE_SUFFIX);
    SourceFile { filename, source }
}

/// The failure to report when the source file could not be written.
pub fn write_failed(detail: &str) -> (r: Error)
    ensures
        r@ == write_failure(detail@),
{
    let mut message = String::from_str("Error writing to source file ");
    message.append(detail);
    Error::new(ErrorKind::IOError, message)
}

/// The failure to note when a file could not be removed.
pub fn cleanup_failed(detail: &str) -> (r: Error)
    ensures
        r@ == cleanup_failure(detail@),
{
    Error::new(ErrorKind::IOErrorNonFatal, String::from_str(detail))
}

/// Whether `job` is the compiler run for the source file `path`: nothing
/// for a name of another shape, else the run that leaves the binary for
/// that source.
pub open spec fn is_job_for(job: Option<CompileJob>, path: Seq<char>) -> bool {
    match job {
        None => source_id(path) is None,
        Some(job) => {
            &&& source_id(path) matches Some(id)
            &&& job.output_path@ == binary_name(id)
            &&& job.program@ == COMPILER@
            &&& job.arguments@.map_values(|a: String| a@) == compiler_arguments(
                binary_name(id),
                path,
            )
        },
    }
}

/// The compiler run for the source file `path`, or nothing when `path` is
/// not the name of a source file.
pub fn compile_source(path: &str) -> (r: Option<CompileJob>)
    ensures
        is_job_for(r, path@),
{
    if !starts_with(path, SOURCE_PREFIX) {
        return None;
    }
    let n = path.unicode_len();
    let start = SOURCE_PREFIX.unicode_len();
    let rest = path.substring_char(start, n);
    assert(rest@ =~= path@.skip(SOURCE_PREFIX@.len() as int));
    if !ends_with(rest, SOURCE_SUFFIX) {
        return None;
    }
    let end = n - SOURCE_SUFFIX.unicode_len();
    let id = path.substring_char(start, end);
    let mut output_path = String::from_str(BINARY_PREFIX);
    output_path.append(id);
    let mut arguments: Vec<String> = Vec::new();
    arguments.push(String::from_str("build"));
    arguments.push(String::from_str("-ldflags"));
    arguments.push(String::from_str("-s -w"));
    arguments.push(String::from_str("-o"));
    arguments.push(output_path.clone());
    arguments.push(String::from_str(path));
    assert(arguments@.map_values(|a: String| a@) =~= compiler_arguments(output_path@, path@));
    Some(CompileJob { program: String::from_str(COMPILER), arguments, output_path })
}

/// The view of a compiler run's result.
pub open spec fn result_view(r: Result<String, Error>) -> Result<Seq<char>, ErrorView> {
    match r {
        Ok(path) => Ok(path@),
        Err(e) => Err(e@),
    }
}

/// The view of how a compiler run finished.
pub open spec fn finished_view(finished: Result<bool, String>) -> Result<bool, Seq<char>> {
    match finished {
        Ok(success) => Ok(success),
        Err(detail) => Err(detail@),
    }
}

/// Judges the end of a compiler run. `finished` tells whether the compiler
/// exited well, or why its end could not be awaited.
pub fn compile_outcome(job: CompileJob, finished: Result<bool, String>) -> (r: Result<String, Error>)
    ensures
        result_view(r) == compile_result(job.output_path@, finished_view(finished)),
{
    match finished {
        Err(detail) => {
            let mut message = String::from_str("Compile command failed ");
            message.append(detail.as_str());
            Err(Error::new(ErrorKind::CompilerError, message))
        },
        Ok(success) => if success {
            Ok(job.output_path)
        } else {
            Err(
                Error::new(
                    ErrorKind::CompilerError,
                    String::from_str("Compilation exited with non-zero exit code"),
                ),
            )
        },
    }
}

/// The binary of a source file that [`create_source_file`] named is named
/// after the same time: the source made at `micros` compiles to
/// `cf-update-` and `micros` in decimal.
pub proof fn lemma_binary_of_generated_source(micros: nat)
    ensures
        source_id(source_name(micros)) == Some(decimal(micros)),
{
    let path = source_name(micros);
    let front = SOURCE_PREFIX@;
    let back = SOURCE_SUFFIX@;
    let id = decimal(micros);
    assert(path.subrange(0, front.len() as int) =~= front);
    let rest = path.skip(front.len() as int);
    assert(rest =~= id + back);
    assert(rest.subrange(rest.len() - back.len(), rest.len() as int) =~= back);
    assert(path.subrange(front.len() as int, path.len() - back.len()) =~= id);
}

} // verus!
