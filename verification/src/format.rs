//! The format pipeline: what is asked of each formatter, and what is done
//! with each input.
//!
//! An input ends in one of two states. It is `Cached` where the store holds
//! its key: the content has passed this formatter under this version and
//! configuration before, so the formatter is not run and the input is its
//! own output. It is `Processed` where the formatter was run.

use crate::cache::Cache;
use crate::cache::lemma_marked_hits;
use crate::cache::shadowed;
use crate::cache::CacheError;
use crate::cache::CacheView;
use crate::cache::Input;
use crate::cli::format::Args;
use crate::cli::format::Command;
use crate::cli::format::HaskellArgs;
use crate::cli::format::NixArgs;
use crate::exec::sandbox_exec;
use crate::exec::sandboxed;
use crate::exec::Invocation;
use crate::exec::FOURMOLU_PROFILE;
use crate::exec::NIXFMT_PROFILE;
use crate::store::unique;
use crate::store::Key;
use crate::store::ToolKind;
use crate::text::bytes_eq;
use crate::text::clone_texts;
use crate::text::decimal_digits;
use crate::text::digit_char;
use num_format::Locale;
use num_format::ToFormattedString;
use vstd::prelude::*;
use vstd::string::StringExecFns;

verus! {

/// The name that stands for the input stream where a tool asks for the name
/// of its input.
pub const STDIN_NAME: &'static str = "<stdin>";

/// The name of an input: its path, or the name of the input stream.
pub open spec fn input_name(path: Option<&str>) -> Seq<char> {
    match path {
        Some(p) => p@,
        None => STDIN_NAME@,
    }
}

fn input_text(path: Option<&str>) -> (name: &str)
    ensures
        name@ == input_name(path),
{
    match path {
        Some(p) => p,
        None => STDIN_NAME,
    }
}

/// One flag for each enabled extension.
pub open spec fn extension_flags(extensions: Seq<Seq<char>>) -> Seq<Seq<char>> {
    Seq::new(extensions.len(), |i: int| "--ghc-opt=-X"@ + extensions[i])
}

/// The arguments of the first formatter: the style file, no project
/// detection, the name of the input, output to the output stream, and one
/// flag for each enabled extension.
pub open spec fn fourmolu_args_of(
    config: Seq<char>,
    name: Seq<char>,
    extensions: Seq<Seq<char>>,
) -> Seq<Seq<char>> {
    seq![
        "--config="@ + config,
        "--no-cabal"@,
        "--stdin-input-file="@ + name,
        "--mode=stdout"@,
        "--source-type=module"@,
        "--unsafe"@,
        "--quiet"@,
    ] + extension_flags(extensions)
}

/// The arguments of the second formatter: the name of the input, and the
/// input stream as the file to format.
pub open spec fn nixfmt_args_of(name: Seq<char>) -> Seq<Seq<char>> {
    seq!["--filename="@ + name, "-"@]
}

fn flag(prefix: &str, value: &str) -> (text: String)
    ensures
        text@ == prefix@ + value@,
{
    let mut text = String::from_str(prefix);
    text.append(value);
    text
}

/// The command line that formats Haskell source: `program` is the resolved
/// binary, `config` the snapshot of the style file, `path` the canonical
/// path of the input, if it is a file.
pub fn fourmolu(
    restricted: bool,
    program: &str,
    config: &str,
    path: Option<&str>,
    extensions: &Vec<String>,
) -> (inv: Invocation)
    ensures
        inv@ == sandboxed(
            restricted,
            FOURMOLU_PROFILE@,
            program@,
            fourmolu_args_of(config@, input_name(path), extensions.deep_view()),
        ),
{
    let mut args: Vec<String> = Vec::new();
    args.push(flag("--config=", config));
    args.push(String::from_str("--no-cabal"));
    args.push(flag("--stdin-input-file=", input_text(path)));
    args.push(String::from_str("--mode=stdout"));
    args.push(String::from_str("--source-type=module"));
    args.push(String::from_str("--unsafe"));
    args.push(String::from_str("--quiet"));
    let ghost head = args.deep_view();
    assert(head =~= seq![
        "--config="@ + config@,
        "--no-cabal"@,
        "--stdin-input-file="@ + input_name(path),
        "--mode=stdout"@,
        "--source-type=module"@,
        "--unsafe"@,
        "--quiet"@,
    ]);
    let mut i: usize = 0;
    assert(args.deep_view() =~= head + extension_flags(extensions.deep_view().take(0)));
    while i < extensions.len()
        invariant
            i <= extensions@.len(),
            args.deep_view() == head + extension_flags(extensions.deep_view().take(i as int)),
        decreases extensions@.len() - i,
    {
        let ghost before = args.deep_view();
        args.push(flag("--ghc-opt=-X", extensions[i].as_str()));
        assert(args.deep_view() =~= before.push("--ghc-opt=-X"@ + extensions@[i as int]@));
        assert(args.deep_view() =~= head + extension_flags(
            extensions.deep_view().take(i + 1),
        ));
        i += 1;
    }
    assert(extensions.deep_view().take(i as int) =~= extensions.deep_view());
    sandbox_exec(restricted, FOURMOLU_PROFILE, program, args)
}

/// The command line that formats Nix source: `program` is the resolved
/// binary, `path` the canonical path of the input, if it is a file.
pub fn nixfmt(restricted: bool, program: &str, path: Option<&str>) -> (inv: Invocation)
    ensures
        inv@ == sandboxed(
            restricted,
            NIXFMT_PROFILE@,
            program@,
            nixfmt_args_of(input_name(path)),
        ),
{
    let mut args: Vec<String> = Vec::new();
    args.push(flag("--filename=", input_text(path)));
    args.push(String::from_str("-"));
    assert(args.deep_view() =~= nixfmt_args_of(input_name(path)));
    sandbox_exec(restricted, NIXFMT_PROFILE, program, args)
}

/// The state in which an input ends.
#[derive(Clone, Copy, PartialEq, Eq, Structural, Debug)]
pub enum Outcome {
    /// The store held the key: the tool was not run.
    Cached,
    /// The tool was run; `changed` says whether its output differs from the
    /// input, and so whether the file is written.
    Processed { changed: bool },
}

impl Outcome {
    /// Whether the input counts as formatted in the summary: its file was
    /// written.
    pub open spec fn spec_counts(self) -> bool {
        self == (Outcome::Processed { changed: true })
    }

    /// Whether the input counts as formatted in the summary.
    #[verifier::when_used_as_spec(spec_counts)]
    pub fn counts(self) -> (counts: bool)
        ensures
            counts == self.spec_counts(),
    {
        match self {
            Outcome::Processed { changed } => changed,
            Outcome::Cached => false,
        }
    }
}

/// What is done with an input once its fingerprint is known.
#[derive(Clone, Copy, PartialEq, Eq, Structural, Debug)]
pub enum Step {
    /// Nothing more: the input has ended.
    Finish(Outcome),
    /// The tool is run on the input.
    Invoke,
}

/// The step of an input, for what the cache answers: a hit ends it as
/// `Cached`, a miss has the tool run.
pub open spec fn step_of(hit: Result<bool, CacheError>) -> Result<Step, CacheError> {
    match hit {
        Ok(true) => Ok(Step::Finish(Outcome::Cached)),
        Ok(false) => Ok(Step::Invoke),
        Err(err) => Err(err),
    }
}

fn step(hit: Result<bool, CacheError>) -> (result: Result<Step, CacheError>)
    ensures
        result == step_of(hit),
{
    match hit {
        Ok(true) => Ok(Step::Finish(Outcome::Cached)),
        Ok(false) => Ok(Step::Invoke),
        Err(err) => Err(err),
    }
}

/// What is done with a Haskell source whose fingerprint is `input_hash`.
pub fn format_haskell(cache: &Cache, input_hash: u64) -> (result: Result<Step, CacheError>)
    ensures
        result == step_of(cache@.hit(ToolKind::Fourmolu, input_hash)),
{
    step(cache.is_haskell_formatted(input_hash))
}

/// What is done with a Nix source whose fingerprint is `input_hash`.
pub fn format_nix(cache: &Cache, input_hash: u64) -> (result: Result<Step, CacheError>)
    ensures
        result == step_of(cache@.hit(ToolKind::Nixfmt, input_hash)),
{
    step(cache.is_nix_formatted(input_hash))
}

/// How an input ends after the formatter of `kind` gave `output` for it, or
/// the first input of the key that is missing.
pub open spec fn finished(
    key: Result<Key, Input>,
    input: Seq<u8>,
    output: Seq<u8>,
) -> Result<Outcome, CacheError> {
    match key {
        Ok(_) => Ok(Outcome::Processed { changed: input != output }),
        Err(missing) => Err(CacheError::Unresolved(missing)),
    }
}

/// Takes the output of the first formatter for an input: the key of the
/// input is recorded, and the input ends as `Processed`, changed where the
/// output differs from it.
pub fn format_haskell_output(cache: &mut Cache, input_hash: u64, input: &[u8], output: &[u8]) -> (result:
    Result<Outcome, CacheError>)
    ensures
        final(cache)@ == old(cache)@.marked(ToolKind::Fourmolu, input_hash, None),
        result == finished(old(cache)@.fourmolu_key(input_hash), input@, output@),
{
    match cache.mark_haskell_formatted(input_hash) {
        Ok(()) => Ok(Outcome::Processed { changed: !bytes_eq(input, output) }),
        Err(err) => Err(err),
    }
}

/// Takes the output of the second formatter for an input: the key of the
/// input is recorded, and the input ends as `Processed`, changed where the
/// output differs from it.
pub fn format_nix_output(cache: &mut Cache, input_hash: u64, input: &[u8], output: &[u8]) -> (result:
    Result<Outcome, CacheError>)
    ensures
        final(cache)@ == old(cache)@.marked(ToolKind::Nixfmt, input_hash, None),
        result == finished(old(cache)@.nixfmt_key(input_hash), input@, output@),
{
    match cache.mark_nix_formatted(input_hash) {
        Ok(()) => Ok(Outcome::Processed { changed: !bytes_eq(input, output) }),
        Err(err) => Err(err),
    }
}

/// Once an input was processed, the next run over the same
/// content, under the same version and configuration, ends as `Cached`; the
/// formatter is not run again, and the input is its own output.
pub proof fn lemma_processed_then_cached(
    cache: CacheView,
    kind: ToolKind,
    input_hash: u64,
    input: Vec<u8>,
)
    requires
        unique(cache.store.table(kind)),
        cache.key(kind, input_hash) matches Ok(key) && !shadowed(cache.store.table(kind), key),
    ensures
        step_of(cache.marked(kind, input_hash, None).hit(kind, input_hash)) == Ok::<
            Step,
            CacheError,
        >(Step::Finish(Outcome::Cached)),
        stream_output_of(input, None) == input,
{
    lemma_marked_hits(cache, kind, input_hash, None);
}

/// Where the inputs of a run come from.
pub enum Source {
    /// The one input is the input stream; the result goes to the output
    /// stream, and nothing is recorded or written back.
    Stdin,
    /// These files.
    Paths(Vec<String>),
    /// The changed files of the repository.
    ChangedFiles,
}

/// Where the inputs come from, for the arguments given: the input stream
/// where it is asked for, else the paths given, else the changed files.
pub open spec fn source_of(stdin: bool, paths: Seq<Seq<char>>, source: Source) -> bool {
    if stdin {
        source is Stdin
    } else if paths.len() > 0 {
        source matches Source::Paths(given) && given.deep_view() == paths
    } else {
        source is ChangedFiles
    }
}

pub(crate) fn source(stdin: bool, paths: &Vec<String>) -> (source: Source)
    ensures
        source_of(stdin, paths.deep_view(), source),
{
    if stdin {
        Source::Stdin
    } else if paths.len() > 0 {
        Source::Paths(clone_texts(paths))
    } else {
        Source::ChangedFiles
    }
}

/// Where the inputs of a run of the Haskell formatter come from.
pub fn run_format_haskell(args: &HaskellArgs) -> (source: Source)
    ensures
        source_of(args.stdin, args.paths.deep_view(), source),
{
    source(args.stdin, &args.paths)
}

/// Where the inputs of a run of the Nix formatter come from.
pub fn run_format_nix(args: &NixArgs) -> (source: Source)
    ensures
        source_of(args.stdin, args.paths.deep_view(), source),
{
    source(args.stdin, &args.paths)
}

/// What a stream run gives to the output stream: the input itself where the
/// cache held its key, else what the formatter made of it.
pub open spec fn stream_output_of(input: Vec<u8>, formatted: Option<Vec<u8>>) -> Vec<u8> {
    match formatted {
        Some(bytes) => bytes,
        None => input,
    }
}

/// What a stream run gives to the output stream.
pub fn stream_output(input: Vec<u8>, formatted: Option<Vec<u8>>) -> (output: Vec<u8>)
    ensures
        output == stream_output_of(input, formatted),
{
    match formatted {
        Some(bytes) => bytes,
        None => input,
    }
}

/// A pipeline of the format command: one language, with where its inputs
/// come from.
pub enum Job {
    Haskell(Source),
    Nix(Source),
}

/// The pipelines of the format command: the one of the language given, or,
/// where none is given, one for each language over the changed files. They
/// do not depend on each other.
pub fn run(args: &Args) -> (jobs: Vec<Job>)
    ensures
        match args.command {
            Some(Command::Haskell(a)) => jobs@.len() == 1 && (jobs@[0] matches Job::Haskell(s)
                && source_of(a.stdin, a.paths.deep_view(), s)),
            Some(Command::Nix(a)) => jobs@.len() == 1 && (jobs@[0] matches Job::Nix(s)
                && source_of(a.stdin, a.paths.deep_view(), s)),
            None => jobs@ == seq![
                Job::Haskell(Source::ChangedFiles),
                Job::Nix(Source::ChangedFiles),
            ],
        },
{
    let mut jobs: Vec<Job> = Vec::new();
    match &args.command {
        Some(Command::Haskell(a)) => {
            jobs.push(Job::Haskell(run_format_haskell(a)));
        },
        Some(Command::Nix(a)) => {
            jobs.push(Job::Nix(run_format_nix(a)));
        },
        None => {
            jobs.push(Job::Haskell(Source::ChangedFiles));
            jobs.push(Job::Nix(Source::ChangedFiles));
            assert(jobs@ =~= seq![
                Job::Haskell(Source::ChangedFiles),
                Job::Nix(Source::ChangedFiles),
            ]);
        },
    }
    jobs
}

/// How many of the inputs count in the summary.
pub open spec fn counted(outcomes: Seq<Outcome>) -> nat
    decreases outcomes.len(),
{
    if outcomes.len() == 0 {
        0
    } else {
        counted(outcomes.drop_last()) + if outcomes.last().counts() {
            1nat
        } else {
            0nat
        }
    }
}

/// How many of the inputs of a batch count in the summary.
pub fn tally(outcomes: &Vec<Outcome>) -> (count: usize)
    ensures
        count == counted(outcomes@),
{
    let mut count: usize = 0;
    let mut i: usize = 0;
    while i < outcomes.len()
        invariant
            i <= outcomes@.len(),
            count == counted(outcomes@.take(i as int)),
            count <= i,
        decreases outcomes@.len() - i,
    {
        assert(outcomes@.take(i + 1).drop_last() =~= outcomes@.take(i as int));
        if outcomes[i].counts() {
            count += 1;
        }
        i += 1;
    }
    assert(outcomes@.take(i as int) =~= outcomes@);
    count
}

/// The three digits of a number below a thousand, with leading zeros.
pub open spec fn three_digits(n: nat) -> Seq<char> {
    seq![digit_char(n / 100), digit_char((n / 10) % 10), digit_char(n % 10)]
}

/// The decimal digits of a number with a comma before each group of three.
pub open spec fn grouped_digits(n: nat) -> Seq<char>
    decreases n,
{
    if n < 1000 {
        decimal_digits(n)
    } else {
        grouped_digits(n / 1000) + seq![','] + three_digits(n % 1000)
    }
}

/// `ToFormattedString::to_formatted_string` of `num-format` with the locale
/// `en`: the decimal digits, with a comma before each group of three.
#[verifier::external_body]
pub(crate) fn grouped_text(n: usize) -> (text: String)
    ensures
        text@ == grouped_digits(n as nat),
{
    n.to_formatted_string(&Locale::en)
}

/// The word for the files of a summary.
pub open spec fn files_word(total: nat) -> Seq<char> {
    if total == 1 {
        "file"@
    } else {
        "files"@
    }
}

/// The summary of a batch: what was done to how many of how many files of
/// which language.
pub open spec fn summary_of(verb: Seq<char>, count: nat, total: nat, language: Seq<char>) -> Seq<
    char,
> {
    verb + " "@ + grouped_digits(count) + " of "@ + grouped_digits(total) + " "@ + language + " "@
        + files_word(total)
}

/// The summary of a batch.
pub fn summary(verb: &str, count: usize, total: usize, language: &str) -> (text: String)
    ensures
        text@ == summary_of(verb@, count as nat, total as nat, language@),
{
    let mut text = String::from_str(verb);
    text.append(" ");
    text.append(grouped_text(count).as_str());
    text.append(" of ");
    text.append(grouped_text(total).as_str());
    text.append(" ");
    text.append(language);
    text.append(" ");
    text.append(if total == 1 {
        "file"
    } else {
        "files"
    });
    text
}

} // verus!
