use be::cache::Cache;
use be::cache::CacheError;
use be::cache::Input;
use be::cli::format::Args;
use be::cli::format::Command;
use be::cli::format::HaskellArgs;
use be::cli::format::NixArgs;
use be::exec::FOURMOLU_PROFILE;
use be::exec::NIXFMT_PROFILE;
use be::format::format_haskell;
use be::format::format_haskell_output;
use be::format::format_nix;
use be::format::format_nix_output;
use be::format::fourmolu;
use be::format::nixfmt;
use be::format::run;
use be::format::run_format_haskell;
use be::format::run_format_nix;
use be::format::stream_output;
use be::format::summary;
use be::format::tally;
use be::format::Job;
use be::format::Outcome;
use be::format::Source;
use be::format::Step;
use be::format::STDIN_NAME;
use be::hashing::fingerprint;
use be::store::Store;
use be::store::ToolKind;

fn haskell_cache() -> Cache {
    let mut cache = Cache::new(42, Store::new());
    cache.set_fourmolu_version(b"fourmolu 0.15.0.0\n").unwrap();
    cache.set_fourmolu_config(String::from("/tmp/snap/fourmolu.yaml"), b"indentation: 2\n");
    cache.set_fourmolu_extensions(b"default-extensions: [LambdaCase]\n").unwrap();
    cache
}

fn nix_cache() -> Cache {
    let mut cache = Cache::new(42, Store::new());
    cache.set_nixfmt_version(b"nixfmt 0.6.0\n").unwrap();
    cache
}

#[test]
fn fourmolu_is_given_the_style_file_the_input_name_and_the_extensions() {
    let extensions = vec![String::from("LambdaCase"), String::from("GADTs")];
    let inv = fourmolu(
        false,
        "/nix/store/abc-fourmolu-0.15/bin/fourmolu",
        "/tmp/snap/fourmolu.yaml",
        Some("/repo/src/Main.hs"),
        &extensions,
    );
    assert_eq!(inv.program, "/nix/store/abc-fourmolu-0.15/bin/fourmolu");
    assert_eq!(
        inv.args,
        vec![
            "--config=/tmp/snap/fourmolu.yaml",
            "--no-cabal",
            "--stdin-input-file=/repo/src/Main.hs",
            "--mode=stdout",
            "--source-type=module",
            "--unsafe",
            "--quiet",
            "--ghc-opt=-XLambdaCase",
            "--ghc-opt=-XGADTs",
        ]
    );
}

#[test]
fn fourmolu_on_the_input_stream_is_sandboxed_on_the_restricted_platform() {
    let inv = fourmolu(true, "/bin/fourmolu", "/c.yaml", None, &Vec::new());
    assert_eq!(inv.program, "/usr/bin/sandbox-exec");
    assert_eq!(
        inv.args,
        vec![
            "-p",
            FOURMOLU_PROFILE,
            "--",
            "/bin/fourmolu",
            "--config=/c.yaml",
            "--no-cabal",
            "--stdin-input-file=<stdin>",
            "--mode=stdout",
            "--source-type=module",
            "--unsafe",
            "--quiet",
        ]
    );
    assert_eq!(STDIN_NAME, "<stdin>");
}

#[test]
fn nixfmt_is_given_the_input_name_and_reads_the_input_stream() {
    let inv = nixfmt(false, "/bin/nixfmt", Some("/repo/flake.nix"));
    assert_eq!(inv.program, "/bin/nixfmt");
    assert_eq!(inv.args, vec!["--filename=/repo/flake.nix", "-"]);
    let inv = nixfmt(true, "/bin/nixfmt", None);
    assert_eq!(inv.program, "/usr/bin/sandbox-exec");
    assert_eq!(
        inv.args,
        vec!["-p", NIXFMT_PROFILE, "--", "/bin/nixfmt", "--filename=<stdin>", "-"]
    );
}

#[test]
fn a_file_whose_key_is_stored_is_unchanged_without_running_the_tool() {
    let source = b"module Main where\n";
    let hash = fingerprint(source);
    let mut cache = haskell_cache();
    assert_eq!(cache.mark_haskell_formatted(hash), Ok(()));
    let step = format_haskell(&cache, hash);
    assert_eq!(step, Ok(Step::Finish(Outcome::Cached)));
    assert!(!Outcome::Cached.counts());
    assert_eq!(tally(&vec![Outcome::Cached]), 0);
    assert_eq!(summary("Formatted", 0, 1, "Haskell"), "Formatted 0 of 1 Haskell file");
}

#[test]
fn a_file_without_a_stored_key_has_the_tool_run() {
    let cache = haskell_cache();
    assert_eq!(format_haskell(&cache, 1), Ok(Step::Invoke));
    let cache = nix_cache();
    assert_eq!(format_nix(&cache, 1), Ok(Step::Invoke));
}

#[test]
fn formatted_content_is_recorded_and_hit_on_the_next_run() {
    let source = b"module Main where\n";
    let hash = fingerprint(source);
    let mut cache = haskell_cache();
    assert_eq!(format_haskell(&cache, hash), Ok(Step::Invoke));
    let outcome = format_haskell_output(&mut cache, hash, source, source);
    assert_eq!(outcome, Ok(Outcome::Processed { changed: false }));
    assert_eq!(format_haskell(&cache, hash), Ok(Step::Finish(Outcome::Cached)));
    assert_eq!(stream_output(source.to_vec(), None), source.to_vec());
    assert_eq!(cache.store().len(ToolKind::Fourmolu), 1);
}

#[test]
fn changed_output_is_written_and_the_input_is_recorded() {
    let mut cache = nix_cache();
    let input = b"{a=1;}";
    let output = b"{ a = 1; }\n";
    let hash = fingerprint(input);
    let outcome = format_nix_output(&mut cache, hash, input, output);
    assert_eq!(outcome, Ok(Outcome::Processed { changed: true }));
    assert!(Outcome::Processed { changed: true }.counts());
    assert_eq!(format_nix(&cache, hash), Ok(Step::Finish(Outcome::Cached)));
    assert_eq!(format_nix(&cache, fingerprint(output)), Ok(Step::Invoke));
}

#[test]
fn the_pipeline_names_the_input_that_is_not_resolved() {
    let mut cache = Cache::new(42, Store::new());
    assert_eq!(format_haskell(&cache, 1), Err(CacheError::Unresolved(Input::FourmoluVersion)));
    assert_eq!(format_nix(&cache, 1), Err(CacheError::Unresolved(Input::NixfmtVersion)));
    assert_eq!(
        format_nix_output(&mut cache, 1, b"a", b"b"),
        Err(CacheError::Unresolved(Input::NixfmtVersion))
    );
    assert_eq!(
        format_haskell_output(&mut cache, 1, b"a", b"b"),
        Err(CacheError::Unresolved(Input::FourmoluVersion))
    );
    assert_eq!(cache.store().len(ToolKind::Nixfmt), 0);
}

#[test]
fn stream_output_is_the_input_on_a_hit_and_the_tool_output_on_a_miss() {
    assert_eq!(stream_output(b"in".to_vec(), None), b"in".to_vec());
    assert_eq!(stream_output(b"in".to_vec(), Some(b"out".to_vec())), b"out".to_vec());
}

#[test]
fn the_source_is_the_input_stream_then_the_paths_then_the_changed_files() {
    let paths = vec![String::from("a.hs"), String::from("b.hs")];
    let args = HaskellArgs { paths: paths.clone(), stdin: true };
    assert!(matches!(run_format_haskell(&args), Source::Stdin));
    let args = HaskellArgs { paths: paths.clone(), stdin: false };
    assert!(matches!(run_format_haskell(&args), Source::Paths(ref given) if *given == paths));
    let args = HaskellArgs { paths: Vec::new(), stdin: false };
    assert!(matches!(run_format_haskell(&args), Source::ChangedFiles));
    let args = NixArgs { paths: vec![String::from("flake.nix")], stdin: false };
    assert!(matches!(run_format_nix(&args), Source::Paths(ref given) if given[0] == "flake.nix"));
    let args = NixArgs { paths: Vec::new(), stdin: true };
    assert!(matches!(run_format_nix(&args), Source::Stdin));
}

#[test]
fn without_a_language_both_pipelines_run_over_the_changed_files() {
    let jobs = run(&Args { command: None });
    assert_eq!(jobs.len(), 2);
    assert!(matches!(jobs[0], Job::Haskell(Source::ChangedFiles)));
    assert!(matches!(jobs[1], Job::Nix(Source::ChangedFiles)));
}

#[test]
fn with_a_language_only_its_pipeline_runs() {
    let args = Args {
        command: Some(Command::Nix(NixArgs { paths: Vec::new(), stdin: true })),
    };
    let jobs = run(&args);
    assert_eq!(jobs.len(), 1);
    assert!(matches!(jobs[0], Job::Nix(Source::Stdin)));
    let args = Args {
        command: Some(Command::Haskell(HaskellArgs {
            paths: vec![String::from("A.hs")],
            stdin: false,
        })),
    };
    let jobs = run(&args);
    assert_eq!(jobs.len(), 1);
    assert!(matches!(jobs[0], Job::Haskell(Source::Paths(ref given)) if given[0] == "A.hs"));
}

#[test]
fn tally_counts_the_files_that_were_written() {
    let outcomes = vec![
        Outcome::Cached,
        Outcome::Processed { changed: true },
        Outcome::Processed { changed: false },
        Outcome::Processed { changed: true },
    ];
    assert_eq!(tally(&outcomes), 2);
    assert_eq!(tally(&Vec::new()), 0);
}

#[test]
fn summary_groups_digits_and_counts_files() {
    assert_eq!(summary("Formatted", 1, 1, "Haskell"), "Formatted 1 of 1 Haskell file");
    assert_eq!(summary("Formatted", 0, 0, "Nix"), "Formatted 0 of 0 Nix files");
    assert_eq!(summary("Formatted", 12, 345, "Nix"), "Formatted 12 of 345 Nix files");
    assert_eq!(
        summary("Formatted", 1234, 1234567, "Haskell"),
        "Formatted 1,234 of 1,234,567 Haskell files"
    );
    assert_eq!(summary("Linted", 1000, 1001, "Haskell"), "Linted 1,000 of 1,001 Haskell files");
    assert_eq!(summary("Linted", 999, 100000, "Haskell"), "Linted 999 of 100,000 Haskell files");
}
