use bigcp_core::args::{
    parse_device_class, parse_positive, parse_profiles, parse_size, parse_size_usize, parse_tune,
    split_commas,
};
use bigcp_core::cli::{
    confirm_answer, confirm_preflight_warnings, copy_display_mode, copy_options, execute,
    preflight_notices, prompt_answer_accepted, reject_copy_only_flags, report_exit, verify_exit,
    help_text, Cli, CliExit, Command, CopyDisplayMode, CopyFlags, HelpTopic, Plan,
    PreflightAcceptance, PreflightDecision, PreflightQuestion, UsageKind, COPY_FLAGS,
};
use bigcp_core::error::exit_for_error;
use bigcp_core::path::WidePath;
use bigcp_core::{BigcpError, DeviceClass, TuneOptions};

fn parse(args: &[&str]) -> Result<Cli, CliExit> {
    let list: Vec<WidePath> = args.iter().map(|arg| WidePath::from_text(arg)).collect();
    Cli::try_parse_from(&list)
}

#[test]
fn grammar_has_copy_and_one_standalone_verify_command() {
    let copy = parse(&["bigcp", "source", "destination", "--verify"]);
    assert!(copy.is_ok());
    assert!(copy.ok().is_some_and(|value| value.command.is_none()));

    let verify = parse(&["bigcp", "verify", "source", "destination"]);
    assert!(verify.is_ok());
    assert!(verify
        .ok()
        .is_some_and(|value| matches!(value.command, Some(Command::Verify { .. }))));
}

#[test]
fn help_shows_copy_examples_without_internal_implementation_notes() {
    assert_eq!(parse(&["bigcp", "--help"]), Err(CliExit::Help(HelpTopic::Program)));
    let help = help_text(HelpTopic::Program);
    assert!(help.contains("Examples:"));
    assert!(help.contains("bigcp [OPTIONS] <SOURCE> <DESTINATION>"));
    assert!(!help.contains("subcommand rejection"));
}

#[test]
fn no_color_keeps_dashboard_while_quiet_really_is_summary_only() {
    let no_color = parse(&["bigcp", "source", "destination", "--no-color"]);
    assert!(no_color.is_ok());
    let Some(no_color) = no_color.ok() else {
        return;
    };
    assert_eq!(
        copy_display_mode(&no_color.flags, true, true),
        CopyDisplayMode::Dashboard { color_enabled: false }
    );

    let quiet = parse(&["bigcp", "source", "destination", "--quiet"]);
    assert!(quiet.is_ok());
    let Some(quiet) = quiet.ok() else {
        return;
    };
    assert_eq!(
        copy_display_mode(&quiet.flags, false, true),
        CopyDisplayMode::Plain { quiet: true }
    );
}

#[test]
fn standalone_verify_rejects_copy_flags_before_io() {
    let parsed = parse(&["bigcp", "--dry-run", "verify", "source", "destination"]);
    assert!(parsed.is_ok());
    let Some(parsed) = parsed.ok() else {
        return;
    };
    let result = execute(parsed);
    assert!(result.is_err());
    assert!(result.err().is_some_and(|(code, message)| {
        code == 5 && message.contains("copy flags are not accepted")
    }));
}

#[test]
fn zero_tuning_values_are_rejected() {
    let parsed = parse(&["bigcp", "source", "destination", "--tune", "threads=0"]);
    assert!(parsed.is_err());
}

#[test]
fn removed_nonfunctional_stream_tuning_is_rejected() {
    let parsed = parse(&["bigcp", "source", "destination", "--tune", "streams=2"]);
    assert!(parsed.is_err());
}

#[test]
fn same_spindle_burst_tuning_parses_binary_size() {
    let parsed = parse(&[
        "bigcp",
        "source",
        "destination",
        "--tune",
        "same-spindle-burst=128MiB",
    ]);
    assert!(parsed.is_ok_and(|value| {
        value
            .flags
            .tune
            .and_then(|tune| tune.same_spindle_burst_bytes)
            == Some(128 * 1024 * 1024)
    }));
}

#[test]
fn degraded_filesystem_acceptance_is_copy_only_and_explicit() {
    let copy = parse(&["bigcp", "source", "destination", "--accept-degraded-filesystem"]);
    assert!(copy.is_ok_and(|value| value.flags.accept_degraded_filesystem));

    let verify = parse(&[
        "bigcp",
        "--accept-degraded-filesystem",
        "verify",
        "source",
        "destination",
    ]);
    assert!(verify.is_ok());
    let Some(verify) = verify.ok() else {
        return;
    };
    assert!(execute(verify).is_err_and(|(code, message)| {
        code == 5 && message.contains("copy flags are not accepted")
    }));
}

#[test]
fn remote_path_acceptance_is_copy_only_and_explicit() {
    let copy = parse(&[
        "bigcp",
        r"\\server\share\source",
        r"C:\destination",
        "--accept-remote-paths",
    ]);
    assert!(copy.is_ok_and(|value| value.flags.accept_remote_paths));

    let verify = parse(&[
        "bigcp",
        "verify",
        "source",
        "destination",
        "--accept-remote-paths",
    ]);
    assert!(verify.is_err());
}

#[test]
fn sizes_parse_binary_suffixes_case_insensitively_and_reject_nonsense() {
    assert_eq!(parse_size("4096"), Ok(4096));
    assert_eq!(parse_size("64KiB"), Ok(64 * 1024));
    assert_eq!(parse_size("10mib"), Ok(10 * 1024 * 1024));
    assert_eq!(parse_size("2GiB"), Ok(2 * 1024 * 1024 * 1024));
    assert!(parse_size("0").is_err());
    assert!(parse_size("").is_err());
    assert!(parse_size("12MB").is_err());
    // Overflow in the multiplier must fail, not wrap.
    assert!(parse_size("99999999999999999999GiB").is_err());
    assert!(parse_size(&format!("{}GiB", u64::MAX)).is_err());
}

#[test]
fn profile_classes_fan_out_and_reject_unknown_or_extra_entries() {
    assert_eq!(
        parse_profiles("hdd"),
        Ok((DeviceClass::Hdd, DeviceClass::Hdd))
    );
    assert_eq!(
        parse_profiles("nvme,usb-ssd"),
        Ok((DeviceClass::Nvme, DeviceClass::UsbSsd))
    );
    assert!(parse_profiles("ssd").is_err());
    assert!(parse_profiles("nvme,hdd,auto").is_err());
    // A trailing comma is an empty second entry, not a silent single.
    assert!(parse_profiles("nvme,").is_err());
}

#[test]
fn tune_items_require_known_keys_and_key_value_form() {
    assert!(parse_tune("streams=2").is_err());
    assert!(parse_tune("chunk").is_err());
    let parsed = parse_tune("chunk=1MiB,threads=4");
    assert!(parsed.as_ref().is_ok_and(|tune| {
        tune.chunk_bytes == Some(1024 * 1024) && tune.threads == Some(4)
    }));
}

#[test]
fn library_errors_map_to_preflight_or_internal_exit_codes() {
    assert_eq!(exit_for_error(&BigcpError::Locked("x".to_owned())), 5);
    assert_eq!(exit_for_error(&BigcpError::Invalid("x".to_owned())), 5);
    assert_eq!(exit_for_error(&BigcpError::Audit("x".to_owned())), 6);
    assert_eq!(exit_for_error(&BigcpError::Invariant("x".to_owned())), 6);
    assert_eq!(exit_for_error(&BigcpError::Format("x".to_owned())), 6);
}

#[test]
fn redirected_stdout_always_selects_plain_progress() {
    let parsed = parse(&["bigcp", "source", "destination"]);
    assert!(parsed.is_ok());
    let Some(parsed) = parsed.ok() else {
        return;
    };
    assert_eq!(
        copy_display_mode(&parsed.flags, false, false),
        CopyDisplayMode::Plain { quiet: false }
    );
}

/// Every copy flag must be listed here with a sample invocation and be
/// rejected before a subcommand.
#[test]
fn every_copy_flag_is_rejected_before_a_subcommand() {
    let samples: &[(&str, &[&str])] = &[
        ("dry-run", &["--dry-run"]),
        ("verify", &["--verify"]),
        ("include-system", &["--include-system"]),
        ("skip-cloud", &["--skip-cloud"]),
        ("replace", &["--replace=false"]),
        ("flush", &["--flush"]),
        ("no-sparse", &["--no-sparse"]),
        ("analyze", &["--analyze"]),
        ("raw-reparse", &["--raw-reparse"]),
        ("fresh", &["--fresh"]),
        (
            "accept-degraded-filesystem",
            &["--accept-degraded-filesystem"],
        ),
        ("accept-remote-paths", &["--accept-remote-paths"]),
        (
            "accept-write-cache-policy",
            &["--accept-write-cache-policy"],
        ),
        ("profile", &["--profile", "hdd"]),
        ("tune", &["--tune", "chunk=1MiB"]),
        ("state-dir", &["--state-dir", "state"]),
        ("log", &["--log", "log.jsonl"]),
        ("report", &["--report", "report.json"]),
        ("plain", &["--plain"]),
        ("no-color", &["--no-color"]),
        ("quiet", &["--quiet"]),
    ];
    let mut missing = Vec::new();
    for long in COPY_FLAGS {
        let Some((_, invocation)) = samples.iter().find(|(name, _)| *name == long) else {
            missing.push(long.to_owned());
            continue;
        };
        let mut argv = vec!["bigcp"];
        argv.extend_from_slice(invocation);
        argv.extend_from_slice(&["verify", "source", "destination"]);
        let parsed = parse(&argv);
        assert!(parsed.is_ok(), "{long}: flag failed to parse before verify");
        let Some(parsed) = parsed.ok() else {
            return;
        };
        let result = execute(parsed);
        assert!(
            result
                .as_ref()
                .err()
                .is_some_and(|(code, message)| *code == 5 && message.contains("not accepted")),
            "--{long} was not rejected before the verify subcommand: {result:?}"
        );
    }
    assert!(
        missing.is_empty(),
        "add sample invocations and a rejection-list entry for: {missing:?}"
    );
}

#[test]
fn degradation_prompt_defaults_no_while_quick_removal_defaults_yes() {
    assert!(!prompt_answer_accepted("", true));
    assert!(!prompt_answer_accepted("maybe", true));
    assert!(prompt_answer_accepted("YES", true));

    assert!(prompt_answer_accepted("", false));
    assert!(!prompt_answer_accepted("no", false));
}

#[test]
fn prompt_answers_are_trimmed_and_folded() {
    assert!(prompt_answer_accepted("  y\r\n", true));
    assert!(prompt_answer_accepted("\tYeS ", true));
    assert!(!prompt_answer_accepted("yes please", true));
    assert!(!prompt_answer_accepted(" Nope", false));
    assert!(prompt_answer_accepted("what", false));
}

#[test]
fn a_copy_needs_both_paths() {
    let none = parse(&["bigcp"]);
    assert!(none.is_ok());
    let result = execute(none.ok().unwrap());
    assert_eq!(
        result,
        Err((5, "copy requires SRC and DST; see --help".to_owned()))
    );
    let one = parse(&["bigcp", "source"]).ok().unwrap();
    assert!(execute(one).is_err());
    let both = parse(&["bigcp", "source", "destination", "--dry-run"]).ok().unwrap();
    let mut flags = CopyFlags::none();
    flags.dry_run = true;
    assert_eq!(
        execute(both),
        Ok(Plan::Copy {
            source: WidePath::from_text("source"),
            destination: WidePath::from_text("destination"),
            flags,
        })
    );
}

#[test]
fn usage_errors_are_told_apart_from_help_and_version() {
    let help = Err(CliExit::Help(HelpTopic::Program));
    let usage = |kind| Err(CliExit::Usage(kind));
    assert_eq!(parse(&["bigcp", "-h"]), help);
    assert_eq!(parse(&["bigcp", "-V"]), Err(CliExit::Version));
    assert_eq!(parse(&["bigcp", "--version"]), Err(CliExit::Version));
    // The first letter of a cluster decides.
    assert_eq!(parse(&["bigcp", "-hV"]), help);
    assert_eq!(parse(&["bigcp", "-Vh"]), Err(CliExit::Version));
    assert_eq!(
        parse(&["bigcp", "verify", "-hx"]),
        Err(CliExit::Help(HelpTopic::Verify))
    );
    assert_eq!(
        parse(&["bigcp", "report", "a", "--help"]),
        Err(CliExit::Help(HelpTopic::Report))
    );
    assert_eq!(parse(&["bigcp", "-xh"]), usage(UsageKind::UnexpectedArgument));
    assert_eq!(parse(&["bigcp", "verify", "-V"]), usage(UsageKind::UnexpectedArgument));
    assert_eq!(parse(&["bigcp", "--nothing"]), usage(UsageKind::UnexpectedArgument));
    assert_eq!(parse(&["bigcp", "a", "b", "c"]), usage(UsageKind::UnexpectedArgument));
    assert_eq!(parse(&["bigcp", "--log"]), usage(UsageKind::InvalidValue));
    assert_eq!(parse(&["bigcp", ""]), usage(UsageKind::InvalidValue));
    assert_eq!(parse(&["bigcp", "--tune", "x"]), usage(UsageKind::RejectedValue));
    assert_eq!(parse(&["bigcp", "--flush=x"]), usage(UsageKind::UnexpectedValue));
    assert_eq!(parse(&["bigcp", "--flush", "--flush"]), usage(UsageKind::RepeatedOption));
    assert_eq!(parse(&["bigcp", "verify", "a"]), usage(UsageKind::MissingArgument));
    assert_eq!(parse(&["bigcp", "report"]), usage(UsageKind::MissingArgument));
    let unpaired = vec![
        WidePath::from_text("bigcp"),
        WidePath::from_text("--profile"),
        WidePath { units: vec![0xd800] },
    ];
    assert_eq!(Cli::try_parse_from(&unpaired), usage(UsageKind::NotUnicode));
}

#[test]
fn an_argument_counts_once_the_next_one_does() {
    // The subcommand speaks before the option in front of it.
    assert_eq!(
        parse(&["bigcp", "--profile", "bad", "verify", "-h"]),
        Err(CliExit::Help(HelpTopic::Verify))
    );
    assert_eq!(
        parse(&["bigcp", "--profile", "bad", "verify", "a", "b"]),
        Err(CliExit::Usage(UsageKind::RejectedValue))
    );
    assert_eq!(
        parse(&["bigcp", "--profile", "bad", "--nothing"]),
        Err(CliExit::Usage(UsageKind::UnexpectedArgument))
    );
    assert_eq!(
        parse(&["bigcp", "--profile", "bad", "--help"]),
        Err(CliExit::Usage(UsageKind::RejectedValue))
    );
    // A value may have the name of a subcommand.
    let named = parse(&["bigcp", "--log", "verify", "a", "b"]).ok().unwrap();
    assert_eq!(named.flags.log, Some(WidePath::from_text("verify")));
    assert_eq!(named.command, None);
}

fn switch(name: &'static str, help: &'static str) -> clap::Arg {
    clap::Arg::new(name).long(name).help(help).action(clap::ArgAction::SetTrue)
}

fn path_argument(name: &'static str, value: &'static str, help: &'static str) -> clap::Arg {
    clap::Arg::new(name)
        .value_name(value)
        .help(help)
        .value_parser(clap::builder::PathBufValueParser::new())
}

/// The command line as clap reads it.
fn clap_command() -> clap::Command {
    clap::Command::new("bigcp")
        .version("0.1.0")
        .about("Reliable, high-throughput local and UNC tree copy for Windows 11")
        .disable_help_subcommand(true)
        .override_usage(
            "bigcp [OPTIONS] <SOURCE> <DESTINATION>\n       bigcp verify <SOURCE> <DESTINATION>\n       bigcp report [--plain] <FILE>",
        )
        .after_help(
            "Examples:\n  bigcp C:\\source D:\\backup\n  bigcp C:\\source D:\\backup --dry-run\n  bigcp C:\\source D:\\backup --verify --quiet\n  bigcp \\\\server\\share\\source D:\\backup --accept-remote-paths\n  bigcp verify C:\\source D:\\backup\n  bigcp report C:\\audit\\run.report.json",
        )
        .subcommand(
            clap::Command::new("verify")
                .about("Fully verifies source and destination trees by reading both")
                .arg(path_argument("source", "SOURCE", "Source tree").required(true))
                .arg(
                    path_argument("destination", "DESTINATION", "Destination tree").required(true),
                ),
        )
        .subcommand(
            clap::Command::new("report")
                .about("Opens a saved JSON report")
                .arg(path_argument("file", "FILE", "Report file").required(true))
                .arg(switch(
                    "plain",
                    "Print the summary instead of opening a full-screen browser",
                )),
        )
        .arg(path_argument("source", "SOURCE", "Source tree for the default copy command"))
        .arg(path_argument(
            "destination",
            "DESTINATION",
            "Destination tree for the default copy command",
        ))
        .arg(switch("dry-run", "Enumerate and classify only; make no destination-tree writes"))
        .arg(switch(
            "verify",
            "Read back files copied during this run and compare xxh3-128 digests",
        ))
        .arg(switch("include-system", "Include root-level operating-system artifacts"))
        .arg(switch("skip-cloud", "Exclude cloud placeholders instead of hydrating them"))
        .arg(
            clap::Arg::new("replace")
                .long("replace")
                .value_name("REPLACE")
                .help("Replace differing destination files (default true)")
                .value_parser(clap::builder::BoolValueParser::new())
                .num_args(0..=1)
                .default_missing_value("true")
                .require_equals(true),
        )
        .arg(switch("flush", "Flush each committed file after rename and metadata"))
        .arg(switch(
            "no-sparse",
            "Expand sparse files instead of preserving sparse allocation",
        ))
        .arg(switch(
            "analyze",
            "Collect bounded live-run insight (size-class timings, slowest files, finer stat samples) into the log and report",
        ))
        .arg(switch("raw-reparse", "Copy unknown reparse buffers verbatim at the user's risk"))
        .arg(switch("fresh", "Ignore prior checkpoints and start new partials"))
        .arg(switch(
            "accept-degraded-filesystem",
            "Accept timestamp/metadata degradation on FAT or exFAT destinations",
        ))
        .arg(switch(
            "accept-remote-paths",
            "Accept UNC/WSL semantic and remote-durability limitations",
        ))
        .arg(switch(
            "accept-write-cache-policy",
            "Continue without prompting when the destination drive uses the slower Windows \"Quick removal\" write-cache policy",
        ))
        .arg(
            clap::Arg::new("profile")
                .long("profile")
                .value_name("CLASS[,CLASS]")
                .help("Device class (auto|nvme|sata-ssd|usb-ssd|hdd|unknown), or \"SRC,DST\"")
                .value_parser(|text: &str| parse_profiles(text)),
        )
        .arg(
            clap::Arg::new("tune")
                .long("tune")
                .value_name("KEY=VALUE,...")
                .help(
                    "Comma-separated overrides: chunk, threads, mem, large-threshold, checkpoint-threshold, same-spindle-burst (sizes accept KiB/MiB/GiB)",
                )
                .value_parser(|text: &str| parse_tune(text)),
        )
        .arg(path_argument("state-dir", "STATE_DIR", "Override state directory").long("state-dir"))
        .arg(path_argument("log", "LOG", "Override JSONL log path").long("log"))
        .arg(path_argument("report", "REPORT", "Override JSON report path").long("report"))
        .arg(switch("plain", "Use line-oriented output"))
        .arg(switch("no-color", "Disable terminal colors"))
        .arg(switch("quiet", "Print only the final summary"))
}

/// Tells what clap makes of a command line, in the words of the library.
fn clap_exit(error: &clap::Error) -> CliExit {
    let text = error.render().to_string();
    let topics = [HelpTopic::Program, HelpTopic::Verify, HelpTopic::Report];
    let kind = match error.kind() {
        clap::error::ErrorKind::DisplayVersion => return CliExit::Version,
        clap::error::ErrorKind::DisplayHelp => {
            let topic = topics.into_iter().find(|topic| help_text(*topic) == text);
            let Some(topic) = topic else {
                panic!("unknown help:\n{text}");
            };
            return CliExit::Help(topic);
        }
        clap::error::ErrorKind::UnknownArgument | clap::error::ErrorKind::InvalidSubcommand => {
            UsageKind::UnexpectedArgument
        }
        clap::error::ErrorKind::ArgumentConflict => UsageKind::RepeatedOption,
        clap::error::ErrorKind::InvalidValue => UsageKind::InvalidValue,
        clap::error::ErrorKind::ValueValidation => UsageKind::RejectedValue,
        clap::error::ErrorKind::InvalidUtf8 => UsageKind::NotUnicode,
        clap::error::ErrorKind::TooManyValues => UsageKind::UnexpectedValue,
        clap::error::ErrorKind::MissingRequiredArgument => UsageKind::MissingArgument,
        other => panic!("unexpected {other:?}"),
    };
    CliExit::Usage(kind)
}

fn clap_path(matches: &clap::ArgMatches, name: &str) -> Option<WidePath> {
    matches
        .get_one::<std::path::PathBuf>(name)
        .map(|path| WidePath::from_text(path.to_str().unwrap()))
}

fn clap_cli(matches: &clap::ArgMatches) -> Cli {
    let command = matches.subcommand().map(|(name, sub)| match name {
        "verify" => Command::Verify {
            source: clap_path(sub, "source").unwrap(),
            destination: clap_path(sub, "destination").unwrap(),
        },
        _ => Command::Report {
            file: clap_path(sub, "file").unwrap(),
            plain: sub.get_flag("plain"),
        },
    });
    Cli {
        command,
        source: clap_path(matches, "source"),
        destination: clap_path(matches, "destination"),
        flags: CopyFlags {
            dry_run: matches.get_flag("dry-run"),
            verify: matches.get_flag("verify"),
            include_system: matches.get_flag("include-system"),
            skip_cloud: matches.get_flag("skip-cloud"),
            replace: matches.get_one::<bool>("replace").copied(),
            flush: matches.get_flag("flush"),
            no_sparse: matches.get_flag("no-sparse"),
            analyze: matches.get_flag("analyze"),
            raw_reparse: matches.get_flag("raw-reparse"),
            fresh: matches.get_flag("fresh"),
            accept_degraded_filesystem: matches.get_flag("accept-degraded-filesystem"),
            accept_remote_paths: matches.get_flag("accept-remote-paths"),
            accept_write_cache_policy: matches.get_flag("accept-write-cache-policy"),
            profile: matches.get_one::<(DeviceClass, DeviceClass)>("profile").copied(),
            tune: matches.get_one::<TuneOptions>("tune").copied(),
            state_dir: clap_path(matches, "state-dir"),
            log: clap_path(matches, "log"),
            report: clap_path(matches, "report"),
            plain: matches.get_flag("plain"),
            no_color: matches.get_flag("no-color"),
            quiet: matches.get_flag("quiet"),
        },
    }
}

fn agrees_with_clap(args: &[&str]) {
    let mut list = vec!["bigcp"];
    list.extend_from_slice(args);
    let expected = match clap_command().try_get_matches_from(&list) {
        Ok(matches) => Ok(clap_cli(&matches)),
        Err(error) => Err(clap_exit(&error)),
    };
    assert_eq!(parse(&list), expected, "{args:?}");
}

#[test]
fn help_is_what_clap_prints() {
    for (args, topic) in [
        (vec!["bigcp", "--help"], HelpTopic::Program),
        (vec!["bigcp", "-h"], HelpTopic::Program),
        (vec!["bigcp", "verify", "--help"], HelpTopic::Verify),
        (vec!["bigcp", "verify", "-h"], HelpTopic::Verify),
        (vec!["bigcp", "report", "--help"], HelpTopic::Report),
        (vec!["bigcp", "report", "-h"], HelpTopic::Report),
    ] {
        let text = match clap_command().try_get_matches_from(args) {
            Ok(_) => panic!("help was expected"),
            Err(error) => error.render().to_string(),
        };
        for (own, printed) in help_text(topic).lines().zip(text.lines()) {
            assert_eq!(own, printed);
        }
        assert_eq!(help_text(topic), text);
    }
}

#[test]
fn every_flag_is_read_as_clap_reads_it() {
    for name in COPY_FLAGS {
        let bare = format!("--{name}");
        let joined = format!("--{name}=true");
        agrees_with_clap(&["a", "b", &bare]);
        agrees_with_clap(&["a", "b", &bare, "hdd"]);
        agrees_with_clap(&["a", "b", &joined]);
        agrees_with_clap(&[&bare, "x", &bare, "y"]);
        agrees_with_clap(&[&bare, "verify", "a", "b"]);
    }
}

#[test]
fn short_command_lines_are_read_as_clap_reads_them() {
    let words = [
        "a", "", "-", "--", "-h", "-V", "-x", "-hV", "--help", "--help=x", "--version", "--nothing",
        "--flush", "--flush=x", "--log", "--log=", "--log=p", "--profile", "hdd", "--profile=bad",
        "--replace", "--replace=false", "--replace=x", "verify", "report", "--plain", "--plain=x",
    ];
    agrees_with_clap(&[]);
    for first in words {
        agrees_with_clap(&[first]);
        for second in words {
            agrees_with_clap(&[first, second]);
        }
    }
}

#[test]
fn longer_command_lines_are_read_as_clap_reads_them() {
    let words = ["a", "", "--", "-h", "--nothing", "--flush", "--log", "--profile", "verify"];
    for first in words {
        for second in words {
            for third in words {
                agrees_with_clap(&[first, second, third]);
            }
        }
    }
}

#[test]
fn subcommands_are_read_as_clap_reads_them() {
    let words = ["a", "", "--", "-h", "--plain", "--plain=x", "--nothing", "-"];
    for name in ["verify", "report"] {
        for first in words {
            for second in words {
                agrees_with_clap(&[name, first, second]);
                agrees_with_clap(&["--profile", "bad", name, first, second]);
                agrees_with_clap(&[name, first, second, "b"]);
            }
        }
    }
}

#[test]
fn values_are_taken_with_and_without_an_equals_sign() {
    let spaced = parse(&["bigcp", "a", "b", "--log", "run.jsonl"]).ok().unwrap();
    let joined = parse(&["bigcp", "a", "b", "--log=run.jsonl"]).ok().unwrap();
    assert_eq!(spaced, joined);
    assert_eq!(joined.flags.log, Some(WidePath::from_text("run.jsonl")));
    let replace = parse(&["bigcp", "a", "b", "--replace"]).ok().unwrap();
    assert_eq!(replace.flags.replace, Some(true));
    let kept = parse(&["bigcp", "a", "b", "--replace=false"]).ok().unwrap();
    assert_eq!(kept.flags.replace, Some(false));
}

#[test]
fn paths_may_look_like_flags_behind_two_dashes() {
    let parsed = parse(&["bigcp", "--", "--dry-run", "verify"]).ok().unwrap();
    assert_eq!(parsed.source, Some(WidePath::from_text("--dry-run")));
    assert_eq!(parsed.destination, Some(WidePath::from_text("verify")));
    assert!(!parsed.flags.dry_run);
}

#[test]
fn subcommands_have_their_own_arguments() {
    let report = parse(&["bigcp", "report", "run.json", "--plain"]).ok().unwrap();
    assert_eq!(
        execute(report),
        Ok(Plan::Report { file: WidePath::from_text("run.json"), plain: true })
    );
    let verify = parse(&["bigcp", "verify", "a", "b"]).ok().unwrap();
    let Ok(Plan::Verify(options)) = execute(verify) else {
        panic!("verify was expected");
    };
    assert_eq!(options.source, WidePath::from_text("a"));
    assert_eq!(options.destination, WidePath::from_text("b"));
}

#[test]
fn copy_options_follow_the_flags() {
    let parsed = parse(&[
        "bigcp", "a", "b", "--verify", "--no-sparse", "--fresh", "--profile", "nvme,hdd",
        "--tune", "mem=1GiB", "--state-dir", "state",
    ])
    .ok()
    .unwrap();
    let options = copy_options(
        WidePath::from_text("a"),
        WidePath::from_text("b"),
        parsed.flags,
        true,
        false,
    );
    assert!(options.verify);
    assert!(options.fresh);
    assert!(options.replace);
    assert!(!options.dry_run);
    assert_eq!(options.source_profile, DeviceClass::Nvme);
    assert_eq!(options.destination_profile, DeviceClass::Hdd);
    assert_eq!(options.tune.memory_bytes, Some(1024 * 1024 * 1024));
    assert_eq!(options.state_dir, Some(WidePath::from_text("state")));
    assert!(options.accept_degraded_filesystem);
    assert!(!options.accept_remote_paths);
}

#[test]
fn flag_free_lines_pass_the_rejection() {
    assert_eq!(reject_copy_only_flags(&CopyFlags::none()), Ok(()));
    let mut flags = CopyFlags::none();
    flags.quiet = true;
    assert!(reject_copy_only_flags(&flags).is_err_and(|(code, _)| code == 5));
}

#[test]
fn exits_become_process_codes() {
    assert_eq!(report_exit(0), 0);
    assert_eq!(report_exit(3), 3);
    assert_eq!(report_exit(-1), 6);
    assert_eq!(report_exit(256), 6);
    assert_eq!(verify_exit(0), 0);
    assert_eq!(verify_exit(7), 2);
    assert_eq!(CliExit::Help(HelpTopic::Verify).exit_code(), 0);
    assert_eq!(CliExit::Version.exit_code(), 0);
    assert_eq!(CliExit::Usage(UsageKind::MissingArgument).exit_code(), 5);
}

fn question() -> PreflightQuestion {
    PreflightQuestion {
        degraded: false,
        remote: false,
        quick_removal: false,
        interactive: true,
        accepted: PreflightAcceptance {
            degraded_filesystem: false,
            remote_paths: false,
            write_cache_policy: false,
        },
        dry_run: false,
    }
}

#[test]
fn nothing_to_confirm_is_no_question() {
    assert_eq!(
        confirm_preflight_warnings(&question()),
        PreflightDecision::Proceed(question().accepted)
    );
    let mut dry = question();
    dry.degraded = true;
    dry.remote = true;
    dry.dry_run = true;
    assert_eq!(
        confirm_preflight_warnings(&dry),
        PreflightDecision::Proceed(dry.accepted)
    );
}

#[test]
fn limits_need_consent_and_name_their_flags() {
    let mut asked = question();
    asked.degraded = true;
    asked.remote = true;
    assert!(matches!(
        confirm_preflight_warnings(&asked),
        PreflightDecision::Ask { required: true, .. }
    ));
    asked.interactive = false;
    let PreflightDecision::Refuse { code, message } = confirm_preflight_warnings(&asked) else {
        panic!("a refusal was expected");
    };
    assert_eq!(code, 5);
    assert_eq!(
        message,
        "copy limitations require confirmation, but no interactive prompt is available; pass \
         --accept-degraded-filesystem and --accept-remote-paths after reviewing the warning"
    );
    asked.accepted.degraded_filesystem = true;
    let PreflightDecision::Refuse { message, .. } = confirm_preflight_warnings(&asked) else {
        panic!("a refusal was expected");
    };
    assert!(message.contains("pass --accept-remote-paths after"));
}

#[test]
fn answers_accept_exactly_what_was_asked() {
    let mut asked = question();
    asked.degraded = true;
    asked.quick_removal = true;
    let PreflightDecision::Proceed(accepted) = confirm_answer(&asked, Some("yes\n")) else {
        panic!("consent was given");
    };
    assert!(accepted.degraded_filesystem);
    assert!(!accepted.remote_paths);
    assert!(accepted.write_cache_policy);
    assert!(matches!(
        confirm_answer(&asked, Some("")),
        PreflightDecision::Refuse { code: 5, .. }
    ));
    assert!(matches!(
        confirm_answer(&asked, None),
        PreflightDecision::Refuse { code: 5, .. }
    ));
    asked.degraded = false;
    assert!(matches!(confirm_answer(&asked, Some("")), PreflightDecision::Proceed(_)));
}

#[test]
fn numbers_are_parsed_to_their_limits() {
    assert_eq!(parse_size("18446744073709551615"), Ok(u64::MAX));
    assert!(parse_size("18446744073709551616").is_err());
    assert_eq!(parse_size_usize("1KiB"), Ok(1024));
    assert_eq!(parse_positive("12", "threads"), Ok(12));
    assert!(parse_positive("0", "threads").is_err());
    assert!(parse_positive("x", "threads").is_err());
    assert!(parse_positive("", "threads").is_err());
}

#[test]
fn classes_have_one_spelling() {
    assert_eq!(parse_device_class("auto"), Ok(DeviceClass::Auto));
    assert_eq!(parse_device_class("sata-ssd"), Ok(DeviceClass::SataSsd));
    assert_eq!(parse_device_class("unknown"), Ok(DeviceClass::Unknown));
    assert!(parse_device_class("tape").is_err());
}

#[test]
fn commas_separate_every_piece() {
    let pieces = split_commas("a,,b");
    assert_eq!(pieces, vec![vec!['a'], vec![], vec!['b']]);
    assert_eq!(split_commas(""), vec![Vec::<char>::new()]);
}

#[test]
fn notices_are_silent_between_equal_local_disks() {
    use_local(false, 0);
    use_local(true, 1);
}

fn use_local(quick_removal: bool, expected: usize) {
    let volume = local_volume();
    let notices = preflight_notices(&Some(volume), &volume, quick_removal);
    assert_eq!(notices.len(), expected);
}

fn local_volume() -> bigcp_core::platform::VolumeInfo {
    bigcp_core::platform::VolumeInfo {
        serial: 1,
        filesystem: bigcp_core::platform::FileSystem::Ntfs,
        capabilities: bigcp_core::platform::VolumeCapabilities {
            named_streams: true,
            extended_attributes: true,
            sparse_files: true,
            encryption: true,
            reparse_points: true,
            block_refcounting: true,
            persistent_acls: true,
            posix_unlink_rename: true,
        },
        endpoint: bigcp_core::platform::EndpointKind::Local,
    }
}
