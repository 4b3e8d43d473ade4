use keyprod::args::{help_text, parse_app_arg, parse_args, split_plugin_groups, AppArg, ArgToken, ArgsError, Args, CliCommand};
use keyprod::plugins::echo::{EventEchoConfig, EventEchoWriter};
use keyprod::plugins::history::PluginHistoryConfig;
use keyprod::plugins::{parse_plugin_from_args, parse_plugin_name, AnyPluginConfig, PluginConfig, PluginKind};

fn strings(v: &[&str]) -> Vec<String> {
    v.iter().map(|s| s.to_string()).collect()
}

/// `ArgsError` holds the lexer's error, which has no `==`: results are
/// compared by their debug text, which shows every field.
fn check<T: std::fmt::Debug>(got: Result<T, ArgsError>, want: Result<T, ArgsError>) {
    assert_eq!(format!("{:?}", got), format!("{:?}", want));
}

fn long(s: &str) -> ArgToken {
    ArgToken::Long(s.to_string())
}

#[test]
fn app_arguments() {
    check(parse_app_arg(long("help")), Ok(AppArg::Help));
    check(parse_app_arg(long("version")), Ok(AppArg::Version));
    check(parse_app_arg(long("plugin")), Ok(AppArg::Plugin));
    check(parse_app_arg(long("verbose")), Err(ArgsError::Unexpected(long("verbose"))));
    check(parse_app_arg(ArgToken::Short('h')), Err(ArgsError::Unexpected(ArgToken::Short('h'))));
    check(parse_app_arg(ArgToken::Value("echo".to_string())), Err(ArgsError::Unexpected(ArgToken::Value("echo".to_string()))));
    assert!(Args::new().plugins.is_empty());
}

#[test]
fn plugin_groups() {
    let raw = strings(&["echo", "stderr", "--plugin", "history", "--db-path=./history.db"]);
    assert_eq!(
        split_plugin_groups(&raw),
        vec![strings(&["echo", "stderr"]), strings(&["history", "--db-path=./history.db"])]
    );
    assert_eq!(split_plugin_groups(&vec![]), vec![Vec::<String>::new()]);
    assert_eq!(split_plugin_groups(&strings(&["echo", "--plugin"])), vec![strings(&["echo"]), vec![]]);
    assert_eq!(
        split_plugin_groups(&strings(&["--plugin", "--plugin"])),
        vec![Vec::<String>::new(), vec![], vec![]]
    );
}

#[test]
fn plugin_names() {
    check(parse_plugin_name(Some("echo")), Ok(PluginKind::Echo));
    check(parse_plugin_name(Some("history")), Ok(PluginKind::History));
    check(parse_plugin_name(Some("stat")), Err(ArgsError::UnexpectedValue {
            option: "<plugin_name>".to_string(),
            value: "stat".to_string()
        }));
    check(parse_plugin_name(None), Err(ArgsError::MissingValue { option: Some("<plugin_name>".to_string()) }));
}

#[test]
fn echo_options() {
    let mut c = AnyPluginConfig::default_for(PluginKind::Echo);
    assert_eq!(c, AnyPluginConfig::Echo(EventEchoConfig { writer: EventEchoWriter::Stdout }));
    assert_eq!(c.name(), "Echo");
    assert!(!c.takes_value(&long("stderr")));
    assert!(c.takes_value(&long("file")));
    check(c.apply_arg(long("stderr"), None), Ok(()));
    assert_eq!(c, AnyPluginConfig::Echo(EventEchoConfig { writer: EventEchoWriter::Stderr }));
    check(c.apply_arg(long("file"), Some("/tmp/keys.log".to_string())), Ok(()));
    assert_eq!(
        c,
        AnyPluginConfig::Echo(EventEchoConfig {
            writer: EventEchoWriter::File("/tmp/keys.log".to_string())
        })
    );
    check(c.apply_arg(long("stdout"), None), Ok(()));
    assert_eq!(c, AnyPluginConfig::Echo(EventEchoConfig::default()));
    check(c.apply_arg(long("interval"), None), Err(ArgsError::Unexpected(long("interval"))));
    assert_eq!(c, AnyPluginConfig::Echo(EventEchoConfig::default()));
}

#[test]
fn history_options() {
    let mut c = AnyPluginConfig::default_for(PluginKind::History);
    assert_eq!(
        c,
        AnyPluginConfig::History(PluginHistoryConfig {
            db_path: "/var/lib/keyprod/history.db".to_string(),
            dump_interval: 5
        })
    );
    assert_eq!(c.name(), "History");
    assert!(c.takes_value(&long("db-path")));
    assert!(c.takes_value(&long("interval")));
    assert!(!c.takes_value(&long("stdout")));
    check(c.apply_arg(long("interval"), Some("0".to_string())), Ok(()));
    check(c.apply_arg(long("db-path"), Some("./history.db".to_string())), Ok(()));
    assert_eq!(
        c,
        AnyPluginConfig::History(PluginHistoryConfig {
            db_path: "./history.db".to_string(),
            dump_interval: 0
        })
    );
    check(c.apply_arg(long("interval"), Some("5s".to_string())), Err(ArgsError::ParsingFailed { value: "5s".to_string() }));
    check(c.apply_arg(ArgToken::Value("x".to_string()), None), Err(ArgsError::Unexpected(ArgToken::Value("x".to_string()))));
    assert_eq!(
        c,
        AnyPluginConfig::History(PluginHistoryConfig {
            db_path: "./history.db".to_string(),
            dump_interval: 0
        })
    );
}

#[test]
fn help_lists_the_plugins() {
    let h = help_text();
    assert!(h.starts_with("keyprod v0.1.0\nTrack keyboard productivity.\n"));
    assert!(h.contains("Usage:\n    keyprod [options]\n"));
    assert!(h.contains("Available plugins:\n\n* Plugin: echo\nLog keyboard events as is.\n"));
    assert!(h.contains("* Plugin: history\nStores the number of keyboard presses for each day"));
    assert!(h.ends_with("        [default: 5]\n\n"));
}

fn config(r: Result<AnyPluginConfig, ArgsError>) -> AnyPluginConfig {
    match r {
        Ok(c) => c,
        Err(e) => panic!("refused: {:?}", e),
    }
}

#[test]
fn plugin_from_its_arguments() {
    assert_eq!(
        config(parse_plugin_from_args(strings(&["echo", "--stderr"]))),
        AnyPluginConfig::Echo(EventEchoConfig { writer: EventEchoWriter::Stderr })
    );
    assert_eq!(
        config(parse_plugin_from_args(strings(&["echo", "--file", "keys.log"]))),
        AnyPluginConfig::Echo(EventEchoConfig { writer: EventEchoWriter::File("keys.log".to_string()) })
    );
    assert_eq!(
        config(parse_plugin_from_args(strings(&["echo"]))),
        AnyPluginConfig::Echo(EventEchoConfig::default())
    );
    assert_eq!(
        config(parse_plugin_from_args(strings(&["history", "--interval", "0", "--db-path=./h.db"]))),
        AnyPluginConfig::History(PluginHistoryConfig { db_path: "./h.db".to_string(), dump_interval: 0 })
    );
}

#[test]
fn plugin_arguments_refused() {
    check(
        parse_plugin_from_args(vec![]),
        Err(ArgsError::MissingValue { option: Some("<plugin_name>".to_string()) }),
    );
    check(
        parse_plugin_from_args(strings(&["stat"])),
        Err(ArgsError::UnexpectedValue { option: "<plugin_name>".to_string(), value: "stat".to_string() }),
    );
    check(
        parse_plugin_from_args(strings(&["echo", "--bogus"])),
        Err(ArgsError::Unexpected(long("bogus"))),
    );
    check(
        parse_plugin_from_args(strings(&["echo", "stray"])),
        Err(ArgsError::Unexpected(ArgToken::Value("stray".to_string()))),
    );
    check(
        parse_plugin_from_args(strings(&["history", "--interval", "soon"])),
        Err(ArgsError::ParsingFailed { value: "soon".to_string() }),
    );
    assert!(matches!(
        parse_plugin_from_args(strings(&["history", "--interval"])),
        Err(ArgsError::Lexer(_))
    ));
}

#[test]
fn command_line() {
    assert!(matches!(parse_args(strings(&["keyprod", "--help"])), Ok(CliCommand::Help)));
    assert!(matches!(parse_args(strings(&["keyprod", "--version"])), Ok(CliCommand::Version)));
    let raw = strings(&["keyprod", "--plugin", "echo", "--stderr", "--plugin", "history", "--interval=0"]);
    match parse_args(raw) {
        Ok(CliCommand::Run(a)) => assert_eq!(
            a.plugins,
            vec![
                AnyPluginConfig::Echo(EventEchoConfig { writer: EventEchoWriter::Stderr }),
                AnyPluginConfig::History(PluginHistoryConfig {
                    db_path: "/var/lib/keyprod/history.db".to_string(),
                    dump_interval: 0
                }),
            ]
        ),
        _ => panic!("the command line was refused"),
    }
}

#[test]
fn command_line_refused() {
    let refused = |raw: &[&str]| match parse_args(strings(raw)) {
        Ok(_) => panic!("accepted"),
        Err(e) => format!("{:?}", e),
    };
    let missing_name = format!("{:?}", ArgsError::MissingValue { option: Some("<plugin_name>".to_string()) });
    assert_eq!(refused(&["keyprod"]), missing_name);
    assert_eq!(refused(&["keyprod", "--plugin"]), missing_name);
    assert_eq!(refused(&["keyprod", "--plugin", "echo", "--plugin"]), missing_name);
    assert_eq!(refused(&["keyprod", "--verbose"]), format!("{:?}", ArgsError::Unexpected(long("verbose"))));
    assert_eq!(
        refused(&["keyprod", "--plugin=echo"]),
        format!("{:?}", ArgsError::MissingValue { option: Some("plugin".to_string()) })
    );
    assert_eq!(
        refused(&["keyprod", "--plugin", "echo", "--bogus"]),
        format!("{:?}", ArgsError::Unexpected(long("bogus")))
    );
}

#[test]
fn plugin_options_in_order() {
    assert_eq!(
        config(parse_plugin_from_args(strings(&["echo", "--stderr", "--stdout"]))),
        AnyPluginConfig::Echo(EventEchoConfig::default())
    );
    assert_eq!(
        config(parse_plugin_from_args(strings(&["echo", "--stdout", "--file", "out.log"]))),
        AnyPluginConfig::Echo(EventEchoConfig { writer: EventEchoWriter::File("out.log".to_string()) })
    );
    assert_eq!(
        config(parse_plugin_from_args(strings(&["history"]))),
        AnyPluginConfig::History(PluginHistoryConfig {
            db_path: "/var/lib/keyprod/history.db".to_string(),
            dump_interval: 5
        })
    );
    assert!(matches!(
        parse_plugin_from_args(strings(&["echo", "--file"])),
        Err(ArgsError::Lexer(lexopt::Error::MissingValue { .. }))
    ));
    check(
        parse_plugin_from_args(strings(&["history", "--csv"])),
        Err(ArgsError::Unexpected(long("csv"))),
    );
}

#[test]
fn repeated_plugin_groups_are_kept() {
    match parse_args(strings(&["keyprod", "--plugin", "echo", "--plugin", "echo", "--stderr"])) {
        Ok(CliCommand::Run(a)) => assert_eq!(
            a.plugins,
            vec![
                AnyPluginConfig::Echo(EventEchoConfig::default()),
                AnyPluginConfig::Echo(EventEchoConfig { writer: EventEchoWriter::Stderr }),
            ]
        ),
        _ => panic!("the command line was refused"),
    }
}
