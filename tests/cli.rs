use dotman::cli::{Cli, HelpTopic, Parsed, SubCommand};
use dotman::error::Error;
use dotman::error::ErrorKind;
use dotman::run::Mode;

fn parse(args: &[&str]) -> Result<Parsed, dotman::error::Error> {
    Cli::try_parse(&args.iter().map(|s| s.to_string()).collect())
}

fn run(args: &[&str]) -> Cli {
    match parse(args) {
        Ok(Parsed::Run(c)) => c,
        _ => panic!("expected a run"),
    }
}

#[test]
fn sync_with_defaults() {
    let c = run(&["sync"]);
    assert_eq!(c.manifest_path, "Manifest.toml");
    assert!(matches!(c.subcommand, SubCommand::Sync { force: false, name: None }));
    assert_eq!(c.subcommand.mode(), Mode::SyncAll);
}

#[test]
fn manifest_option_force_and_name() {
    let c = run(&["-m", "dots/Manifest.toml", "link", "--force", "shell"]);
    assert_eq!(c.manifest_path, "dots/Manifest.toml");
    assert!(c.subcommand.force());
    assert_eq!(c.subcommand.name(), Some("shell"));
    assert_eq!(c.subcommand.mode(), Mode::LinkOnly);
}

#[test]
fn last_name_wins() {
    let c = run(&["generate", "a", "b"]);
    assert_eq!(c.subcommand.name(), Some("b"));
    assert!(!c.subcommand.force());
    assert_eq!(c.subcommand.mode(), Mode::GenerateOnly);
}

#[test]
fn help_flags() {
    assert!(matches!(parse(&["--help"]), Ok(Parsed::Help(HelpTopic::Main))));
    assert!(matches!(parse(&["sync", "-h"]), Ok(Parsed::Help(HelpTopic::Sync))));
    assert!(matches!(parse(&["link", "x", "--help"]), Ok(Parsed::Help(HelpTopic::Link))));
    assert!(matches!(parse(&["generate", "-h"]), Ok(Parsed::Help(HelpTopic::Generate))));
}

#[test]
fn usage_errors() {
    for args in [
        &[][..],
        &["-m"][..],
        &["--verbose"][..],
        &["deploy"][..],
        &["generate", "--force"][..],
        &["sync", "-x"][..],
        &["-m", "M.toml"][..],
    ] {
        match parse(args) {
            Err(e) => assert_eq!(e.kind, ErrorKind::Usage),
            Ok(_) => panic!("expected an error for {args:?}"),
        }
    }
}

#[test]
fn help_text_names_the_subcommands() {
    let t = HelpTopic::Main.usage();
    assert!(t.contains("sync") && t.contains("link") && t.contains("generate"));
}

fn message(args: &[&str]) -> String {
    match parse(args) {
        Err(Error { ctx, .. }) => ctx,
        Ok(_) => panic!("expected an error for {args:?}"),
    }
}

#[test]
fn usage_error_messages() {
    let main = HelpTopic::Main.usage();
    assert_eq!(message(&["generate", "-f"]), format!("invalid flag -f.\n{}", HelpTopic::Generate.usage()));
    assert_eq!(message(&[]), format!("missing arguments.\n{main}"));
    assert_eq!(message(&["-m"]), format!("missing required argument: PATH.\n{main}"));
    assert_eq!(message(&["--verbose"]), format!("invalid flag --verbose.\n{main}"));
    assert_eq!(message(&["deploy"]), format!("invalid subcommand deploy.\n{main}"));
}
