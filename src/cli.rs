use vstd::prelude::*;
use vstd::string::StrSliceExecFns;
use vstd::string::StringExecFns;

use crate::error::{Error, ErrorKind};
use crate::paths::is_equal;
use crate::run::Mode;

verus! {

/// A parsed command line.
#[derive(Clone, Debug)]
pub struct Cli {
    pub manifest_path: String,
    pub subcommand: SubCommand,
}

/// What to run.
#[derive(Clone, Debug)]
pub enum SubCommand {
    Sync { force: bool, name: Option<String> },
    Link { force: bool, name: Option<String> },
    Generate { name: Option<String> },
}

/// Which help text was asked for.
#[derive(Clone, Copy, Debug, PartialEq, Eq, Structural)]
pub enum HelpTopic {
    Main,
    Sync,
    Link,
    Generate,
}

/// What a command line asks for: a run, a help text, or nothing that can
/// be understood.
#[derive(Clone, Debug)]
pub enum Parsed {
    Run(Cli),
    Help(HelpTopic),
}

/// The meaning of a command line.
pub enum CliModel {
    Run { manifest: Seq<char>, topic: HelpTopic, force: bool, name: Option<Seq<char>> },
    Help(HelpTopic),
    Fail(Seq<char>),
}

pub open spec fn help_flag(a: Seq<char>) -> bool {
    a == seq!['-', 'h'] || a == seq!['-', '-', 'h', 'e', 'l', 'p']
}

pub open spec fn force_flag(a: Seq<char>) -> bool {
    a == seq!['-', 'f'] || a == seq!['-', '-', 'f', 'o', 'r', 'c', 'e']
}

pub open spec fn manifest_flag(a: Seq<char>) -> bool {
    a == seq!['-', 'm'] || a == seq!['-', '-', 'm', 'a', 'n', 'i', 'f', 'e', 's', 't']
}

/// The subcommand that a word names.
pub open spec fn subcommand_named(a: Seq<char>) -> Option<HelpTopic> {
    if a == seq!['s', 'y', 'n', 'c'] {
        Some(HelpTopic::Sync)
    } else if a == seq!['l', 'i', 'n', 'k'] {
        Some(HelpTopic::Link)
    } else if a == seq!['g', 'e', 'n', 'e', 'r', 'a', 't', 'e'] {
        Some(HelpTopic::Generate)
    } else {
        None
    }
}

/// The help text for a topic.
pub open spec fn usage_text(t: HelpTopic) -> Seq<char> {
    match t {
        HelpTopic::Main => "Usage: dotman [OPTIONS] <SUBCOMMAND>\n\nOptions:\n    -m, --manifest <PATH>  Path to Manifest.toml [default: ./Manifest.toml]\n    -h, --help             Print help\n\nSubcommands:\n    sync      Symlink files and generate templates\n    link      Symlink files\n    generate  Generate templates"@,
        HelpTopic::Sync => "Symlink files and generate templates\n\nUsage: dotman sync [OPTIONS] [<NAME>]\n\nOptions:\n    -f, --force  Force remove existing files\n    -h, --help   Print help"@,
        HelpTopic::Link => "Symlink files\n\nUsage: dotman link [OPTIONS] [<NAME>]\n\nOptions:\n    -f, --force  Force remove existing files\n    -h, --help   Print help"@,
        HelpTopic::Generate => "Generate templates\n\nUsage: dotman generate [OPTIONS] [<NAME>]\n\nOptions:\n    -h, --help   Print help"@,
    }
}

/// The manifest path used when none is given.
pub open spec fn default_manifest() -> Seq<char> {
    seq!['M', 'a', 'n', 'i', 'f', 'e', 's', 't', '.', 't', 'o', 'm', 'l']
}

/// The meaning of the arguments that follow a subcommand: words that start
/// with `-` are its flags, any other word names the entry (the last one
/// wins). Help is shown for the first help flag met before any error.
pub open spec fn sub_meaning(
    topic: HelpTopic,
    args: Seq<Seq<char>>,
    manifest: Seq<char>,
    force: bool,
    name: Option<Seq<char>>,
) -> CliModel
    decreases args.len(),
{
    if args.len() == 0 {
        CliModel::Run { manifest, topic, force, name }
    } else {
        let a = args[0];
        let rest = args.subrange(1, args.len() as int);
        if a.len() > 0 && a[0] == '-' {
            if help_flag(a) {
                CliModel::Help(topic)
            } else if force_flag(a) && topic != HelpTopic::Generate {
                sub_meaning(topic, rest, manifest, true, name)
            } else {
                CliModel::Fail("invalid flag "@ + a + ".\n"@ + usage_text(topic))
            }
        } else {
            sub_meaning(topic, rest, manifest, force, Some(a))
        }
    }
}

/// The meaning of a command line (without the program name): options, each
/// word holding a `-`, then a subcommand that takes every word after it.
pub open spec fn meaning(args: Seq<Seq<char>>, manifest: Seq<char>) -> CliModel
    decreases args.len(),
{
    if args.len() == 0 {
        CliModel::Fail("missing arguments.\n"@ + usage_text(HelpTopic::Main))
    } else {
        let a = args[0];
        if a.contains('-') {
            if help_flag(a) {
                CliModel::Help(HelpTopic::Main)
            } else if manifest_flag(a) && args.len() >= 2 {
                meaning(args.subrange(2, args.len() as int), args[1])
            } else if manifest_flag(a) {
                CliModel::Fail("missing required argument: PATH.\n"@ + usage_text(HelpTopic::Main))
            } else {
                CliModel::Fail("invalid flag "@ + a + ".\n"@ + usage_text(HelpTopic::Main))
            }
        } else {
            match subcommand_named(a) {
                Some(t) => sub_meaning(t, args.subrange(1, args.len() as int), manifest, false, None),
                None => CliModel::Fail(
                    "invalid subcommand "@ + a + ".\n"@ + usage_text(HelpTopic::Main),
                ),
            }
        }
    }
}

/// The characters of each argument.
pub open spec fn words(args: Seq<String>) -> Seq<Seq<char>> {
    args.map_values(|s: String| s@)
}

/// The characters of an optional name.
pub open spec fn name_view(n: Option<String>) -> Option<Seq<char>> {
    match n {
        Some(s) => Some(s@),
        None => None,
    }
}

/// What a parse result means.
pub open spec fn parsed_meaning(r: Result<Parsed, Error>) -> CliModel {
    match r {
        Ok(Parsed::Help(t)) => CliModel::Help(t),
        Ok(Parsed::Run(c)) => match c.subcommand {
            SubCommand::Sync { force, name } => CliModel::Run {
                manifest: c.manifest_path@,
                topic: HelpTopic::Sync,
                force,
                name: name_view(name),
            },
            SubCommand::Link { force, name } => CliModel::Run {
                manifest: c.manifest_path@,
                topic: HelpTopic::Link,
                force,
                name: name_view(name),
            },
            SubCommand::Generate { name } => CliModel::Run {
                manifest: c.manifest_path@,
                topic: HelpTopic::Generate,
                force: false,
                name: name_view(name),
            },
        },
        Err(e) => CliModel::Fail(e.ctx@),
    }
}

fn has_dash(a: &str) -> (r: bool)
    ensures
        r == a@.contains('-'),
{
    let n = a.unicode_len();
    let mut i: usize = 0;
    while i < n
        invariant
            n == a@.len(),
            i <= n,
            forall|j: int| 0 <= j < i ==> a@[j] != '-',
        decreases n - i,
    {
        if a.get_char(i) == '-' {
            return true;
        }
        i = i + 1;
    }
    false
}

fn starts_with_dash(a: &str) -> (r: bool)
    ensures
        r == (a@.len() > 0 && a@[0] == '-'),
{
    a.unicode_len() > 0 && a.get_char(0) == '-'
}

fn is_help_flag(a: &str) -> (r: bool)
    ensures
        r == help_flag(a@),
{
    proof {
        reveal_strlit("-h");
        reveal_strlit("--help");
    }
    assert("-h"@ =~= seq!['-', 'h']);
    assert("--help"@ =~= seq!['-', '-', 'h', 'e', 'l', 'p']);
    is_equal(a, "-h") || is_equal(a, "--help")
}

fn is_force_flag(a: &str) -> (r: bool)
    ensures
        r == force_flag(a@),
{
    proof {
        reveal_strlit("-f");
        reveal_strlit("--force");
    }
    assert("-f"@ =~= seq!['-', 'f']);
    assert("--force"@ =~= seq!['-', '-', 'f', 'o', 'r', 'c', 'e']);
    is_equal(a, "-f") || is_equal(a, "--force")
}

fn is_manifest_flag(a: &str) -> (r: bool)
    ensures
        r == manifest_flag(a@),
{
    proof {
        reveal_strlit("-m");
        reveal_strlit("--manifest");
    }
    assert("-m"@ =~= seq!['-', 'm']);
    assert("--manifest"@ =~= seq!['-', '-', 'm', 'a', 'n', 'i', 'f', 'e', 's', 't']);
    is_equal(a, "-m") || is_equal(a, "--manifest")
}

fn subcommand_of(a: &str) -> (r: Option<HelpTopic>)
    ensures
        r == subcommand_named(a@),
{
    proof {
        reveal_strlit("sync");
        reveal_strlit("link");
        reveal_strlit("generate");
    }
    assert("sync"@ =~= seq!['s', 'y', 'n', 'c']);
    assert("link"@ =~= seq!['l', 'i', 'n', 'k']);
    assert("generate"@ =~= seq!['g', 'e', 'n', 'e', 'r', 'a', 't', 'e']);
    if is_equal(a, "sync") {
        Some(HelpTopic::Sync)
    } else if is_equal(a, "link") {
        Some(HelpTopic::Link)
    } else if is_equal(a, "generate") {
        Some(HelpTopic::Generate)
    } else {
        None
    }
}

fn usage_error(what: &str, arg: &str, topic: HelpTopic) -> (e: Error)
    ensures
        e.kind == ErrorKind::Usage,
        e.ctx@ == what@ + arg@ + ".\n"@ + usage_text(topic),
{
    let mut ctx = what.to_owned();
    ctx.append(arg);
    ctx.append(".\n");
    let usage = topic.usage();
    ctx.append(usage.as_str());
    Error::new(ErrorKind::Usage, ctx)
}

fn parse_subcommand(topic: HelpTopic, args: &Vec<String>, start: usize, manifest: String) -> (r:
    Result<Parsed, Error>)
    requires
        start <= args@.len(),
        topic != HelpTopic::Main,
    ensures
        parsed_meaning(r) == sub_meaning(
            topic,
            words(args@).subrange(start as int, args@.len() as int),
            manifest@,
            false,
            None,
        ),
        r matches Err(e) ==> e.kind == ErrorKind::Usage,
{
    let ghost w = words(args@);
    let ghost goal = sub_meaning(topic, w.subrange(start as int, args@.len() as int), manifest@, false, None);
    assert(w.len() == args@.len());
    let n = args.len();
    let mut force = false;
    let mut name: Option<String> = None;
    let mut j: usize = start;
    while j < n
        invariant
            n == args@.len(),
            w == words(args@),
            start <= j <= n,
            goal == sub_meaning(topic, w.subrange(j as int, n as int), manifest@, force, name_view(name)),
            topic != HelpTopic::Generate || !force,
            topic != HelpTopic::Main,
            w.len() == n,
            goal == sub_meaning(topic, w.subrange(start as int, n as int), manifest@, false, None),
        decreases n - j,
    {
        let a = args[j].as_str();
        let ghost rest = w.subrange(j as int, n as int);
        assert(rest[0] == a@);
        assert(rest.subrange(1, rest.len() as int) =~= w.subrange(j + 1, n as int));
        if starts_with_dash(a) {
            if is_help_flag(a) {
                return Ok(Parsed::Help(topic));
            } else if is_force_flag(a) && topic != HelpTopic::Generate {
                force = true;
            } else {
                return Err(usage_error("invalid flag ", a, topic));
            }
        } else {
            name = Some(args[j].clone());
        }
        j = j + 1;
    }
    let subcommand = match topic {
        HelpTopic::Link => SubCommand::Link { force, name },
        HelpTopic::Generate => SubCommand::Generate { name },
        _ => SubCommand::Sync { force, name },
    };
    Ok(Parsed::Run(Cli { manifest_path: manifest, subcommand }))
}

impl HelpTopic {
    /// The help text for this topic.
    pub fn usage(&self) -> (r: String)
        ensures
            r@ == usage_text(*self),
    {
        match self {
            HelpTopic::Main => "Usage: dotman [OPTIONS] <SUBCOMMAND>\n\nOptions:\n    -m, --manifest <PATH>  Path to Manifest.toml [default: ./Manifest.toml]\n    -h, --help             Print help\n\nSubcommands:\n    sync      Symlink files and generate templates\n    link      Symlink files\n    generate  Generate templates".to_owned(),
            HelpTopic::Sync => "Symlink files and generate templates\n\nUsage: dotman sync [OPTIONS] [<NAME>]\n\nOptions:\n    -f, --force  Force remove existing files\n    -h, --help   Print help".to_owned(),
            HelpTopic::Link => "Symlink files\n\nUsage: dotman link [OPTIONS] [<NAME>]\n\nOptions:\n    -f, --force  Force remove existing files\n    -h, --help   Print help".to_owned(),
            HelpTopic::Generate => "Generate templates\n\nUsage: dotman generate [OPTIONS] [<NAME>]\n\nOptions:\n    -h, --help   Print help".to_owned(),
        }
    }
}

impl SubCommand {
    /// What the subcommand does with each entry.
    pub fn mode(&self) -> (r: Mode)
        ensures
            self is Sync ==> r == Mode::SyncAll,
            self is Link ==> r == Mode::LinkOnly,
            self is Generate ==> r == Mode::GenerateOnly,
    {
        match self {
            SubCommand::Sync { .. } => Mode::SyncAll,
            SubCommand::Link { .. } => Mode::LinkOnly,
            SubCommand::Generate { .. } => Mode::GenerateOnly,
        }
    }

    /// Whether existing files are replaced.
    pub fn force(&self) -> (r: bool)
        ensures
            r == match self {
                SubCommand::Sync { force, .. } => *force,
                SubCommand::Link { force, .. } => *force,
                SubCommand::Generate { .. } => false,
            },
    {
        match self {
            SubCommand::Sync { force, .. } => *force,
            SubCommand::Link { force, .. } => *force,
            SubCommand::Generate { .. } => false,
        }
    }

    /// The single entry selected, if any.
    pub fn name(&self) -> (r: Option<&str>)
        ensures
            r matches Some(s) ==> match self {
                SubCommand::Sync { name, .. } => *name matches Some(n) && n@ == s@,
                SubCommand::Link { name, .. } => *name matches Some(n) && n@ == s@,
                SubCommand::Generate { name } => *name matches Some(n) && n@ == s@,
            },
            r is None <==> match self {
                SubCommand::Sync { name, .. } => name is None,
                SubCommand::Link { name, .. } => name is None,
                SubCommand::Generate { name } => name is None,
            },
    {
        let n = match self {
            SubCommand::Sync { name, .. } => name,
            SubCommand::Link { name, .. } => name,
            SubCommand::Generate { name } => name,
        };
        match n {
            Some(s) => Some(s.as_str()),
            None => None,
        }
    }
}

impl Cli {
    /// Parses a command line, without the program name.
    ///
    /// Options come first: `-h`/`--help` asks for help, `-m`/`--manifest`
    /// takes the manifest path (default `Manifest.toml`). Then a subcommand,
    /// `sync`, `link` or `generate`, takes every word after it: `-h`/`--help`
    /// asks for its help, `-f`/`--force` (not for `generate`) sets force,
    /// any other word starting with `-` is an error, and other words name
    /// the entry. A command line without a subcommand is an error.
    pub fn try_parse(args: &Vec<String>) -> (r: Result<Parsed, Error>)
        ensures
            parsed_meaning(r) == meaning(words(args@), default_manifest()),
            r matches Err(e) ==> e.kind == ErrorKind::Usage,
    {
        let ghost w = words(args@);
        let n = args.len();
        proof {
            reveal_strlit("Manifest.toml");
        }
        let mut manifest = "Manifest.toml".to_owned();
        assert(manifest@ =~= default_manifest());
        let mut i: usize = 0;
        assert(w.subrange(0, n as int) =~= w);
        while i < n
            invariant
                n == args@.len(),
                w == words(args@),
                i <= n,
                meaning(w, default_manifest()) == meaning(w.subrange(i as int, n as int), manifest@),
            decreases n - i,
        {
            let a = args[i].as_str();
            let ghost rest = w.subrange(i as int, n as int);
            assert(rest[0] == a@);
            if has_dash(a) {
                if is_help_flag(a) {
                    return Ok(Parsed::Help(HelpTopic::Main));
                } else if is_manifest_flag(a) && i + 1 < n {
                    assert(rest[1] == args@[i + 1]@);
                    assert(rest.subrange(2, rest.len() as int) =~= w.subrange(i + 2, n as int));
                    manifest = args[i + 1].clone();
                    i = i + 2;
                } else if is_manifest_flag(a) {
                    let mut ctx = "missing required argument: PATH.\n".to_owned();
                    ctx.append(HelpTopic::Main.usage().as_str());
                    return Err(Error::new(ErrorKind::Usage, ctx));
                } else {
                    return Err(usage_error("invalid flag ", a, HelpTopic::Main));
                }
            } else {
                assert(rest.subrange(1, rest.len() as int) =~= w.subrange(i + 1, n as int));
                match subcommand_of(a) {
                    Some(t) => {
                        return parse_subcommand(t, args, i + 1, manifest);
                    },
                    None => {
                        return Err(usage_error("invalid subcommand ", a, HelpTopic::Main));
                    },
                }
            }
        }
        let mut ctx = "missing arguments.\n".to_owned();
        ctx.append(HelpTopic::Main.usage().as_str());
        Err(Error::new(ErrorKind::Usage, ctx))
    }
}

} // verus!
