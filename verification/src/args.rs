//! The command line: `[--help | --version] --plugin <name> [options]...`,
//! with one `--plugin` group for each plugin to enable.
use vstd::prelude::*;

use crate::plugins::echo::{EventEchoFactory, ECHO_HELP};
use crate::plugins::history::{PluginHistoryFactory, HISTORY_HELP};
use crate::lexer::{lex_from_args, lex_next, lex_raw_args, lexer_args, lexer_calls, lexopt_next, lexopt_raw_args, LexCall};
use crate::plugins::{parse_plugin_from_args, spec_group_outcome, AnyPluginConfig, PluginFactory};
use crate::{PKG_NAME, VERSION};
use crate::text::str_eq;

verus! {

/// One command line argument as the option lexer splits it: a short option
/// (`-q`), a long option (`--verbose`, without its dashes) or a value.
#[derive(Debug, PartialEq, Eq)]
pub enum ArgToken {
    Short(char),
    Long(String),
    Value(String),
}

/// Whether the token is the long option `--name`.
pub open spec fn is_long(arg: ArgToken, name: Seq<char>) -> bool {
    arg matches ArgToken::Long(l) && l@ == name
}

impl ArgToken {
    /// Whether the token is the long option `--name`.
    pub fn is_long(&self, name: &str) -> (b: bool)
        ensures
            b == is_long(*self, name@),
    {
        match self {
            ArgToken::Long(l) => str_eq(l.as_str(), name),
            _ => false,
        }
    }
}

/// Why the command line was refused.
#[derive(Debug)]
pub enum ArgsError {
    /// The option lexer refused the command line.
    Lexer(lexopt::Error),
    /// More arguments came from the lexer than the text of the command line
    /// holds characters.
    Exhausted,
    /// A value was needed and none was there (`option` names what needed it).
    MissingValue { option: Option<String> },
    /// An option or value that is not expected where it stands.
    Unexpected(ArgToken),
    /// A value that is not one of the expected values of `option`.
    UnexpectedValue { option: String, value: String },
    /// A value that could not be read as a number.
    ParsingFailed { value: String },
}

/// What the program-wide part of the command line asks for, decided by its
/// first argument.
#[derive(Debug, Clone, Copy, PartialEq, Eq)]
pub enum AppArg {
    /// `--help`: print the help and stop.
    Help,
    /// `--version`: print the version and stop.
    Version,
    /// `--plugin`: the plugin groups follow.
    Plugin,
}

/// The meaning of an argument before the first plugin group.
pub open spec fn spec_app_arg(arg: ArgToken) -> Option<AppArg> {
    if is_long(arg, "help"@) {
        Some(AppArg::Help)
    } else if is_long(arg, "version"@) {
        Some(AppArg::Version)
    } else if is_long(arg, "plugin"@) {
        Some(AppArg::Plugin)
    } else {
        None
    }
}

/// Reads an argument that comes before the first plugin group: only
/// `--help`, `--version` and `--plugin` are accepted there.
pub fn parse_app_arg(arg: ArgToken) -> (r: Result<AppArg, ArgsError>)
    ensures
        r == (match spec_app_arg(arg) {
            Some(a) => Ok(a),
            None => Err(ArgsError::Unexpected(arg)),
        }),
{
    if arg.is_long("help") {
        Ok(AppArg::Help)
    } else if arg.is_long("version") {
        Ok(AppArg::Version)
    } else if arg.is_long("plugin") {
        Ok(AppArg::Plugin)
    } else {
        Err(ArgsError::Unexpected(arg))
    }
}

/// The argument that starts each plugin group.
pub const PLUGIN_FLAG: &'static str = "--plugin";

/// The texts of a list of strings.
pub open spec fn texts(v: Seq<String>) -> Seq<Seq<char>> {
    v.map_values(|s: String| s@)
}

/// The texts of a list of groups of strings.
pub open spec fn group_texts(groups: Seq<Vec<String>>) -> Seq<Seq<Seq<char>>> {
    groups.map_values(|g: Vec<String>| texts(g@))
}

/// The groups written one after the other, with `sep` between each two.
pub open spec fn join_groups(groups: Seq<Seq<Seq<char>>>, sep: Seq<char>) -> Seq<Seq<char>>
    decreases groups.len(),
{
    if groups.len() == 0 {
        seq![]
    } else if groups.len() == 1 {
        groups[0]
    } else {
        join_groups(groups.drop_last(), sep) + seq![sep] + groups.last()
    }
}

proof fn lemma_join_push_last(groups: Seq<Seq<Seq<char>>>, sep: Seq<char>, x: Seq<char>)
    requires
        groups.len() > 0,
    ensures
        join_groups(groups.update(groups.len() - 1, groups.last().push(x)), sep) == join_groups(
            groups,
            sep,
        ).push(x),
{
    let g2 = groups.update(groups.len() - 1, groups.last().push(x));
    if groups.len() == 1 {
    } else {
        assert(g2.drop_last() =~= groups.drop_last());
    }
}

proof fn lemma_join_push_group(groups: Seq<Seq<Seq<char>>>, sep: Seq<char>)
    requires
        groups.len() > 0,
    ensures
        join_groups(groups.push(seq![]), sep) == join_groups(groups, sep).push(sep),
{
    assert(groups.push(seq![]).drop_last() =~= groups);
    assert(join_groups(groups, sep) + seq![sep] + seq![] =~= join_groups(groups, sep).push(sep));
}

/// The plugin groups of the arguments that follow the first `--plugin`: a
/// `--plugin` argument closes the group being read and opens a new one, and
/// any other argument joins the group being read.
pub open spec fn split_groups(args: Seq<Seq<char>>) -> Seq<Seq<Seq<char>>>
    decreases args.len(),
{
    if args.len() == 0 {
        seq![Seq::<Seq<char>>::empty()]
    } else {
        let groups = split_groups(args.drop_last());
        if args.last() == PLUGIN_FLAG@ {
            groups.push(Seq::<Seq<char>>::empty())
        } else {
            groups.update(groups.len() - 1, groups.last().push(args.last()))
        }
    }
}

proof fn lemma_split_groups_nonempty(args: Seq<Seq<char>>)
    ensures
        split_groups(args).len() >= 1,
    decreases args.len(),
{
    if args.len() > 0 {
        lemma_split_groups_nonempty(args.drop_last());
    }
}

/// Splits the arguments that follow the first `--plugin` into one group per
/// plugin: the groups are separated by `--plugin` arguments, and an empty
/// group stands where two `--plugin` follow each other or one ends the line.
pub fn split_plugin_groups(raw: &Vec<String>) -> (groups: Vec<Vec<String>>)
    ensures
        groups@.len() >= 1,
        group_texts(groups@) == split_groups(texts(raw@)),
        join_groups(group_texts(groups@), PLUGIN_FLAG@) == texts(raw@),
        forall|i: int, j: int|
            0 <= i < groups@.len() && 0 <= j < groups@[i]@.len() ==> #[trigger] groups@[i]@[j]@
                != PLUGIN_FLAG@,
{
    let mut groups: Vec<Vec<String>> = Vec::new();
    let mut current: Vec<String> = Vec::new();
    let mut i: usize = 0;
    proof {
        assert(texts(raw@.subrange(0, 0)) =~= Seq::<Seq<char>>::empty());
        assert(texts(current@) =~= Seq::<Seq<char>>::empty());
        assert(group_texts(groups@.push(current)) =~~= seq![Seq::<Seq<char>>::empty()]);
    }
    while i < raw.len()
        invariant
            i <= raw@.len(),
            join_groups(group_texts(groups@.push(current)), PLUGIN_FLAG@) == texts(
                raw@.subrange(0, i as int),
            ),
            group_texts(groups@.push(current)) == split_groups(texts(raw@.subrange(0, i as int))),
            forall|a: int, b: int|
                0 <= a < groups@.len() && 0 <= b < groups@[a]@.len() ==> #[trigger] groups@[a]@[b]@
                    != PLUGIN_FLAG@,
            forall|b: int| 0 <= b < current@.len() ==> #[trigger] current@[b]@ != PLUGIN_FLAG@,
        decreases raw@.len() - i,
    {
        let arg = &raw[i];
        let ghost before = group_texts(groups@.push(current));
        let ghost old_current = current@;
        proof {
            assert(texts(raw@.subrange(0, i + 1)) =~= texts(raw@.subrange(0, i as int)).push(
                arg@,
            ));
            assert(texts(raw@.subrange(0, i + 1)).drop_last() =~= texts(raw@.subrange(0, i as int)));
            lemma_split_groups_nonempty(texts(raw@.subrange(0, i as int)));
        }
        if str_eq(arg.as_str(), PLUGIN_FLAG) {
            let mut finished: Vec<String> = Vec::new();
            std::mem::swap(&mut finished, &mut current);
            groups.push(finished);
            proof {
                assert(texts(current@) =~= Seq::<Seq<char>>::empty());
                assert(group_texts(groups@.push(current)) =~~= before.push(seq![]));
                lemma_join_push_group(before, PLUGIN_FLAG@);
            }
        } else {
            current.push(arg.clone());
            proof {
                let after = group_texts(groups@.push(current));
                assert(texts(current@) =~= texts(old_current).push(arg@));
                assert(after =~~= before.update(before.len() - 1, before.last().push(arg@)));
                lemma_join_push_last(before, PLUGIN_FLAG@, arg@);
            }
        }
        i = i + 1;
    }
    assert(raw@.subrange(0, raw@.len() as int) =~= raw@);
    groups.push(current);
    groups
}

/// The program-wide options; there are none beside the plugin groups.
pub struct GeneralArgs {}

/// The parsed command line: the configurations of the enabled plugins, in the
/// order of their groups.
pub struct Args {
    pub plugins: Vec<AnyPluginConfig>,
    pub general: GeneralArgs,
}

impl Args {
    /// A command line that enables no plugin.
    pub fn new() -> (a: Args)
        ensures
            a.plugins@.len() == 0,
    {
        Args { plugins: Vec::new(), general: GeneralArgs {  } }
    }
}

/// The help text between the version and the program name.
pub const HELP_INTRO: &'static str = "
Track keyboard productivity.

By default, logs with level \"info\" or higher are printed. To control the log level, use the
environment variable \"RUST_LOG\". For example, \"RUST_LOG=warn\" to reduce the verbosity to only
warnings and error messages; or \"RUST_LOG=debug\" to include debug messages.

Usage:
    ";

/// The help text between the program name and the plugins.
pub const HELP_OPTIONS: &'static str = " [options]

Options:
    --plugin <plugin-name> [plugin-options]...
        Enable plugin and configure it. Multiple plugins can be enabled.
    --help
        Print help information.
    --version
        Print version.

Available plugins:

";

/// The entry of one plugin in the help text.
pub open spec fn spec_plugin_help(cli_name: Seq<char>, help: Seq<char>) -> Seq<char> {
    "* Plugin: "@ + cli_name + "\n"@ + help + "\n"@
}

/// The help text: the version, the usage and options, then each plugin with
/// its options.
pub open spec fn spec_help_text() -> Seq<char> {
    VERSION@ + HELP_INTRO@ + PKG_NAME@ + HELP_OPTIONS@ + spec_plugin_help("echo"@, ECHO_HELP@)
        + spec_plugin_help("history"@, HISTORY_HELP@)
}

fn append_plugin_help(out: &mut String, cli_name: &str, help: &str)
    ensures
        final(out)@ == old(out)@ + spec_plugin_help(cli_name@, help@),
{
    out.append("* Plugin: ");
    out.append(cli_name);
    out.append("\n");
    out.append(help);
    out.append("\n");
}

/// The text that `--help` prints.
pub fn help_text() -> (h: String)
    ensures
        h@ == spec_help_text(),
{
    let mut h = String::from_str(VERSION);
    h.append(HELP_INTRO);
    h.append(PKG_NAME);
    h.append(HELP_OPTIONS);
    let echo_help = EventEchoFactory.help();
    append_plugin_help(&mut h, EventEchoFactory.cli_name(), echo_help.as_str());
    let history_help = PluginHistoryFactory.help();
    append_plugin_help(
        &mut h,
        PluginHistoryFactory.cli_name(),
        history_help.as_str(),
    );
    h
}

/// What the command line asks for.
pub enum CliCommand {
    /// Print the help.
    Help,
    /// Print the version.
    Version,
    /// Run with these plugins.
    Run(Args),
}

/// Whether `plugins` are the configurations that the plugin groups read
/// as, one for each group, in order.
pub open spec fn spec_all_read(groups: Seq<Seq<Seq<char>>>, plugins: Seq<AnyPluginConfig>) -> bool {
    &&& plugins.len() == groups.len()
    &&& forall|i: int|
        0 <= i < groups.len() ==> spec_group_outcome(groups[i], Ok(#[trigger] plugins[i]))
}

/// Whether `e` is the error of the first refused plugin group: every group
/// before it reads as some configuration.
pub open spec fn spec_first_refusal(groups: Seq<Seq<Seq<char>>>, e: ArgsError) -> bool {
    exists|k: int, done: Seq<AnyPluginConfig>|
        #![trigger groups[k], done.len()]
        {
            &&& 0 <= k < groups.len()
            &&& done.len() == k
            &&& forall|j: int| 0 <= j < k ==> spec_group_outcome(groups[j], Ok(#[trigger] done[j]))
            &&& spec_group_outcome(groups[k], Err(e))
        }
}

/// Whether `r` is what the plugin groups `groups` give: one configuration
/// for each group in order, or the error of the first refused group.
pub open spec fn spec_groups_outcome(groups: Seq<Seq<Seq<char>>>, r: Result<CliCommand, ArgsError>) -> bool {
    match r {
        Ok(CliCommand::Run(a)) => spec_all_read(groups, a.plugins@),
        Ok(_) => false,
        Err(e) => spec_first_refusal(groups, e),
    }
}

/// Whether `r` is what the lexer's rest of the line gives after the first
/// `--plugin`: `None` when the lexer is in the middle of an argument (as in
/// `--plugin=echo`), else the groups of the rest.
pub open spec fn spec_rest_outcome(rest: Option<Seq<Seq<char>>>, r: Result<CliCommand, ArgsError>) -> bool {
    match rest {
        None => r matches Err(ArgsError::MissingValue { option: Some(o) }) && o@ == "plugin"@,
        Some(rest) => spec_groups_outcome(split_groups(rest), r),
    }
}

/// Whether `r` is what the command line `args`, program name first, gives:
/// its first token decides; `--help` and `--version` are answered at once,
/// `--plugin` or the end of the line leads to the plugin groups, and any
/// other token is refused.
pub open spec fn spec_cli_outcome(args: Seq<Seq<char>>, r: Result<CliCommand, ArgsError>) -> bool {
    let after_first = seq![LexCall::Next];
    match lexopt_next(args, Seq::empty()) {
        None => r matches Err(ArgsError::Lexer(_)),
        Some(None) => spec_rest_outcome(lexopt_raw_args(args, after_first), r),
        Some(Some(arg)) => match spec_app_arg(arg) {
            Some(AppArg::Help) => r matches Ok(CliCommand::Help),
            Some(AppArg::Version) => r matches Ok(CliCommand::Version),
            Some(AppArg::Plugin) => spec_rest_outcome(lexopt_raw_args(args, after_first), r),
            None => r matches Err(ArgsError::Unexpected(t)) && t == arg,
        },
    }
}

/// Reads the command line, program name first: its first token decides
/// (`--help` and `--version` at once); after `--plugin`, the rest is split
/// into plugin groups, each read in turn by `parse_plugin_from_args`, and the
/// first refused group refuses the command line.
pub fn parse_args(raw: Vec<String>) -> (r: Result<CliCommand, ArgsError>)
    ensures
        spec_cli_outcome(texts(raw@), r),
{
    let (mut parser, _bin_name) = lex_from_args(raw);
    let ghost args_text = lexer_args(parser);
    match lex_next(&mut parser) {
        Ok(None) => {},
        Ok(Some(arg)) => match parse_app_arg(arg) {
            Ok(AppArg::Help) => return Ok(CliCommand::Help),
            Ok(AppArg::Version) => return Ok(CliCommand::Version),
            Ok(AppArg::Plugin) => {},
            Err(e) => return Err(e),
        },
        Err(e) => return Err(e),
    }
    assert(lexer_calls(parser) == seq![LexCall::Next]);
    let rest = match lex_raw_args(&mut parser) {
        Some(v) => v,
        None => return Err(ArgsError::MissingValue { option: Some(String::from_str("plugin")) }),
    };
    let mut groups = split_plugin_groups(&rest);
    let ghost all = groups@;
    let ghost split = split_groups(texts(rest@));
    let n = groups.len();
    let mut args = Args::new();
    let mut i: usize = 0;
    while i < n
        invariant
            args_text == texts(raw@),
            split == split_groups(texts(rest@)),
            lexopt_raw_args(args_text, seq![LexCall::Next]) == Some(texts(rest@)),
            lexopt_next(args_text, Seq::empty()) matches Some(None) || (lexopt_next(
                args_text,
                Seq::empty(),
            ) matches Some(Some(t)) && spec_app_arg(t) == Some(AppArg::Plugin)),
            n == all.len(),
            group_texts(all) == split,
            i <= n,
            groups@ == all.subrange(i as int, n as int),
            args.plugins@.len() == i,
            forall|j: int| 0 <= j < i ==> spec_group_outcome(split[j], Ok(#[trigger] args.plugins@[j])),
        decreases n - i,
    {
        let group = groups.remove(0);
        assert(group == all[i as int]);
        assert(groups@ =~= all.subrange(i + 1, n as int));
        assert(split[i as int] == texts(group@));
        match parse_plugin_from_args(group) {
            Ok(c) => args.plugins.push(c),
            Err(e) => {
                let ghost done = args.plugins@;
                assert(spec_group_outcome(split[i as int], Err(e)));
                assert(0 <= i < split.len() && done.len() == i);
                assert(spec_first_refusal(split, e));
                let r: Result<CliCommand, ArgsError> = Err(e);
                assert(spec_groups_outcome(split, r));
                return r;
            },
        }
        i = i + 1;
    }
    Ok(CliCommand::Run(args))
}

} // verus!
