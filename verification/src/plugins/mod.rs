//! The plugins that consume key events: which plugins exist, how a plugin
//! group of the command line picks one, and how a failed start is reported.
use vstd::prelude::*;

pub mod echo;
pub mod history;

pub use echo::EventEcho;
pub use history::PluginHistory;

use crate::args::{texts, ArgToken, ArgsError};
use crate::lexer::{lex_from_args, lex_next, lex_value, lexer_args, lexer_calls, lexopt_next, lexopt_value, LexCall};
use crate::plugins::echo::{EventEchoConfig, EventEchoFactory};
use crate::plugins::history::{PluginHistoryConfig, PluginHistoryFactory};
use crate::text::str_eq;

verus! {

/// A plugin that failed to start, with the reason.
#[derive(Debug)]
pub struct PluginInitError<E> {
    plugin_name: String,
    err: E,
}

impl<E> PluginInitError<E> {
    pub fn new(plugin: &str, err: E) -> (r: PluginInitError<E>)
        ensures
            r.plugin_name()@ == plugin@,
            r.err() == err,
    {
        PluginInitError { plugin_name: String::from_str(plugin), err }
    }

    pub closed spec fn plugin_name(&self) -> String {
        self.plugin_name
    }

    pub closed spec fn err(&self) -> E {
        self.err
    }

    /// The name of the plugin that failed to start.
    pub fn name(&self) -> (n: &str)
        ensures
            n@ == self.plugin_name()@,
    {
        self.plugin_name.as_str()
    }

    /// The reason the plugin failed to start.
    pub fn error(&self) -> (e: &E)
        ensures
            *e == self.err(),
    {
        &self.err
    }
}

/// The configuration of one enabled plugin.
pub trait PluginConfig {
    /// The plugin's name.
    fn name(&self) -> &'static str;
}

/// What a plugin group of the command line can ask for.
pub trait PluginFactory {
    /// The name that picks the plugin on the command line.
    fn cli_name(&self) -> &'static str;

    /// The description of the plugin and its options.
    fn help(&self) -> String;
}

/// The plugins there are.
#[derive(Debug, Clone, Copy, PartialEq, Eq, Structural)]
pub enum PluginKind {
    Echo,
    History,
}

/// The plugin that the first argument of a plugin group names; the first
/// argument is the group's name.
pub open spec fn spec_plugin_kind(bin_name: Option<Seq<char>>) -> Result<PluginKind, ()> {
    match bin_name {
        Some(n) => if n == "echo"@ {
            Ok(PluginKind::Echo)
        } else if n == "history"@ {
            Ok(PluginKind::History)
        } else {
            Err(())
        },
        None => Err(()),
    }
}

/// Picks the plugin that a plugin group names. A group without a name is
/// refused as a missing `<plugin_name>`, and an unknown name as an unexpected
/// value for it.
pub fn parse_plugin_name(bin_name: Option<&str>) -> (r: Result<PluginKind, ArgsError>)
    ensures
        match bin_name {
            None => r matches Err(ArgsError::MissingValue { option: Some(o) }) && o@
                == "<plugin_name>"@,
            Some(n) => match spec_plugin_kind(Some(n@)) {
                Ok(k) => r == Ok::<PluginKind, ArgsError>(k),
                Err(_) => r matches Err(ArgsError::UnexpectedValue { option, value }) && option@
                    == "<plugin_name>"@ && value@ == n@,
            },
        },
{
    match bin_name {
        None => {
            Err(ArgsError::MissingValue { option: Some(String::from_str("<plugin_name>")) })
        },
        Some(name) => {
            if str_eq(name, EventEchoFactory.cli_name()) {
                Ok(PluginKind::Echo)
            } else if str_eq(name, PluginHistoryFactory.cli_name()) {
                Ok(PluginKind::History)
            } else {
                Err(
                    ArgsError::UnexpectedValue {
                        option: String::from_str("<plugin_name>"),
                        value: String::from_str(name),
                    },
                )
            }
        },
    }
}

/// The configuration of one enabled plugin, whichever it is.
#[derive(Debug, Clone, PartialEq, Eq)]
pub enum AnyPluginConfig {
    Echo(EventEchoConfig),
    History(PluginHistoryConfig),
}

impl AnyPluginConfig {
    /// The default configuration of the plugin.
    pub fn default_for(kind: PluginKind) -> (c: AnyPluginConfig)
        ensures
            kind == PluginKind::Echo ==> c == AnyPluginConfig::Echo(EventEchoConfig::spec_default()),
            kind == PluginKind::History ==> (c matches AnyPluginConfig::History(h)
                && h.is_default()),
            c.is_default_for(kind),
    {
        match kind {
            PluginKind::Echo => AnyPluginConfig::Echo(EventEchoConfig::default()),
            PluginKind::History => AnyPluginConfig::History(PluginHistoryConfig::default()),
        }
    }

    /// Whether the option `arg` of this plugin is followed by a value.
    pub fn takes_value(&self, arg: &ArgToken) -> (b: bool)
        ensures
            b == self.spec_takes_value(*arg),
            self matches AnyPluginConfig::Echo(_) ==> b == EventEchoConfig::spec_takes_value(*arg),
            self matches AnyPluginConfig::History(_) ==> b
                == PluginHistoryConfig::spec_takes_value(*arg),
    {
        match self {
            AnyPluginConfig::Echo(_) => EventEchoConfig::takes_value(arg),
            AnyPluginConfig::History(_) => PluginHistoryConfig::takes_value(arg),
        }
    }

    /// Applies one option of the plugin's group to the configuration.
    pub fn apply_arg(&mut self, arg: ArgToken, value: Option<String>) -> (r: Result<(), ArgsError>)
        requires
            *old(self) matches AnyPluginConfig::Echo(_) ==> (value is Some
                <==> EventEchoConfig::spec_takes_value(arg)),
            *old(self) matches AnyPluginConfig::History(_) ==> (value is Some
                <==> PluginHistoryConfig::spec_takes_value(arg)),
        ensures
            *old(self) matches AnyPluginConfig::Echo(c) ==> {
                &&& *final(self) matches AnyPluginConfig::Echo(c2)
                &&& c.spec_apply(arg, value) == (match r {
                    Ok(_) => Ok(c2),
                    Err(e) => Err(e),
                })
                &&& r is Err ==> c2 == c
            },
            *old(self) matches AnyPluginConfig::History(c) ==> {
                &&& *final(self) matches AnyPluginConfig::History(c2)
                &&& c.spec_apply(arg, value) == (match r {
                    Ok(_) => Ok(c2),
                    Err(e) => Err(e),
                })
                &&& r is Err ==> c2 == c
            },
            old(self).spec_apply(arg, value) == (match r {
                Ok(_) => Ok(*final(self)),
                Err(e) => Err(e),
            }),
    {
        match self {
            AnyPluginConfig::Echo(c) => c.apply_arg(arg, value),
            AnyPluginConfig::History(c) => c.apply_arg(arg, value),
        }
    }
}

impl AnyPluginConfig {
    /// Whether the option `arg` of this plugin is followed by a value.
    pub open spec fn spec_takes_value(self, arg: ArgToken) -> bool {
        match self {
            AnyPluginConfig::Echo(_) => EventEchoConfig::spec_takes_value(arg),
            AnyPluginConfig::History(_) => PluginHistoryConfig::spec_takes_value(arg),
        }
    }

    /// The configuration after the option `arg` with its value.
    pub open spec fn spec_apply(self, arg: ArgToken, value: Option<String>) -> Result<
        AnyPluginConfig,
        ArgsError,
    > {
        match self {
            AnyPluginConfig::Echo(c) => match c.spec_apply(arg, value) {
                Ok(c2) => Ok(AnyPluginConfig::Echo(c2)),
                Err(e) => Err(e),
            },
            AnyPluginConfig::History(c) => match c.spec_apply(arg, value) {
                Ok(c2) => Ok(AnyPluginConfig::History(c2)),
                Err(e) => Err(e),
            },
        }
    }

    /// Whether `self` is the default configuration of the plugin `kind`.
    pub open spec fn is_default_for(self, kind: PluginKind) -> bool {
        match kind {
            PluginKind::Echo => self == AnyPluginConfig::Echo(EventEchoConfig::spec_default()),
            PluginKind::History => self matches AnyPluginConfig::History(h) && h.is_default(),
        }
    }

    /// The name of the configured plugin.
    pub open spec fn spec_name(self) -> Seq<char> {
        match self {
            AnyPluginConfig::Echo(_) => crate::plugins::echo::PLUGIN_NAME@,
            AnyPluginConfig::History(_) => crate::plugins::history::PLUGIN_NAME@,
        }
    }
}

/// What reading the options of a plugin group gives, the lexer being made
/// with `args` and having seen the calls `calls`, from the configuration
/// `config`, within `fuel` tokens: each option is applied in turn, with the
/// value that the lexer hands out after it where the option takes one; the
/// end of the group gives the configuration; the first refused option gives
/// its error; running out of fuel gives `Exhausted`. `None` stands for a
/// refusal of the lexer.
pub open spec fn spec_lex_options(
    args: Seq<Seq<char>>,
    calls: Seq<LexCall>,
    config: AnyPluginConfig,
    fuel: nat,
) -> Option<Result<AnyPluginConfig, ArgsError>>
    decreases fuel,
{
    if fuel == 0 {
        Some(Err(ArgsError::Exhausted))
    } else {
        match lexopt_next(args, calls) {
            None => None,
            Some(None) => Some(Ok(config)),
            Some(Some(arg)) => {
                let after_arg = calls.push(LexCall::Next);
                if config.spec_takes_value(arg) {
                    match lexopt_value(args, after_arg) {
                        None => None,
                        Some(v) => match config.spec_apply(arg, Some(v)) {
                            Ok(c) => spec_lex_options(
                                args,
                                after_arg.push(LexCall::Value),
                                c,
                                (fuel - 1) as nat,
                            ),
                            Err(e) => Some(Err(e)),
                        },
                    }
                } else {
                    match config.spec_apply(arg, None) {
                        Ok(c) => spec_lex_options(args, after_arg, c, (fuel - 1) as nat),
                        Err(e) => Some(Err(e)),
                    }
                }
            },
        }
    }
}

/// Whether `r` is the outcome `outcome`, a refusal of the lexer standing
/// for any error of the lexer.
pub open spec fn outcome_is<T>(outcome: Option<Result<T, ArgsError>>, r: Result<T, ArgsError>) -> bool {
    match outcome {
        None => r matches Err(ArgsError::Lexer(_)),
        Some(x) => r == x,
    }
}

/// The saturated sum of the fuel, as `usize` computes it.
pub open spec fn saturate(x: nat) -> nat {
    if x > usize::MAX {
        usize::MAX as nat
    } else {
        x
    }
}

/// The number of tokens allowed to the lexer for the arguments: one per
/// character, one per argument, and one more, saturated at `usize::MAX`.
pub open spec fn spec_lex_fuel(args: Seq<Seq<char>>) -> nat
    decreases args.len(),
{
    if args.len() == 0 {
        1
    } else {
        saturate(saturate(spec_lex_fuel(args.drop_last()) + args.last().len()) + 1nat)
    }
}

/// Whether `r` is what reading the plugin group `group` gives: a missing
/// plugin name, an unknown plugin name, or the options of the named plugin
/// read from its default configuration.
pub open spec fn spec_group_outcome(group: Seq<Seq<char>>, r: Result<AnyPluginConfig, ArgsError>) -> bool {
    if group.len() == 0 {
        r matches Err(ArgsError::MissingValue { option: Some(o) }) && o@ == "<plugin_name>"@
    } else {
        match spec_plugin_kind(Some(group[0])) {
            Err(_) => r matches Err(ArgsError::UnexpectedValue { option, value }) && option@
                == "<plugin_name>"@ && value@ == group[0],
            Ok(kind) => exists|c0: AnyPluginConfig|
                #[trigger] c0.is_default_for(kind) && outcome_is(
                    spec_lex_options(group, Seq::empty(), c0, spec_lex_fuel(group)),
                    r,
                ),
        }
    }
}

/// An upper bound of the number of tokens that the lexer hands out for the
/// arguments: one per character, one per argument, and one more.
pub(crate) fn lex_fuel(args: &Vec<String>) -> (fuel: usize)
    ensures
        fuel == spec_lex_fuel(texts(args@)),
{
    let mut fuel: usize = 1;
    let mut i: usize = 0;
    proof {
        assert(texts(args@.subrange(0, 0)) =~= Seq::<Seq<char>>::empty());
    }
    while i < args.len()
        invariant
            i <= args@.len(),
            fuel == spec_lex_fuel(texts(args@.subrange(0, i as int))),
        decreases args@.len() - i,
    {
        proof {
            assert(texts(args@.subrange(0, i + 1)).drop_last() =~= texts(args@.subrange(0, i as int)));
        }
        let len = args[i].unicode_len();
        let with_chars = fuel.saturating_add(len);
        fuel = with_chars.saturating_add(1);
        i = i + 1;
    }
    assert(args@.subrange(0, args@.len() as int) =~= args@);
    fuel
}

/// Reads one plugin group: its first argument names the plugin, and the
/// others are the plugin's options, lexed by `lexopt` and applied in turn to
/// the plugin's default configuration.
pub fn parse_plugin_from_args(args: Vec<String>) -> (r: Result<AnyPluginConfig, ArgsError>)
    ensures
        spec_group_outcome(texts(args@), r),
{
    let ghost group = texts(args@);
    let fuel = lex_fuel(&args);
    let (mut parser, bin_name) = lex_from_args(args);
    let kind = match bin_name {
        Some(name) => parse_plugin_name(Some(name.as_str())),
        None => parse_plugin_name(None),
    };
    let kind = match kind {
        Ok(k) => k,
        Err(e) => return Err(e),
    };
    let mut config = AnyPluginConfig::default_for(kind);
    let ghost c0 = config;
    let ghost outcome = spec_lex_options(group, Seq::empty(), c0, fuel as nat);
    let mut left: usize = fuel;
    while left > 0
        invariant
            group == texts(args@),
            group.len() > 0,
            spec_plugin_kind(Some(group[0])) == Ok::<PluginKind, ()>(kind),
            c0.is_default_for(kind),
            fuel == spec_lex_fuel(group),
            outcome == spec_lex_options(group, Seq::empty(), c0, fuel as nat),
            lexer_args(parser) == group,
            spec_lex_options(group, lexer_calls(parser), config, left as nat) == outcome,
        decreases left,
    {
        let ghost calls = lexer_calls(parser);
        let arg = match lex_next(&mut parser) {
            Ok(Some(a)) => a,
            Ok(None) => {
                return Ok(config);
            },
            Err(e) => return Err(e),
        };
        let value = if config.takes_value(&arg) {
            match lex_value(&mut parser) {
                Ok(v) => Some(v),
                Err(e) => return Err(e),
            }
        } else {
            None
        };
        left = left - 1;
        match config.apply_arg(arg, value) {
            Ok(()) => {},
            Err(e) => return Err(e),
        }
    }
    Err(ArgsError::Exhausted)
}

/// Whether `try_init_plugin` can start the plugin of `config`.
pub open spec fn started<P, E, F: Fn(AnyPluginConfig) -> Result<P, E>>(
    try_init_plugin: F,
    config: AnyPluginConfig,
) -> bool {
    exists|p: P| try_init_plugin.ensures((config,), Ok::<P, E>(p))
}

/// Starts the plugins of the configurations, in order, with `try_init_plugin`.
/// The first plugin that fails to start stops the others from starting, and
/// its failure is reported under its name.
pub fn init_plugins_from_configs<P, E, F: Fn(AnyPluginConfig) -> Result<P, E>>(
    configs: Vec<AnyPluginConfig>,
    try_init_plugin: F,
) -> (r: Result<Vec<P>, PluginInitError<E>>)
    requires
        forall|c: AnyPluginConfig| try_init_plugin.requires((c,)),
    ensures
        r matches Ok(plugins) ==> {
            &&& plugins@.len() == configs@.len()
            &&& forall|i: int|
                0 <= i < configs@.len() ==> try_init_plugin.ensures(
                    (configs@[i],),
                    Ok::<P, E>(#[trigger] plugins@[i]),
                )
        },
        r matches Err(e) ==> exists|k: int|
            {
                &&& 0 <= k < configs@.len()
                &&& e.plugin_name()@ == (#[trigger] configs@[k]).spec_name()
                &&& try_init_plugin.ensures((configs@[k],), Err::<P, E>(e.err()))
                &&& forall|j: int| 0 <= j < k ==> started(try_init_plugin, #[trigger] configs@[j])
            },
{
    let n = configs.len();
    let ghost all = configs@;
    let mut rest = configs;
    let mut plugins: Vec<P> = Vec::new();
    let mut i: usize = 0;
    while i < n
        invariant
            n == all.len(),
            all == configs@,
            i <= n,
            rest@ == all.subrange(i as int, n as int),
            plugins@.len() == i,
            forall|c: AnyPluginConfig| try_init_plugin.requires((c,)),
            forall|j: int|
                0 <= j < i ==> try_init_plugin.ensures((all[j],), Ok::<P, E>(#[trigger] plugins@[j])),
        decreases n - i,
    {
        let config = rest.remove(0);
        assert(config == all[i as int]);
        assert(rest@ =~= all.subrange(i + 1, n as int));
        let name = config.name();
        match try_init_plugin(config) {
            Ok(plugin) => plugins.push(plugin),
            Err(err) => {
                let e = PluginInitError::new(name, err);
                proof {
                    let k = i as int;
                    assert forall|j: int| 0 <= j < k implies started(
                        try_init_plugin,
                        #[trigger] configs@[j],
                    ) by {
                        assert(try_init_plugin.ensures((configs@[j],), Ok::<P, E>(plugins@[j])));
                    }
                    assert(e.plugin_name()@ == configs@[k].spec_name());
                }
                return Err(e);
            },
        }
        i = i + 1;
    }
    Ok(plugins)
}

impl PluginConfig for AnyPluginConfig {
    fn name(&self) -> (n: &'static str)
        ensures
            *self matches AnyPluginConfig::Echo(_) ==> n@ == crate::plugins::echo::PLUGIN_NAME@,
            *self matches AnyPluginConfig::History(_) ==> n@
                == crate::plugins::history::PLUGIN_NAME@,
    {
        match self {
            AnyPluginConfig::Echo(c) => c.name(),
            AnyPluginConfig::History(c) => c.name(),
        }
    }
}

} // verus!
