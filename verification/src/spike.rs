//! The injection experiment: fixed scenarios of snapshots, its command
//! line, and the text read back from the test editor.
use vstd::prelude::*;

use crate::diff::{plan_transition, spec_backspaces, spec_insert, Transition};
use crate::text::{chars_of, str_equal, string_from_chars};
use crate::update::{parse_u64, parsed_u64};

verus! {

broadcast use vstd::string::group_string_axioms;

/// A scenario of successive full-text snapshots.
#[derive(Debug, Clone, Copy, PartialEq, Eq, Structural)]
pub enum Scenario {
    Unicode,
    Rewrite,
    Multiline,
}

pub open spec fn scenario_named(value: Seq<char>) -> Option<Scenario> {
    if value == "unicode"@ {
        Some(Scenario::Unicode)
    } else if value == "rewrite"@ {
        Some(Scenario::Rewrite)
    } else if value == "multiline"@ {
        Some(Scenario::Multiline)
    } else {
        None
    }
}

pub open spec fn scenario_text(scenario: Scenario) -> Seq<char> {
    match scenario {
        Scenario::Unicode => "unicode"@,
        Scenario::Rewrite => "rewrite"@,
        Scenario::Multiline => "multiline"@,
    }
}

/// The name of a scenario selects that scenario.
pub proof fn law_scenario_name_selects_it(scenario: Scenario)
    ensures
        scenario_named(scenario_text(scenario)) == Some(scenario),
{
    reveal_strlit("unicode");
    reveal_strlit("rewrite");
    reveal_strlit("multiline");
    assert("unicode"@[0] != "rewrite"@[0]);
    assert("unicode"@.len() != "multiline"@.len());
    assert("rewrite"@.len() != "multiline"@.len());
}

impl Scenario {
    /// The scenario a command-line name selects.
    pub fn parse(value: &str) -> (scenario: Option<Scenario>)
        ensures
            scenario == scenario_named(value@),
    {
        if str_equal(value, "unicode") {
            Some(Scenario::Unicode)
        } else if str_equal(value, "rewrite") {
            Some(Scenario::Rewrite)
        } else if str_equal(value, "multiline") {
            Some(Scenario::Multiline)
        } else {
            None
        }
    }

    /// The name that selects the scenario.
    pub fn name(self) -> (name: &'static str)
        ensures
            name@ == scenario_text(self),
    {
        match self {
            Scenario::Unicode => "unicode",
            Scenario::Rewrite => "rewrite",
            Scenario::Multiline => "multiline",
        }
    }

    /// The snapshots the scenario types one after the other.
    pub fn snapshots(self) -> (snapshots: Vec<&'static str>)
        ensures
            snapshots@.map_values(|s: &'static str| s@) == scenario_snapshots(self),
    {
        match self {
            Scenario::Unicode => vec!["你好", "你好，Windows", "你好，Windows 🙂", "你好，Windows 🙂 café"],
            Scenario::Rewrite => vec!["豆包正在识别", "豆包正在识别语音", "豆包正在识别文本", "豆包语音识别文本。"],
            Scenario::Multiline => vec!["第一行", "第一行\n第二行", "第一行\n第二行\n第三行🙂"],
        }
    }
}

/// The snapshots a scenario types, in order.
pub open spec fn scenario_snapshots(scenario: Scenario) -> Seq<Seq<char>> {
    match scenario {
        Scenario::Unicode => seq!["你好"@, "你好，Windows"@, "你好，Windows 🙂"@, "你好，Windows 🙂 café"@],
        Scenario::Rewrite => seq!["豆包正在识别"@, "豆包正在识别语音"@, "豆包正在识别文本"@, "豆包语音识别文本。"@],
        Scenario::Multiline => seq!["第一行"@, "第一行\n第二行"@, "第一行\n第二行\n第三行🙂"@],
    }
}

/// `step` is the edit `plan_transition` makes from `previous` to `current`.
pub open spec fn is_transition(step: Transition, previous: Seq<char>, current: Seq<char>) -> bool {
    step.backspaces == spec_backspaces(previous, current) && step.insert@ == spec_insert(previous, current)
}

/// The edits that type a sequence of snapshots from an empty text.
pub fn scenario_transitions(snapshots: &Vec<&'static str>) -> (steps: Vec<Transition>)
    ensures
        steps@.len() == snapshots@.len(),
        forall|i: int|
            0 <= i < snapshots@.len() ==> is_transition(
                #[trigger] steps@[i],
                if i == 0 {
                    Seq::<char>::empty()
                } else {
                    snapshots@[i - 1]@
                },
                snapshots@[i]@,
            ),
{
    let mut steps: Vec<Transition> = Vec::new();
    let mut previous: &str = "";
    let mut index: usize = 0;
    proof {
        reveal_strlit("");
    }
    while index < snapshots.len()
        invariant
            index <= snapshots@.len(),
            steps@.len() == index,
            previous@ == if index == 0 {
                Seq::<char>::empty()
            } else {
                snapshots@[index - 1]@
            },
            forall|i: int|
                0 <= i < index ==> is_transition(
                    #[trigger] steps@[i],
                    if i == 0 {
                        Seq::<char>::empty()
                    } else {
                        snapshots@[i - 1]@
                    },
                    snapshots@[i]@,
                ),
        decreases snapshots.len() - index,
    {
        let snapshot = snapshots[index];
        let step = plan_transition(previous, snapshot);
        steps.push(step);
        previous = snapshot;
        index += 1;
    }
    steps
}

/// Why the command line was refused.
#[derive(Debug, Clone, PartialEq, Eq)]
pub enum ConfigError {
    /// An option's value is missing.
    MissingValue(String),
    /// A numeric option's value is not a non-negative integer.
    NotANumber(String),
    /// The scenario name is unknown.
    UnknownScenario,
    /// The argument is not an option.
    UnknownArgument(String),
}

/// The value of a numeric option: a non-negative decimal integer.
pub fn parse_number(name: &str, value: Option<String>) -> (number: Result<u64, ConfigError>)
    ensures
        match value {
            None => number matches Err(ConfigError::MissingValue(n)) && n@ == name@,
            Some(v) => match parsed_u64(v@) {
                Some(n) => number == Ok::<u64, ConfigError>(n),
                None => number matches Err(ConfigError::NotANumber(n)) && n@ == name@,
            },
        },
{
    let value = match value {
        Some(v) => v,
        None => return Err(ConfigError::MissingValue(name.to_owned())),
    };
    let chars = chars_of(value.as_str());
    match parse_u64(chars.as_slice()) {
        Some(n) => Ok(n),
        None => Err(ConfigError::NotANumber(name.to_owned())),
    }
}

/// The settings of a run.
#[derive(Debug, Clone, PartialEq, Eq)]
pub struct Config {
    pub scenario: Scenario,
    pub focus_delay_seconds: u64,
    pub step_delay_ms: u64,
    pub dry_run: bool,
    pub self_test: bool,
}

/// What the command line asks for.
#[derive(Debug, Clone, PartialEq, Eq)]
pub enum Command {
    Run(Config),
    Help,
}

/// What reading a command line comes to.
pub enum ConfigOutcome {
    Run(Config),
    Help,
    MissingValue(Seq<char>),
    NotANumber(Seq<char>),
    UnknownScenario,
    UnknownArgument(Seq<char>),
}

pub open spec fn outcome_of(result: Result<Command, ConfigError>) -> ConfigOutcome {
    match result {
        Ok(Command::Run(c)) => ConfigOutcome::Run(c),
        Ok(Command::Help) => ConfigOutcome::Help,
        Err(ConfigError::MissingValue(n)) => ConfigOutcome::MissingValue(n@),
        Err(ConfigError::NotANumber(n)) => ConfigOutcome::NotANumber(n@),
        Err(ConfigError::UnknownScenario) => ConfigOutcome::UnknownScenario,
        Err(ConfigError::UnknownArgument(a)) => ConfigOutcome::UnknownArgument(a@),
    }
}

/// The outcome of reading `args` on top of `config`.
pub open spec fn config_outcome(args: Seq<Seq<char>>, config: Config) -> ConfigOutcome
    decreases args.len(),
{
    if args.len() == 0 {
        ConfigOutcome::Run(config)
    } else {
        let a = args[0];
        let rest = args.drop_first();
        if a == "--scenario"@ {
            if rest.len() == 0 {
                ConfigOutcome::MissingValue("--scenario"@)
            } else {
                match scenario_named(rest[0]) {
                    Some(s) => config_outcome(rest.drop_first(), Config { scenario: s, ..config }),
                    None => ConfigOutcome::UnknownScenario,
                }
            }
        } else if a == "--focus-delay-seconds"@ {
            if rest.len() == 0 {
                ConfigOutcome::MissingValue("--focus-delay-seconds"@)
            } else {
                match parsed_u64(rest[0]) {
                    Some(n) => config_outcome(rest.drop_first(), Config { focus_delay_seconds: n, ..config }),
                    None => ConfigOutcome::NotANumber("--focus-delay-seconds"@),
                }
            }
        } else if a == "--step-delay-ms"@ {
            if rest.len() == 0 {
                ConfigOutcome::MissingValue("--step-delay-ms"@)
            } else {
                match parsed_u64(rest[0]) {
                    Some(n) => config_outcome(rest.drop_first(), Config { step_delay_ms: n, ..config }),
                    None => ConfigOutcome::NotANumber("--step-delay-ms"@),
                }
            }
        } else if a == "--dry-run"@ {
            config_outcome(rest, Config { dry_run: true, ..config })
        } else if a == "--self-test"@ {
            config_outcome(rest, Config { self_test: true, ..config })
        } else if a == "--help"@ || a == "-h"@ {
            ConfigOutcome::Help
        } else {
            ConfigOutcome::UnknownArgument(a)
        }
    }
}

/// The settings a run starts from.
pub open spec fn default_config() -> Config {
    Config {
        scenario: Scenario::Unicode,
        focus_delay_seconds: 5,
        step_delay_ms: 1200,
        dry_run: false,
        self_test: false,
    }
}

pub open spec fn argument_views(arguments: Seq<String>) -> Seq<Seq<char>> {
    arguments.map_values(|a: String| a@)
}

/// Reads the command line (without the program name): `--scenario <name>`,
/// `--focus-delay-seconds <s>`, `--step-delay-ms <ms>`, `--dry-run`,
/// `--self-test`, `--help` or `-h`; later options override earlier ones,
/// and help stops reading.
pub fn parse_config(arguments: &Vec<String>) -> (command: Result<Command, ConfigError>)
    ensures
        outcome_of(command) == config_outcome(argument_views(arguments@), default_config()),
{
    let mut config = Config {
        scenario: Scenario::Unicode,
        focus_delay_seconds: 5,
        step_delay_ms: 1200,
        dry_run: false,
        self_test: false,
    };
    let ghost all = argument_views(arguments@);
    let mut index: usize = 0;
    proof {
        assert(all.skip(0) =~= all);
    }
    while index < arguments.len()
        invariant
            all == argument_views(arguments@),
            index <= arguments@.len(),
            config_outcome(all, default_config()) == config_outcome(all.skip(index as int), config),
        decreases arguments.len() - index,
    {
        let ghost rest = all.skip(index as int);
        let argument = arguments[index].as_str();
        assert(rest[0] == argument@);
        assert(rest.drop_first() =~= all.skip(index + 1));
        index += 1;
        if str_equal(argument, "--scenario") {
            if index >= arguments.len() {
                return Err(ConfigError::MissingValue("--scenario".to_owned()));
            }
            let value = arguments[index].as_str();
            assert(all.skip(index as int)[0] == value@);
            assert(all.skip(index as int).drop_first() =~= all.skip(index + 1));
            index += 1;
            config.scenario = match Scenario::parse(value) {
                Some(s) => s,
                None => return Err(ConfigError::UnknownScenario),
            };
        } else if str_equal(argument, "--focus-delay-seconds") {
            if index >= arguments.len() {
                return Err(ConfigError::MissingValue("--focus-delay-seconds".to_owned()));
            }
            let value = arguments[index].clone();
            assert(all.skip(index as int)[0] == value@);
            assert(all.skip(index as int).drop_first() =~= all.skip(index + 1));
            index += 1;
            config.focus_delay_seconds = parse_number("--focus-delay-seconds", Some(value))?;
        } else if str_equal(argument, "--step-delay-ms") {
            if index >= arguments.len() {
                return Err(ConfigError::MissingValue("--step-delay-ms".to_owned()));
            }
            let value = arguments[index].clone();
            assert(all.skip(index as int)[0] == value@);
            assert(all.skip(index as int).drop_first() =~= all.skip(index + 1));
            index += 1;
            config.step_delay_ms = parse_number("--step-delay-ms", Some(value))?;
        } else if str_equal(argument, "--dry-run") {
            config.dry_run = true;
        } else if str_equal(argument, "--self-test") {
            config.self_test = true;
        } else if str_equal(argument, "--help") || str_equal(argument, "-h") {
            return Ok(Command::Help);
        } else {
            return Err(ConfigError::UnknownArgument(argument.to_owned()));
        }
    }
    proof {
        assert(all.skip(index as int) =~= Seq::<Seq<char>>::empty());
    }
    Ok(Command::Run(config))
}

/// Line breaks as one `\n` each: `\r\n` and a lone `\r` become `\n`.
pub open spec fn normalized(text: Seq<char>) -> Seq<char>
    decreases text.len(),
{
    if text.len() == 0 {
        Seq::empty()
    } else if text[0] == '\r' && text.len() > 1 && text[1] == '\n' {
        seq!['\n'] + normalized(text.skip(2))
    } else if text[0] == '\r' {
        seq!['\n'] + normalized(text.skip(1))
    } else {
        seq![text[0]] + normalized(text.skip(1))
    }
}

/// The text of the test editor with Windows line breaks made `\n`.
pub fn normalize_newlines(value: &str) -> (text: String)
    ensures
        text@ == normalized(value@),
{
    let chars = chars_of(value);
    let mut out: Vec<char> = Vec::new();
    let mut index: usize = 0;
    proof {
        assert(chars@.skip(0) =~= chars@);
    }
    while index < chars.len()
        invariant
            chars@ == value@,
            index <= chars@.len(),
            out@ + normalized(chars@.skip(index as int)) == normalized(chars@),
        decreases chars.len() - index,
    {
        let ghost rest = chars@.skip(index as int);
        let ghost before = out@;
        let c = chars[index];
        assert(rest[0] == c);
        if c == '\r' && index + 1 < chars.len() && chars[index + 1] == '\n' {
            out.push('\n');
            proof {
                assert(rest[1] == chars@[index + 1]);
                assert(rest.skip(2) =~= chars@.skip(index + 2));
                assert(before + normalized(rest) =~= out@ + normalized(chars@.skip(index + 2)));
            }
            index += 2;
        } else {
            if c == '\r' {
                out.push('\n');
            } else {
                out.push(c);
            }
            proof {
                assert(rest.skip(1) =~= chars@.skip(index + 1));
                assert(before + normalized(rest) =~= out@ + normalized(chars@.skip(index + 1)));
            }
            index += 1;
        }
    }
    proof {
        assert(chars@.skip(chars@.len() as int) =~= Seq::<char>::empty());
        assert(out@ + normalized(Seq::<char>::empty()) =~= out@);
    }
    string_from_chars(out.as_slice())
}

} // verus!
