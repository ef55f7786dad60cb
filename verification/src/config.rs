//! Configuration: from the raw words of the command line and the
//! environment to a validated record.

use crate::options::{
    invalid_output_format_message, invalid_scale_message, output_format_named, scale_named,
    selector_diagnostics_differ, InvalidOutputFormat, InvalidScale, OutputFormat, Scale,
};
use crate::present::{decoding_for, decoding_of, CommandKind, Decoding};
use vstd::prelude::*;
use vstd::string::*;

verus! {

/// The command as given, its selectors not yet read.
#[derive(Clone, Debug, PartialEq, Eq)]
pub enum CommandArguments {
    Search { search_term: String },
    Info {
        /// The scale's name; `None` where none was given.
        scale: Option<String>,
        station_name: String,
    },
}

/// Everything the user gave, not yet validated.
#[derive(Clone, Debug, PartialEq, Eq)]
pub struct Arguments {
    /// The API token given on the command line.
    pub token: Option<String>,
    /// The API token found in the environment.
    pub env_token: Option<String>,
    /// The output format's name; `None` where none was given.
    pub output: Option<String>,
    pub command: CommandArguments,
}

/// A validated command.
#[derive(Clone, Debug, PartialEq, Eq)]
pub enum Command {
    Search { search_term: String },
    Info {
        /// Read and checked, and applied to nothing yet.
        scale: Scale,
        station_name: String,
    },
}

/// A validated configuration.
#[derive(Clone, Debug, PartialEq, Eq)]
pub struct Config {
    pub api_token: String,
    pub output: OutputFormat,
    pub command: Command,
}

/// Why no configuration could be made.
#[derive(Clone, Copy, Debug, PartialEq, Eq, Structural)]
pub enum ConfigError {
    /// The output format's name is not one of the known names.
    InvalidOutputFormat,
    /// The scale's name is not one of the known names.
    InvalidScale,
    /// No API token, neither on the command line nor in the environment.
    MissingToken,
}

/// What a [`CommandArguments`] holds.
pub enum CommandArgumentsView {
    Search { search_term: Seq<char> },
    Info { scale: Option<Seq<char>>, station_name: Seq<char> },
}

/// What an [`Arguments`] holds.
pub struct ArgumentsView {
    pub token: Option<Seq<char>>,
    pub env_token: Option<Seq<char>>,
    pub output: Option<Seq<char>>,
    pub command: CommandArgumentsView,
}

/// What a [`Command`] holds.
pub enum CommandView {
    Search { search_term: Seq<char> },
    Info { scale: Scale, station_name: Seq<char> },
}

/// What a [`Config`] holds.
pub struct ConfigView {
    pub api_token: Seq<char>,
    pub output: OutputFormat,
    pub command: CommandView,
}

/// The characters of an optional text.
pub open spec fn optional_text(text: Option<String>) -> Option<Seq<char>> {
    match text {
        Some(t) => Some(t@),
        None => None,
    }
}

impl View for CommandArguments {
    type V = CommandArgumentsView;

    open spec fn view(&self) -> CommandArgumentsView {
        match self {
            CommandArguments::Search { search_term } => CommandArgumentsView::Search {
                search_term: search_term@,
            },
            CommandArguments::Info { scale, station_name } => CommandArgumentsView::Info {
                scale: optional_text(*scale),
                station_name: station_name@,
            },
        }
    }
}

impl View for Arguments {
    type V = ArgumentsView;

    open spec fn view(&self) -> ArgumentsView {
        ArgumentsView {
            token: optional_text(self.token),
            env_token: optional_text(self.env_token),
            output: optional_text(self.output),
            command: self.command@,
        }
    }
}

impl View for Command {
    type V = CommandView;

    open spec fn view(&self) -> CommandView {
        match self {
            Command::Search { search_term } => CommandView::Search { search_term: search_term@ },
            Command::Info { scale, station_name } => CommandView::Info {
                scale: *scale,
                station_name: station_name@,
            },
        }
    }
}

impl View for Config {
    type V = ConfigView;

    open spec fn view(&self) -> ConfigView {
        ConfigView { api_token: self.api_token@, output: self.output, command: self.command@ }
    }
}

impl CommandView {
    /// Which of the two commands this is.
    pub open spec fn kind(self) -> CommandKind {
        match self {
            CommandView::Search { .. } => CommandKind::Search,
            CommandView::Info { .. } => CommandKind::Info,
        }
    }
}

/// The output format that was asked for: human-readable where none was
/// named, nothing where the name is unknown.
pub open spec fn chosen_output(output: Option<Seq<char>>) -> Option<OutputFormat> {
    match output {
        Some(name) => output_format_named(name),
        None => Some(OutputFormat::Human),
    }
}

/// The scale that was asked for: Fahrenheit where none was named, nothing
/// where the name is unknown.
pub open spec fn chosen_scale(scale: Option<Seq<char>>) -> Option<Scale> {
    match scale {
        Some(name) => scale_named(name),
        None => Some(Scale::Fahrenheit),
    }
}

/// The API token: the one of the command line where there is one, else
/// the one of the environment.
pub open spec fn chosen_token(token: Option<Seq<char>>, env_token: Option<Seq<char>>) -> Option<
    Seq<char>,
> {
    match token {
        Some(t) => Some(t),
        None => env_token,
    }
}

/// The command with its scale read, or nothing where the scale's name is
/// unknown.
pub open spec fn chosen_command(command: CommandArgumentsView) -> Option<CommandView> {
    match command {
        CommandArgumentsView::Search { search_term } => Some(CommandView::Search { search_term }),
        CommandArgumentsView::Info { scale, station_name } => match chosen_scale(scale) {
            Some(scale) => Some(CommandView::Info { scale, station_name }),
            None => None,
        },
    }
}

/// The configuration that the arguments make, or the first thing wrong
/// with them: the output format is looked at first, then the scale, then
/// the token.
pub open spec fn resolution(args: ArgumentsView) -> Result<ConfigView, ConfigError> {
    match chosen_output(args.output) {
        None => Err(ConfigError::InvalidOutputFormat),
        Some(output) => match chosen_command(args.command) {
            None => Err(ConfigError::InvalidScale),
            Some(command) => match chosen_token(args.token, args.env_token) {
                None => Err(ConfigError::MissingToken),
                Some(api_token) => Ok(ConfigView { api_token, output, command }),
            },
        },
    }
}

/// What a [`ConfigError`] says.
pub open spec fn config_error_message(error: ConfigError) -> Seq<char> {
    match error {
        ConfigError::InvalidOutputFormat => invalid_output_format_message(),
        ConfigError::InvalidScale => invalid_scale_message(),
        ConfigError::MissingToken => "missing API token"@,
    }
}

impl ConfigError {
    /// The diagnostic for this error.
    pub fn to_string(&self) -> (message: String)
        ensures
            message@ == config_error_message(*self),
    {
        match self {
            ConfigError::InvalidOutputFormat => InvalidOutputFormat.to_string(),
            ConfigError::InvalidScale => InvalidScale.to_string(),
            ConfigError::MissingToken => String::from_str("missing API token"),
        }
    }
}

fn resolve_output(output: Option<String>) -> (format: Result<OutputFormat, ConfigError>)
    ensures
        match format {
            Ok(f) => chosen_output(optional_text(output)) == Some(f),
            Err(e) => e == ConfigError::InvalidOutputFormat && chosen_output(
                optional_text(output),
            ) is None,
        },
{
    match output {
        None => Ok(OutputFormat::default()),
        Some(name) => match OutputFormat::from_str(name.as_str()) {
            Ok(format) => Ok(format),
            Err(_) => Err(ConfigError::InvalidOutputFormat),
        },
    }
}

fn resolve_command(command: CommandArguments) -> (resolved: Result<Command, ConfigError>)
    ensures
        match resolved {
            Ok(c) => chosen_command(command@) == Some(c@),
            Err(e) => e == ConfigError::InvalidScale && chosen_command(command@) is None,
        },
{
    match command {
        CommandArguments::Search { search_term } => Ok(Command::Search { search_term }),
        CommandArguments::Info { scale, station_name } => {
            let scale = match scale {
                None => Scale::default(),
                Some(name) => match Scale::from_str(name.as_str()) {
                    Ok(scale) => scale,
                    Err(_) => {
                        return Err(ConfigError::InvalidScale);
                    },
                },
            };
            Ok(Command::Info { scale, station_name })
        },
    }
}

/// Validates the arguments.
///
/// Succeeds exactly when the output format and the scale, where given,
/// are known names and there is a token; otherwise says what is wrong
/// first.
pub fn resolve(args: Arguments) -> (config: Result<Config, ConfigError>)
    ensures
        match config {
            Ok(c) => resolution(args@) == Ok::<ConfigView, ConfigError>(c@),
            Err(e) => resolution(args@) == Err::<ConfigView, ConfigError>(e),
        },
{
    let Arguments { token, env_token, output, command } = args;
    let output = match resolve_output(output) {
        Ok(output) => output,
        Err(e) => {
            return Err(e);
        },
    };
    let command = match resolve_command(command) {
        Ok(command) => command,
        Err(e) => {
            return Err(e);
        },
    };
    let api_token = match token {
        Some(t) => t,
        None => match env_token {
            Some(t) => t,
            None => {
                return Err(ConfigError::MissingToken);
            },
        },
    };
    Ok(Config { api_token, output, command })
}

impl Command {
    /// Which of the two commands this is.
    pub fn kind(&self) -> (kind: CommandKind)
        ensures
            kind == self@.kind(),
    {
        match self {
            Command::Search { .. } => CommandKind::Search,
            Command::Info { .. } => CommandKind::Info,
        }
    }
}

impl Config {
    /// The shape in which to decode the answer.
    pub fn decoding(&self) -> (shape: Decoding)
        ensures
            shape == decoding_of(self@.command.kind(), self@.output),
    {
        decoding_for(self.command.kind(), self.output)
    }
}

/// Without a token there is no configuration, whatever else was given.
pub proof fn no_token_no_config(args: ArgumentsView)
    requires
        args.token is None,
        args.env_token is None,
    ensures
        resolution(args) is Err,
{
}

/// An output format with an unknown name is refused as such, whatever else
/// was given, and its diagnostic is not that of a scale with an unknown
/// name.
pub proof fn unknown_output_format_is_refused(args: ArgumentsView)
    requires
        args.output matches Some(name) && output_format_named(name) is None,
    ensures
        resolution(args) == Err::<ConfigView, ConfigError>(ConfigError::InvalidOutputFormat),
        config_error_message(ConfigError::InvalidOutputFormat) != config_error_message(
            ConfigError::InvalidScale,
        ),
{
    selector_diagnostics_differ();
}

} // verus!
