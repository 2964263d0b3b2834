//! The command line: which subcommand a word names.

use vstd::prelude::*;
use vstd::string::*;

verus! {

/// What the command line asks for.
#[derive(Clone, Debug, PartialEq, Eq)]
pub enum ParsedArgs {
    Help,
    Version,
    Gui { config: String },
    Run { config: String },
    InstallService,
    UninstallService,
    RunService,
}

/// A subcommand, before its options are read.
#[derive(Clone, Copy, Debug, PartialEq, Eq, Structural)]
pub enum Subcommand {
    Gui,
    Run,
    InstallService,
    RunService,
    UninstallService,
}

/// An ASCII capital letter as its small letter; any other character unchanged.
pub open spec fn ascii_lower(c: char) -> char {
    if 'A' <= c && c <= 'Z' {
        ((c as u8 + 32) as u8) as char
    } else {
        c
    }
}

/// A text with its ASCII capital letters made small.
pub open spec fn ascii_lowered(text: Seq<char>) -> Seq<char> {
    text.map_values(|c: char| ascii_lower(c))
}

/// The subcommand that a word names, whatever the case of its ASCII letters.
pub open spec fn subcommand_named(word: Seq<char>) -> Option<Subcommand> {
    let lowered = ascii_lowered(word);
    if lowered == "gui"@ {
        Some(Subcommand::Gui)
    } else if lowered == "run"@ {
        Some(Subcommand::Run)
    } else if lowered == "install-service"@ {
        Some(Subcommand::InstallService)
    } else if lowered == "run-service"@ {
        Some(Subcommand::RunService)
    } else if lowered == "uninstall-service"@ {
        Some(Subcommand::UninstallService)
    } else {
        None
    }
}

/// Calls `str::to_ascii_lowercase`.
///
/// Claimed of it, and not proved: the result has the same characters in the
/// same order, each ASCII capital letter replaced by its small letter.
#[verifier::external_body]
fn lowercase_ascii(word: &str) -> (lowered: String)
    ensures
        lowered@ == ascii_lowered(word@),
{
    word.to_ascii_lowercase()
}

fn same_text(text: &String, literal: &str) -> (same: bool)
    ensures
        same == (text@ == literal@),
{
    let other = String::from_str(literal);
    *text == other
}

/// The subcommand that the first free word of the command line names. The
/// case of ASCII letters does not matter; a word that names none gives the
/// message that says so.
pub fn recognize(word: &str) -> (named: Result<Subcommand, String>)
    ensures
        match named {
            Ok(subcommand) => subcommand_named(word@) == Some(subcommand),
            Err(message) => subcommand_named(word@) is None && message@
                == "unrecognized subcommand: "@ + ascii_lowered(word@),
        },
{
    let lowered = lowercase_ascii(word);
    if same_text(&lowered, "gui") {
        Ok(Subcommand::Gui)
    } else if same_text(&lowered, "run") {
        Ok(Subcommand::Run)
    } else if same_text(&lowered, "install-service") {
        Ok(Subcommand::InstallService)
    } else if same_text(&lowered, "run-service") {
        Ok(Subcommand::RunService)
    } else if same_text(&lowered, "uninstall-service") {
        Ok(Subcommand::UninstallService)
    } else {
        let mut message = String::from_str("unrecognized subcommand: ");
        message.append(lowered.as_str());
        Err(message)
    }
}

/// What the command line selects, before any option of a subcommand is read.
#[derive(Clone, Copy, Debug, PartialEq, Eq, Structural)]
pub enum Selection {
    Help,
    Version,
    Command(Subcommand),
}

/// The word that stands for the subcommand: the first free word, or `gui`
/// where there is none.
pub open spec fn word_or_default(word: Option<String>) -> Seq<char> {
    match word {
        Some(given) => given@,
        None => "gui"@,
    }
}

/// What a command line selects. The help flag wins over everything, the
/// version flag over what is left. Otherwise the first free word names the
/// subcommand, `gui` standing in where there is none; a word that could not
/// be read, or that names no subcommand, is an error.
pub open spec fn selection_of(help: bool, version: bool, word: Result<Option<String>, String>)
    -> Result<Selection, Seq<char>> {
    if help {
        Ok(Selection::Help)
    } else if version {
        Ok(Selection::Version)
    } else {
        match word {
            Err(cause) => Err("unable to extract subcommand: "@ + cause@),
            Ok(given) => match subcommand_named(word_or_default(given)) {
                Some(subcommand) => Ok(Selection::Command(subcommand)),
                None => Err(
                    "unrecognized subcommand: "@ + ascii_lowered(word_or_default(given)),
                ),
            },
        }
    }
}

/// Selects what the command line asks for from its two flags and its first
/// free word, which is given as it was read: the word, none, or why it could
/// not be read.
pub fn select(help: bool, version: bool, word: Result<Option<String>, String>) -> (selected: Result<
    Selection,
    String,
>)
    ensures
        match selected {
            Ok(selection) => selection_of(help, version, word) == Ok::<Selection, Seq<char>>(
                selection,
            ),
            Err(message) => selection_of(help, version, word) == Err::<Selection, Seq<char>>(
                message@,
            ),
        },
{
    if help {
        Ok(Selection::Help)
    } else if version {
        Ok(Selection::Version)
    } else {
        match word {
            Err(cause) => {
                let mut message = String::from_str("unable to extract subcommand: ");
                message.append(cause.as_str());
                Err(message)
            },
            Ok(Some(given)) => match recognize(given.as_str()) {
                Ok(subcommand) => Ok(Selection::Command(subcommand)),
                Err(message) => Err(message),
            },
            Ok(None) => match recognize("gui") {
                Ok(subcommand) => Ok(Selection::Command(subcommand)),
                Err(message) => Err(message),
            },
        }
    }
}

impl Selection {
    /// Whether what is selected reads a configuration file.
    pub fn needs_config(self) -> (needed: bool)
        ensures
            needed == (self == Selection::Command(Subcommand::Gui) || self == Selection::Command(
                Subcommand::Run,
            )),
    {
        match self {
            Selection::Command(subcommand) => subcommand.needs_config(),
            _ => false,
        }
    }

    /// The parsed command line for this selection. The configuration's
    /// location is kept by the subcommands that read one.
    pub fn into_args(self, config: String) -> (args: ParsedArgs)
        ensures
            args == (match self {
                Selection::Help => ParsedArgs::Help,
                Selection::Version => ParsedArgs::Version,
                Selection::Command(Subcommand::Gui) => (ParsedArgs::Gui { config }),
                Selection::Command(Subcommand::Run) => (ParsedArgs::Run { config }),
                Selection::Command(Subcommand::InstallService) => ParsedArgs::InstallService,
                Selection::Command(Subcommand::RunService) => ParsedArgs::RunService,
                Selection::Command(Subcommand::UninstallService) => ParsedArgs::UninstallService,
            }),
    {
        match self {
            Selection::Help => ParsedArgs::Help,
            Selection::Version => ParsedArgs::Version,
            Selection::Command(subcommand) => subcommand.into_args(config),
        }
    }
}

impl Subcommand {
    /// Whether the subcommand reads a configuration file.
    pub fn needs_config(self) -> (needed: bool)
        ensures
            needed == (self == Subcommand::Gui || self == Subcommand::Run),
    {
        match self {
            Subcommand::Gui => true,
            Subcommand::Run => true,
            _ => false,
        }
    }

    /// The parsed command line for this subcommand. The configuration's
    /// location is kept by the subcommands that read one.
    pub fn into_args(self, config: String) -> (args: ParsedArgs)
        ensures
            args == (match self {
                Subcommand::Gui => (ParsedArgs::Gui { config }),
                Subcommand::Run => (ParsedArgs::Run { config }),
                Subcommand::InstallService => ParsedArgs::InstallService,
                Subcommand::RunService => ParsedArgs::RunService,
                Subcommand::UninstallService => ParsedArgs::UninstallService,
            }),
    {
        match self {
            Subcommand::Gui => ParsedArgs::Gui { config },
            Subcommand::Run => ParsedArgs::Run { config },
            Subcommand::InstallService => ParsedArgs::InstallService,
            Subcommand::RunService => ParsedArgs::RunService,
            Subcommand::UninstallService => ParsedArgs::UninstallService,
        }
    }
}

} // verus!
