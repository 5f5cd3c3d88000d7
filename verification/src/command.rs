//! The invocation request: what the command line asks for, and the defaults
//! that stand in for what it leaves out.

use vstd::prelude::*;
use vstd::string::*;
use crate::editor::DEFAULT_EDITOR;
use crate::text::{join, same_text};

verus! {

/// The file that `edit` opens when none is named.
pub const DEFAULT_FILE: &'static str = "/etc/default/grub";

/// The file that the generator writes when none is named.
pub const DEFAULT_OUTPUT: &'static str = "/boot/grub/grub.cfg";

/// Escape sequence that opens the highlighted part of a help text.
pub const RED: &'static str = "\x1b[31";

/// Escape sequence that closes the highlighted part of a help text.
pub const RESET: &'static str = "\x1b[0m";

/// The selected action with its options, as given on the command line.
#[derive(Debug, PartialEq, Eq)]
pub enum GCommand {
    /// Open a file in an editor, then regenerate the boot configuration
    /// unless told not to.
    Edit {
        /// Do not regenerate after editing.
        no_generate: bool,
        /// The file to edit.
        file: Option<String>,
        /// Where the generated configuration goes.
        output: Option<String>,
        /// The editor to run.
        editor: Option<String>,
    },
    /// Regenerate the boot configuration only.
    Generate {
        /// Where the generated configuration goes.
        output: Option<String>,
    },
}

/// The mathematical content of a [`GCommand`]: the same request over
/// sequences of characters.
pub enum SpecCommand {
    Edit {
        no_generate: bool,
        file: Option<Seq<char>>,
        output: Option<Seq<char>>,
        editor: Option<Seq<char>>,
    },
    Generate { output: Option<Seq<char>> },
}

impl View for GCommand {
    type V = SpecCommand;

    open spec fn view(&self) -> SpecCommand {
        match self {
            GCommand::Edit { no_generate, file, output, editor } => SpecCommand::Edit {
                no_generate: *no_generate,
                file: file.deep_view(),
                output: output.deep_view(),
                editor: editor.deep_view(),
            },
            GCommand::Generate { output } => SpecCommand::Generate { output: output.deep_view() },
        }
    }
}

/// The path that is meant: the one given, else `default`.
pub open spec fn or_default(given: Option<Seq<char>>, default: Seq<char>) -> Seq<char> {
    match given {
        Some(path) => path,
        None => default,
    }
}

/// The file that `edit` opens.
pub open spec fn resolved_file(file: Option<Seq<char>>) -> Seq<char> {
    or_default(file, DEFAULT_FILE@)
}

/// The file that the generator writes.
pub open spec fn resolved_output(output: Option<Seq<char>>) -> Seq<char> {
    or_default(output, DEFAULT_OUTPUT@)
}

/// Resolves the file to edit: the one named, else the GRUB defaults file.
pub fn edited_file(file: Option<String>) -> (path: String)
    ensures
        path@ == resolved_file(file.deep_view()),
{
    match file {
        Some(path) => path,
        None => String::from_str(DEFAULT_FILE),
    }
}

/// Resolves the file to generate: the one named, else the GRUB configuration
/// under `/boot`.
pub fn output_file(output: Option<String>) -> (path: String)
    ensures
        path@ == resolved_output(output.deep_view()),
{
    match output {
        Some(path) => path,
        None => String::from_str(DEFAULT_OUTPUT),
    }
}

/// The help text of `--no-generate`.
pub const HELP_NO_GENERATE: &'static str = "Do NOT generate a grub configuration after editing";

/// The help text of `--file`, up to the default that it names.
pub const HELP_FILE: &'static str =
    "The file to edit. Note that this does NOT affect generation.\ndefault: ";

/// The help text of `--output`, up to the default that it names.
pub const HELP_OUTPUT: &'static str = "The path to output the generated config to\ndefault: ";

/// The help text of `--editor`, up to the highlighted warning.
pub const HELP_EDITOR: &'static str = "The edtor to use. ";

/// The warning in the help text of `--editor`.
pub const HELP_EDITOR_WARNING: &'static str =
    "WARNING: the editor you specify will be run as root, meaning it is granted full access to your system.";

/// The end of the help text of `--editor`, up to the default that it names.
pub const HELP_EDITOR_PRIORITY: &'static str =
    "\nPriority for detecting editor: This argument <- EDITOR variable <- default of ";

/// The help text of anything that is no option of `edit`.
pub const HELP_UNKNOWN: &'static str = "Unknown help!";

/// The help text of the option called `arg`. The texts of the options that
/// have a default name it.
pub open spec fn help_text(arg: Seq<char>) -> Seq<char> {
    if arg == "no_generate"@ {
        HELP_NO_GENERATE@
    } else if arg == "file"@ {
        HELP_FILE@ + DEFAULT_FILE@
    } else if arg == "output"@ {
        HELP_OUTPUT@ + DEFAULT_OUTPUT@
    } else if arg == "editor"@ {
        HELP_EDITOR@ + RED@ + HELP_EDITOR_WARNING@ + RESET@ + HELP_EDITOR_PRIORITY@
            + DEFAULT_EDITOR@
    } else {
        HELP_UNKNOWN@
    }
}

/// Gives the help text of an option of `edit`, by the option's name:
/// `no_generate`, `file`, `output` or `editor`.
pub fn help(arg: &str) -> (text: String)
    ensures
        text@ == help_text(arg@),
{
    if same_text(arg, "no_generate") {
        String::from_str(HELP_NO_GENERATE)
    } else if same_text(arg, "file") {
        join(HELP_FILE, DEFAULT_FILE)
    } else if same_text(arg, "output") {
        join(HELP_OUTPUT, DEFAULT_OUTPUT)
    } else if same_text(arg, "editor") {
        let mut text = String::from_str(HELP_EDITOR);
        text.append(RED);
        text.append(HELP_EDITOR_WARNING);
        text.append(RESET);
        text.append(HELP_EDITOR_PRIORITY);
        text.append(DEFAULT_EDITOR);
        text
    } else {
        String::from_str(HELP_UNKNOWN)
    }
}

} // verus!
