//! Choosing the editor that opens the file.

use vstd::prelude::*;
use vstd::string::*;

verus! {

/// The editor used when neither the command line nor the environment names
/// one.
pub const DEFAULT_EDITOR: &'static str = "/usr/bin/nano";

/// The environment variable that names the preferred editor.
pub const EDITOR_VARIABLE: &'static str = "EDITOR";

/// Whether an optional text is present and not empty.
pub open spec fn usable(choice: Option<Seq<char>>) -> bool {
    choice matches Some(text) && text.len() > 0
}

/// The editor to run: the one given on the command line if usable, else the
/// one the environment names if usable, else the default.
pub open spec fn resolved_editor(explicit: Option<Seq<char>>, env: Option<Seq<char>>) -> Seq<
    char,
> {
    if usable(explicit) {
        explicit->0
    } else if usable(env) {
        env->0
    } else {
        DEFAULT_EDITOR@
    }
}

/// Whether the environment has to be consulted to resolve the editor.
pub open spec fn needs_environment(explicit: Option<Seq<char>>) -> bool {
    !usable(explicit)
}

/// Tells whether an optional text is present and not empty.
pub fn is_usable(choice: &Option<String>) -> (yes: bool)
    ensures
        yes == usable(choice.deep_view()),
{
    match choice {
        Some(text) => !text.as_str().is_empty(),
        None => false,
    }
}

/// Resolves the editor from the command-line argument `arg` and the value
/// `env` of the editor variable in the environment (`None` when it is unset).
pub fn get_editor(arg: Option<String>, env: Option<String>) -> (editor: String)
    ensures
        editor@ == resolved_editor(arg.deep_view(), env.deep_view()),
{
    if is_usable(&arg) {
        arg.unwrap()
    } else if is_usable(&env) {
        env.unwrap()
    } else {
        String::from_str(DEFAULT_EDITOR)
    }
}

/// Precedence of the three sources: a command-line argument, when it is given
/// and not empty, is the editor; without one, the environment's value is the
/// editor when it is not empty; otherwise, for an unset variable and for an
/// empty one alike, the default is.
pub proof fn editor_precedence(explicit: Option<Seq<char>>, env: Option<Seq<char>>)
    requires
        explicit matches Some(text) ==> text.len() > 0,
    ensures
        resolved_editor(explicit, env) == match explicit {
            Some(text) => text,
            None => match env {
                Some(value) => if value.len() > 0 {
                    value
                } else {
                    DEFAULT_EDITOR@
                },
                None => DEFAULT_EDITOR@,
            },
        },
{
}

/// An empty command-line argument counts as none.
pub proof fn empty_editor_argument_is_ignored(env: Option<Seq<char>>)
    ensures
        resolved_editor(Some(Seq::<char>::empty()), env) == resolved_editor(None, env),
{
}

/// The resolved editor is never the empty text.
pub proof fn resolved_editor_is_named(explicit: Option<Seq<char>>, env: Option<Seq<char>>)
    ensures
        resolved_editor(explicit, env).len() > 0,
{
    reveal_strlit("/usr/bin/nano");
}

} // verus!
