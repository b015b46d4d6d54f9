//! How the bot starts: its token, its command prefixes, and the reasons it
//! refuses to start.
use vstd::prelude::*;
use vstd::string::*;

use crate::text::str_equal;

verus! {

/// The environment variable that holds the bot's Discord token.
pub const TOKEN_VARIABLE: &'static str = "DISCORD_TOKEN";

/// The prefix of the bot's text commands.
pub const COMMAND_PREFIX: &'static str = "ht";

/// How long, in seconds, an edited command message is still followed.
pub const EDIT_TRACKING_SECONDS: u64 = 3000;

/// Why the bot does not start.
#[derive(Debug, Clone, PartialEq, Eq)]
pub enum ConfigError {
    /// No environment variable `DISCORD_TOKEN` is set.
    TokenMissing,
}

impl ConfigError {
    /// The text of the error.
    pub fn message(&self) -> (r: &'static str)
        ensures
            r@ == "'DISCORD_TOKEN' was not found"@,
    {
        match self {
            ConfigError::TokenMissing => "'DISCORD_TOKEN' was not found",
        }
    }
}

/// The other prefixes that the bot's text commands may begin with.
pub fn additional_prefixes() -> (r: Vec<&'static str>)
    ensures
        r@.len() == 3,
        r@[0]@ == "hermit"@,
        r@[1]@ == "Ht"@,
        r@[2]@ == "bot"@,
{
    let mut r: Vec<&'static str> = Vec::new();
    r.push("hermit");
    r.push("Ht");
    r.push("bot");
    r
}

/// The kinds of framework errors that the bot tells apart.
#[derive(Debug, Clone, Copy, PartialEq, Eq)]
pub enum FrameworkErrorKind {
    /// Setting up the bot's data failed.
    Setup,
    /// A command returned an error.
    Command,
    /// Any other error of the framework.
    Other,
}

/// What the bot does with a framework error.
#[derive(Debug, Clone, Copy, PartialEq, Eq)]
pub enum ErrorHandling {
    /// Stop: the bot cannot start.
    Abort,
    /// Log the command's error and go on.
    LogCommandError,
    /// Leave it to the framework's own handler.
    DefaultHandler,
}

/// What the bot does with a framework error of the kind `kind`: a failed
/// setup stops it, a command's error is logged, anything else goes to the
/// framework's own handler.
pub fn error_handling(kind: FrameworkErrorKind) -> (r: ErrorHandling)
    ensures
        kind == FrameworkErrorKind::Setup ==> r == ErrorHandling::Abort,
        kind == FrameworkErrorKind::Command ==> r == ErrorHandling::LogCommandError,
        kind == FrameworkErrorKind::Other ==> r == ErrorHandling::DefaultHandler,
{
    match kind {
        FrameworkErrorKind::Setup => ErrorHandling::Abort,
        FrameworkErrorKind::Command => ErrorHandling::LogCommandError,
        FrameworkErrorKind::Other => ErrorHandling::DefaultHandler,
    }
}

/// Whether the variable at `i` of `vars` is the token variable.
pub open spec fn is_token_at(vars: Seq<(String, String)>, i: int) -> bool {
    vars[i].0@ == TOKEN_VARIABLE@
}

/// The token variable is the one whose name is exactly "DISCORD_TOKEN".
pub proof fn lemma_token_variable_is_named_exactly(vars: Seq<(String, String)>, i: int)
    ensures
        is_token_at(vars, i) <==> vars[i].0@ == "DISCORD_TOKEN"@,
{
}

/// The bot's token among the environment variables `vars` (name, value), in
/// the order the environment lists them: the value of the first variable
/// named `DISCORD_TOKEN`; `TokenMissing` when there is none.
pub fn find_token(vars: &Vec<(String, String)>) -> (r: Result<String, ConfigError>)
    ensures
        match r {
            Ok(token) => exists|i: int|
                0 <= i < vars@.len() && is_token_at(vars@, i) && token@ == vars@[i].1@
                    && forall|j: int| 0 <= j < i ==> !is_token_at(vars@, j),
            Err(e) => e == ConfigError::TokenMissing && forall|i: int|
                0 <= i < vars@.len() ==> !is_token_at(vars@, i),
        },
        match r {
            Ok(token) => exists|i: int|
                0 <= i < vars@.len() && vars@[i].0@ == "DISCORD_TOKEN"@ && token@ == vars@[i].1@
                    && forall|j: int| 0 <= j < i ==> vars@[j].0@ != "DISCORD_TOKEN"@,
            Err(_) => forall|i: int| 0 <= i < vars@.len() ==> vars@[i].0@ != "DISCORD_TOKEN"@,
        },
{
    let mut i: usize = 0;
    while i < vars.len()
        invariant
            i <= vars@.len(),
            forall|j: int| 0 <= j < i ==> !is_token_at(vars@, j),
            forall|j: int| 0 <= j < i ==> vars@[j].0@ != "DISCORD_TOKEN"@,
        decreases vars@.len() - i,
    {
        let (name, value) = &vars[i];
        if str_equal(name.as_str(), TOKEN_VARIABLE) {
            let token = value.clone();
            assert(is_token_at(vars@, i as int));
            assert(vars@[i as int].0@ == "DISCORD_TOKEN"@);
            return Ok(token);
        }
        i = i + 1;
    }
    Err(ConfigError::TokenMissing)
}

} // verus!
