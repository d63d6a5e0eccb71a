//! Reading environment variables of the system through PowerShell.
use vstd::prelude::*;
use vstd::utf8::*;

use crate::command::{owned, texts, CommandLine};
use crate::error::AmectError;
use crate::text::{concat3, lemma_trim, trim, trimmed, utf8_error_text, utf8_to_str, white_space};

verus! {

/// The PowerShell expression that prints the environment variable `name`.
pub open spec fn env_var_expression(name: Seq<char>) -> Seq<char> {
    "[System.Environment]::GetEnvironmentVariable('"@ + name + "')"@
}

/// The command that prints the environment variable `name`.
pub fn env_var_command(name: &str) -> (c: CommandLine)
    ensures
        c@ == ("powershell"@, seq!["-NoP"@, "-C"@, env_var_expression(name@)]),
{
    let c = CommandLine {
        program: owned("powershell"),
        args: vec![
            owned("-NoP"),
            owned("-C"),
            concat3("[System.Environment]::GetEnvironmentVariable('", name, "')"),
        ],
    };
    assert(texts(c.args@) =~= seq!["-NoP"@, "-C"@, env_var_expression(name@)]);
    c
}

/// The value in the output of `env_var_command`: the output trimmed, if it
/// is UTF-8; otherwise the text of the UTF-8 error.
pub open spec fn env_var_of(stdout: Seq<u8>) -> Result<Seq<char>, Seq<char>> {
    if valid_utf8(stdout) {
        Ok(trim(decode_utf8(stdout)))
    } else {
        Err(utf8_error_text(stdout))
    }
}

/// The value in the output of `env_var_command`.
pub fn parse_env_var(stdout: &[u8]) -> (r: Result<String, AmectError>)
    ensures
        match r {
            Ok(v) => env_var_of(stdout@) == Ok::<Seq<char>, Seq<char>>(v@),
            Err(e) => e matches AmectError::NotUtf8(m) && env_var_of(stdout@) == Err::<
                Seq<char>,
                Seq<char>,
            >(m@),
        },
{
    match utf8_to_str(stdout) {
        Ok(s) => Ok(trimmed(s)),
        Err(m) => Err(AmectError::NotUtf8(m)),
    }
}

/// A value read from the environment carries no white space at either end,
/// and an output that is not UTF-8 is always refused.
pub proof fn lemma_env_value_trimmed(stdout: Seq<u8>)
    ensures
        env_var_of(stdout) is Err <==> !valid_utf8(stdout),
        env_var_of(stdout) matches Ok(v) ==> (v.len() > 0 ==> !white_space(v[0]) && !white_space(
            v.last(),
        )),
{
    if valid_utf8(stdout) {
        lemma_trim(decode_utf8(stdout));
    }
}

} // verus!
