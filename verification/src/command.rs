//! Command lines of the programs that are run.

use crate::text::decimal;
use vstd::prelude::*;

verus! {

/// A program and its arguments.
#[derive(Debug)]
pub struct CommandLine {
    pub program: String,
    pub args: Vec<String>,
}

impl CommandLine {
    /// Whether this is the given program with the given arguments.
    pub open spec fn is(self, program: Seq<char>, args: Seq<Seq<char>>) -> bool {
        &&& self.program@ == program
        &&& self.args.len() == args.len()
        &&& forall|i: int| 0 <= i < args.len() ==> (#[trigger] self.args@[i])@ == args[i]
    }
}

/// The command that starts swayidle with the given configuration file.
pub fn swayidle_command(config_path: &str) -> (command: CommandLine)
    ensures
        command.is("swayidle"@, seq!["-w"@, "-C"@, config_path@]),
{
    let args = vec!["-w".to_string(), "-C".to_string(), config_path.to_string()];
    CommandLine { program: "swayidle".to_string(), args }
}

/// The command that ends every swayidle that runs.
pub fn pkill_command() -> (command: CommandLine)
    ensures
        command.is("pkill"@, seq!["-x"@, "swayidle"@]),
{
    let args = vec!["-x".to_string(), "swayidle".to_string()];
    CommandLine { program: "pkill".to_string(), args }
}

/// The command that keeps the system from idling for the given number of
/// seconds.
pub fn inhibit_command(seconds: u64) -> (command: CommandLine)
    ensures
        command.is(
            "systemd-inhibit"@,
            seq![
                "--what"@,
                "idle"@,
                "--who"@,
                "swayidle-inhibit"@,
                "--why"@,
                "audio playing"@,
                "--mode"@,
                "block"@,
                "sh"@,
                "-c"@,
                "sleep "@ + crate::text::decimal_text(seconds as nat),
            ],
        ),
{
    let sleep = "sleep ".to_string().concat(decimal(seconds).as_str());
    let args = vec![
        "--what".to_string(),
        "idle".to_string(),
        "--who".to_string(),
        "swayidle-inhibit".to_string(),
        "--why".to_string(),
        "audio playing".to_string(),
        "--mode".to_string(),
        "block".to_string(),
        "sh".to_string(),
        "-c".to_string(),
        sleep,
    ];
    CommandLine { program: "systemd-inhibit".to_string(), args }
}

/// Why the system is not kept from idling.
#[derive(Debug)]
pub enum InhibitError {
    /// The command for it could not be started.
    NotStarted,
}

impl InhibitError {
    /// The text that tells the user what went wrong.
    pub fn message(&self) -> (text: String)
        ensures
            text@ == "Unable to block swayidle due to unknown error"@,
    {
        "Unable to block swayidle due to unknown error".to_string()
    }
}

/// A command line is a given one if and only if the program is the same and the
/// arguments are the same, one by one.
pub proof fn law_command_line_is_all_of_it(
    command: CommandLine,
    program: Seq<char>,
    args: Seq<Seq<char>>,
)
    ensures
        command.is(program, args) <==> command.program@ == program && crate::text::texts(
            command.args@,
        ) == args,
{
    if command.is(program, args) {
        assert(crate::text::texts(command.args@) =~= args);
    }
    if crate::text::texts(command.args@) == args {
        assert(forall|i: int| 0 <= i < args.len() ==> (#[trigger] command.args@[i])@ == args[i]);
    }
}

} // verus!
