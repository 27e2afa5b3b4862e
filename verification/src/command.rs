use vstd::prelude::*;
use vstd::string::StringExecFns;

verus! {

/// A program to start, with or without arguments.
pub enum Command<S> {
    Empty,
    Single(S),
    WithArgs(Vec<S>),
}

impl<S> Command<S> {
    /// Whether the command is well formed: a command with arguments names a
    /// program and at least one argument.
    pub open spec fn well_formed(&self) -> bool {
        match self {
            Command::WithArgs(v) => v@.len() >= 2,
            _ => true,
        }
    }

    /// The program to start and its arguments, or nothing for the empty
    /// command.
    pub fn invocation(self) -> (r: Option<(S, Vec<S>)>)
        requires
            self.well_formed(),
        ensures
            match self {
                Command::Empty => r is None,
                Command::Single(program) => r matches Some((p, args)) && p == program && args@.len() == 0,
                Command::WithArgs(v) => r matches Some((p, args)) && p == v@[0] && args@ == v@.drop_first(),
            },
    {
        match self {
            Command::Empty => None,
            Command::Single(program) => Some((program, Vec::new())),
            Command::WithArgs(vec) => {
                let mut args = vec;
                let program = args.remove(0);
                Some((program, args))
            },
        }
    }
}

/// The command line flags that name the client to start.
pub open spec fn is_command_flag(s: Seq<char>) -> bool {
    s == "-c"@ || s == "--command"@
}

/// The client that the compositor starts: the program given with `-c` or
/// `--command` as the first argument after the program name, or kitty.
pub fn client_command(args: &Vec<String>) -> (r: String)
    ensures
        r@ == if args@.len() >= 3 && is_command_flag(args@[1]@) {
            args@[2]@
        } else {
            "kitty"@
        },
{
    if args.len() >= 3 {
        let short = String::from_str("-c");
        let long = String::from_str("--command");
        if args[1] == short || args[1] == long {
            return args[2].clone();
        }
    }
    String::from_str("kitty")
}

} // verus!
