//! Commands: how they are written down, and what came of them.

use crate::text::decimal;
use crate::text::decimal_denotes;
use crate::text::join;
use crate::text::joined;
use crate::text::joining_splits;
use crate::text::middles_agree;
use crate::text::signed_decimal;
use crate::text::signed_decimal_text;
use crate::text::signed_numbers_have_their_sign;
use crate::text::texts;
use vstd::prelude::*;

verus! {

/// An exit code in words. A command that a signal ended has none.
pub open spec fn exit_code_view(code: Option<i32>) -> Seq<char> {
    match code {
        Some(n) => "Some("@ + signed_decimal(n as int) + ")"@,
        None => "None"@,
    }
}

/// An exit code in words.
pub fn exit_code_text(code: Option<i32>) -> (r: String)
    ensures
        r@ == exit_code_view(code),
{
    match code {
        Some(n) => "Some(".to_owned().concat(signed_decimal_text(n).as_str()).concat(")"),
        None => "None".to_owned(),
    }
}

/// A command as a shell shows it.
pub open spec fn command_view(program: Seq<char>, args: Seq<Seq<char>>) -> Seq<char> {
    "$ "@ + program + " "@ + joined(args, " "@)
}

/// A command as a shell shows it.
pub fn command_text(program: &str, args: &Vec<String>) -> (r: String)
    ensures
        r@ == command_view(program@, texts(args@)),
{
    "$ ".to_owned().concat(program).concat(" ").concat(join(args, " ").as_str())
}

/// What came of a command.
#[derive(Clone, Debug)]
pub enum CommandOutcome {
    /// It could not be launched, and why.
    NotLaunched(String),
    /// It could not be waited for, and why.
    NotAwaited(String),
    /// It ended with success.
    Succeeded,
    /// It ended without success.
    Failed(Option<i32>),
}

/// Why a command counts as failed, where it does.
pub open spec fn complaint_view(program: Seq<char>, outcome: CommandOutcome) -> Option<Seq<char>> {
    match outcome {
        CommandOutcome::NotLaunched(reason) => Some(
            "Failed to run '"@ + program + "': "@ + reason@,
        ),
        CommandOutcome::NotAwaited(reason) => Some(
            "Command '"@ + program + "' wait error: "@ + reason@,
        ),
        CommandOutcome::Succeeded => None,
        CommandOutcome::Failed(code) => Some(
            "Command '"@ + program + "' failed with exit code "@ + exit_code_view(code),
        ),
    }
}

/// Whether a command did its work; the error says why not.
pub fn command_result(program: &str, outcome: &CommandOutcome) -> (r: Result<(), String>)
    ensures
        match r {
            Ok(()) => complaint_view(program@, *outcome) is None,
            Err(complaint) => complaint_view(program@, *outcome) == Some(complaint@),
        },
{
    match outcome {
        CommandOutcome::NotLaunched(reason) => Err(
            "Failed to run '".to_owned().concat(program).concat("': ").concat(reason.as_str()),
        ),
        CommandOutcome::NotAwaited(reason) => Err(
            "Command '".to_owned().concat(program).concat("' wait error: ").concat(
                reason.as_str(),
            ),
        ),
        CommandOutcome::Succeeded => Ok(()),
        CommandOutcome::Failed(code) => Err(
            "Command '".to_owned().concat(program).concat("' failed with exit code ").concat(
                exit_code_text(*code).as_str(),
            ),
        ),
    }
}

/// An exit code is shown as it is, a negative one among them; different codes are
/// shown differently, and a missing code differently from all of them.
pub proof fn exit_codes_are_shown_apart(a: Option<i32>, b: Option<i32>)
    ensures
        a matches Some(n) ==> exit_code_view(a) == "Some("@ + signed_decimal(n as int) + ")"@,
        a is None ==> exit_code_view(a) == "None"@,
        exit_code_view(a) == exit_code_view(b) ==> a == b,
{
    if exit_code_view(a) == exit_code_view(b) {
        reveal_strlit("Some(");
        reveal_strlit("None");
        if a is Some && b is Some {
            let x = a->0 as int;
            let y = b->0 as int;
            middles_agree("Some("@, signed_decimal(x), signed_decimal(y), ")"@);
            signed_numbers_differ(x, y);
        } else if a is Some {
            assert(exit_code_view(a)[0] == "Some("@[0]);
        } else if b is Some {
            assert(exit_code_view(b)[0] == "Some("@[0]);
        }
    }
}

proof fn signed_numbers_differ(x: int, y: int)
    requires
        signed_decimal(x) == signed_decimal(y),
    ensures
        x == y,
{
    signed_numbers_have_their_sign(x);
    signed_numbers_have_their_sign(y);
    if x >= 0 {
        decimal_denotes(x as nat);
        assert('0' <= decimal(x as nat)[0]);
    }
    if y >= 0 {
        decimal_denotes(y as nat);
        assert('0' <= decimal(y as nat)[0]);
    }
}

/// A command is shown with its program and with every argument, the program
/// first, all as they are and separated by spaces.
pub proof fn commands_show_their_arguments(program: Seq<char>, args: Seq<Seq<char>>, arg: Seq<char>)
    ensures
        command_view(program, seq![arg]) == "$ "@ + program + " "@ + arg,
        args.len() > 0 ==> command_view(program, args.push(arg)) == command_view(program, args)
            + " "@ + arg,
        args.len() == 0 ==> command_view(program, args) == "$ "@ + program + " "@,
{
    assert(joined(seq![arg], " "@) == arg);
    if args.len() > 0 {
        joining_splits(args, seq![arg], " "@);
        assert(args + seq![arg] =~= args.push(arg));
        assert(command_view(program, args.push(arg)) =~= command_view(program, args) + " "@ + arg);
    }
}

/// A command counts as failed unless it ended with success; the complaint names
/// the program, and the reason or the exit code.
pub proof fn commands_fail_unless_they_succeed(program: Seq<char>, outcome: CommandOutcome)
    ensures
        complaint_view(program, outcome) is None <==> outcome is Succeeded,
        outcome matches CommandOutcome::NotLaunched(reason) ==> complaint_view(program, outcome)
            == Some("Failed to run '"@ + program + "': "@ + reason@),
        outcome matches CommandOutcome::NotAwaited(reason) ==> complaint_view(program, outcome)
            == Some("Command '"@ + program + "' wait error: "@ + reason@),
        outcome matches CommandOutcome::Failed(code) ==> complaint_view(program, outcome) == Some(
            "Command '"@ + program + "' failed with exit code "@ + exit_code_view(code),
        ),
{
}

} // verus!
