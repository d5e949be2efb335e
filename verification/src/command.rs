//! A command spelled out: the program to run, its arguments and the
//! directory to run it in.

use crate::text::lines_of;
use vstd::prelude::*;
use vstd::string::*;

verus! {

/// A command as the host needs it to spawn a process.
#[derive(Clone, Debug)]
pub struct CommandSpec {
    /// The program to run.
    pub program: String,
    /// Its arguments, in order.
    pub args: Vec<String>,
    /// The directory to run it in; `None` for the host's own.
    pub working_dir: Option<String>,
}

/// What a `CommandSpec` holds.
pub struct CommandView {
    pub program: Seq<char>,
    pub args: Seq<Seq<char>>,
    pub working_dir: Option<Seq<char>>,
}

impl View for CommandSpec {
    type V = CommandView;

    open spec fn view(&self) -> CommandView {
        CommandView {
            program: self.program@,
            args: lines_of(self.args@),
            working_dir: match self.working_dir {
                Some(dir) => Some(dir@),
                None => None,
            },
        }
    }
}

/// What the standard `Debug` formatting writes for a piece of text: the text
/// between double quotes, with the characters that need it escaped.
pub uninterp spec fn debug_text(text: Seq<char>) -> Seq<char>;

/// Pieces of text in a row, each with a space before it.
pub open spec fn spaced(parts: Seq<Seq<char>>) -> Seq<char>
    decreases parts.len(),
{
    if parts.len() == 0 {
        Seq::empty()
    } else {
        spaced(parts.drop_last()) + " "@ + parts.last()
    }
}

/// Each text of a list as the standard `Debug` formatting writes it.
pub open spec fn quoted_all(texts: Seq<Seq<char>>) -> Seq<Seq<char>> {
    texts.map_values(|text: Seq<char>| debug_text(text))
}

/// A command as it is logged: the program, then each argument, all formatted
/// for debugging and separated by single spaces.
pub open spec fn command_line(command: CommandView) -> Seq<char> {
    debug_text(command.program) + spaced(quoted_all(command.args))
}

/// Formats `text` with `str`'s implementation of `std::fmt::Debug`. What it
/// writes depends on the characters of `text` alone; nothing more is claimed
/// of it.
#[verifier::external_body]
fn debug_quoted(text: &str) -> (out: String)
    ensures
        out@ == debug_text(text@),
{
    format!("{:?}", text)
}

/// Puts `rest` after `first`, each piece with a space before it.
pub fn join_spaced(first: &str, rest: &Vec<String>) -> (line: String)
    ensures
        line@ == first@ + spaced(lines_of(rest@)),
{
    let mut line = String::from_str(first);
    let mut i: usize = 0;
    assert(lines_of(rest@).subrange(0, 0) =~= Seq::<Seq<char>>::empty());
    assert(line@ =~= first@ + spaced(lines_of(rest@).subrange(0, 0)));
    while i < rest.len()
        invariant
            i <= rest@.len(),
            line@ == first@ + spaced(lines_of(rest@).subrange(0, i as int)),
        decreases rest@.len() - i,
    {
        let ghost before = lines_of(rest@).subrange(0, i as int);
        let ghost after = lines_of(rest@).subrange(0, i + 1);
        line.append(" ");
        line.append(rest[i].as_str());
        proof {
            assert(after.drop_last() =~= before);
            assert(after.last() == rest@[i as int]@);
            assert(line@ =~= first@ + spaced(after));
        }
        i += 1;
    }
    assert(lines_of(rest@).subrange(0, i as int) =~= lines_of(rest@));
    line
}

impl CommandSpec {
    /// The command as it is logged before it is run: its program and its
    /// arguments, each formatted for debugging, joined by `join_spaced`.
    pub fn line(&self) -> (line: String)
        ensures
            line@ == command_line(self@),
    {
        let program = debug_quoted(self.program.as_str());
        let mut quoted: Vec<String> = Vec::new();
        let mut i: usize = 0;
        while i < self.args.len()
            invariant
                i <= self.args@.len(),
                lines_of(quoted@) =~= quoted_all(lines_of(self.args@)).subrange(0, i as int),
            decreases self.args@.len() - i,
        {
            let ghost before = lines_of(quoted@);
            let piece = debug_quoted(self.args[i].as_str());
            quoted.push(piece);
            assert(lines_of(quoted@) =~= before.push(debug_text(self.args@[i as int]@)));
            i += 1;
        }
        assert(quoted_all(lines_of(self.args@)).subrange(0, i as int) =~= quoted_all(
            lines_of(self.args@),
        ));
        join_spaced(program.as_str(), &quoted)
    }
}

} // verus!
