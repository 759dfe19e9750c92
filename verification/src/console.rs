use vstd::prelude::*;

verus! {

/// The console word that publishes a file in place of a line.
pub open spec fn file_word() -> Seq<char> {
    seq!['f', 'i', 'l', 'e']
}

/// What a line typed on the console asks for.
#[derive(Clone, Copy, Debug, PartialEq, Eq, Structural)]
pub enum LineCommand {
    /// The line is exactly `file`: publish the contents of the chat's file.
    PublishFile,
    /// Any other line: publish the line itself.
    PublishLine,
}

/// Reads a console line: exactly `file` publishes the file, anything else is published as it is.
pub fn classify_line(line: &str) -> (c: LineCommand)
    ensures
        (c == LineCommand::PublishFile) == (line@ == file_word()),
{
    let typed = String::from_str(line);
    let word = String::from_str("file");
    proof {
        reveal_strlit("file");
        assert(word@ =~= file_word());
    }
    if typed == word {
        LineCommand::PublishFile
    } else {
        LineCommand::PublishLine
    }
}

} // verus!
