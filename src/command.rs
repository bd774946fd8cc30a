use vstd::prelude::*;

use crate::text::{next_word, word_end, word_from};

verus! {

/// A command typed at the prompt.
pub enum Command {
    /// List the working directory.
    List,
    /// Show the metadata of the named entry.
    Info(String),
    /// Show the list of commands.
    Help,
    /// Leave the loop.
    Quit,
    /// A line that names no command, kept as its first word.
    Unknown(String),
}

/// What a `Command` denotes, with its texts as character sequences.
pub enum CommandModel {
    List,
    Info(Seq<char>),
    Help,
    Quit,
    Unknown(Seq<char>),
}

impl View for Command {
    type V = CommandModel;

    open spec fn view(&self) -> CommandModel {
        match self {
            Command::List => CommandModel::List,
            Command::Info(name) => CommandModel::Info(name@),
            Command::Help => CommandModel::Help,
            Command::Quit => CommandModel::Quit,
            Command::Unknown(word) => CommandModel::Unknown(word@),
        }
    }
}

/// The first word of a line.
pub open spec fn first_word(line: Seq<char>) -> Seq<char> {
    word_from(line, 0)
}

/// The word that follows the first one.
pub open spec fn second_word(line: Seq<char>) -> Seq<char> {
    word_from(line, word_end(line, 0))
}

/// A line whose first word is `info` with no name after it.
pub open spec fn is_bare_info(line: Seq<char>) -> bool {
    first_word(line) == "info"@ && second_word(line).len() == 0
}

/// The command that a line denotes: words are separated by white space,
/// keywords are case-sensitive, and words after those a command reads are
/// ignored.
pub open spec fn parse_model(line: Seq<char>) -> CommandModel {
    let w = first_word(line);
    if w.len() == 0 {
        CommandModel::Unknown(Seq::empty())
    } else if w == "ls"@ || w == "list"@ {
        CommandModel::List
    } else if w == "info"@ {
        if second_word(line).len() == 0 {
            CommandModel::Unknown("info"@)
        } else {
            CommandModel::Info(second_word(line))
        }
    } else if w == "help"@ {
        CommandModel::Help
    } else if w == "quit"@ || w == "exit"@ {
        CommandModel::Quit
    } else {
        CommandModel::Unknown(w)
    }
}

/// Turns one input line into exactly one command; never fails.
pub fn parse_command(input: &str) -> (r: Command)
    ensures
        r@ == parse_model(input@),
{
    let (s0, e0) = next_word(input, 0);
    if s0 == e0 {
        assert(first_word(input@) =~= Seq::<char>::empty());
        return Command::Unknown(String::new());
    }
    let word = input.substring_char(s0, e0).to_owned();
    let (s1, e1) = next_word(input, e0);
    if word == String::from_str("ls") || word == String::from_str("list") {
        Command::List
    } else if word == String::from_str("info") {
        if s1 == e1 {
            assert(second_word(input@) =~= Seq::<char>::empty());
            Command::Unknown(String::from_str("info"))
        } else {
            Command::Info(input.substring_char(s1, e1).to_owned())
        }
    } else if word == String::from_str("help") {
        Command::Help
    } else if word == String::from_str("quit") || word == String::from_str("exit") {
        Command::Quit
    } else {
        Command::Unknown(word)
    }
}

} // verus!
