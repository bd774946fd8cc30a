use vstd::prelude::*;

use crate::command::{is_bare_info, parse_command, parse_model, Command, CommandModel};
use crate::inspect::{info_report, Metadata, ACCESS_FAILURE};
use crate::text::{joined, texts};

verus! {

pub const FAREWELL: &'static str = "Au revoir!";

pub const USAGE: &'static str = "Usage: info <nom_fichier>";

pub const UNKNOWN_OPEN: &'static str = "Commande inconnue: '";

pub const UNKNOWN_CLOSE: &'static str = "'. Tapez 'help' pour de l'aide.";

pub const HELP_TITLE: &'static str = "Commandes disponibles:";

pub const HELP_LIST: &'static str = "  ls, list    - Liste les fichiers du répertoire courant";

pub const HELP_INFO: &'static str = "  info <file> - Affiche des informations détaillées sur un fichier";

pub const HELP_HELP: &'static str = "  help        - Affiche cette aide";

pub const HELP_QUIT: &'static str = "  quit, exit  - Quitte le programme";

/// What the loop does next, once a line has been read.
pub enum Action {
    /// Enumerate the working directory and show its listing.
    ListEntries,
    /// Look up the named entry and show its report.
    Inspect(String),
    /// Show these lines, then prompt again.
    Show(Vec<String>),
    /// Show these lines, then leave the loop.
    Stop(Vec<String>),
}

pub enum ActionModel {
    ListEntries,
    Inspect(Seq<char>),
    Show(Seq<Seq<char>>),
    Stop(Seq<Seq<char>>),
}

impl View for Action {
    type V = ActionModel;

    open spec fn view(&self) -> ActionModel {
        match self {
            Action::ListEntries => ActionModel::ListEntries,
            Action::Inspect(name) => ActionModel::Inspect(name@),
            Action::Show(lines) => ActionModel::Show(texts(lines@)),
            Action::Stop(lines) => ActionModel::Stop(texts(lines@)),
        }
    }
}

/// The text of the help command.
pub open spec fn help_model() -> Seq<Seq<char>> {
    seq![HELP_TITLE@, HELP_LIST@, HELP_INFO@, HELP_HELP@, HELP_QUIT@]
}

/// What the loop does with one line: the matching handler, a guidance
/// message for a line that names no command (preceded by the usage of
/// `info` when its name is missing), or the farewell for `quit`.
pub open spec fn step_model(line: Seq<char>) -> ActionModel {
    match parse_model(line) {
        CommandModel::List => ActionModel::ListEntries,
        CommandModel::Info(name) => ActionModel::Inspect(name),
        CommandModel::Help => ActionModel::Show(help_model()),
        CommandModel::Quit => ActionModel::Stop(seq![FAREWELL@]),
        CommandModel::Unknown(word) => ActionModel::Show(
            (if is_bare_info(line) {
                seq![USAGE@]
            } else {
                seq![]
            }) + seq![UNKNOWN_OPEN@ + word + UNKNOWN_CLOSE@],
        ),
    }
}

/// Whether the loop goes on after this line.
pub open spec fn keeps_running(line: Seq<char>) -> bool {
    !(parse_model(line) is Quit)
}

/// Whether a session that has read these lines, from its start, still runs.
pub open spec fn running_after(lines: Seq<Seq<char>>) -> bool
    decreases lines.len(),
{
    if lines.len() == 0 {
        true
    } else {
        running_after(lines.drop_last()) && keeps_running(lines.last())
    }
}

/// The state of the command loop: it runs until a line asks it to stop.
pub struct Explorer {
    running: bool,
}

impl Explorer {
    pub closed spec fn spec_running(&self) -> bool {
        self.running
    }

    /// A loop that has not read any line yet.
    pub fn new() -> (r: Explorer)
        ensures
            r.spec_running(),
    {
        Explorer { running: true }
    }

    /// Whether the loop still runs.
    pub fn is_running(&self) -> (r: bool)
        ensures
            r == self.spec_running(),
    {
        self.running
    }

    /// Decides what to do with one input line.
    pub fn step(&mut self, line: &str) -> (r: Action)
        requires
            old(self).spec_running(),
        ensures
            r@ == step_model(line@),
            final(self).spec_running() == keeps_running(line@),
    {
        let command = parse_command(line);
        match command {
            Command::List => Action::ListEntries,
            Command::Info(name) => Action::Inspect(name),
            Command::Help => Action::Show(show_help()),
            Command::Quit => {
                self.running = false;
                let mut lines: Vec<String> = Vec::new();
                lines.push(FAREWELL.to_owned());
                assert(texts(lines@) =~= seq![FAREWELL@]);
                Action::Stop(lines)
            },
            Command::Unknown(word) => {
                let mut lines: Vec<String> = Vec::new();
                if missing_info_name(line) {
                    lines.push(USAGE.to_owned());
                }
                let mut message = joined(UNKNOWN_OPEN, word.as_str());
                message.append(UNKNOWN_CLOSE);
                let ghost before = lines@;
                lines.push(message);
                assert(texts(lines@) =~= texts(before).push(UNKNOWN_OPEN@ + word@ + UNKNOWN_CLOSE@));
                assert(texts(lines@) =~= (if is_bare_info(line@) {
                    seq![USAGE@]
                } else {
                    seq![]
                }) + seq![UNKNOWN_OPEN@ + word@ + UNKNOWN_CLOSE@]);
                Action::Show(lines)
            },
        }
    }
}

/// Whether the line is `info` without a name.
fn missing_info_name(line: &str) -> (r: bool)
    ensures
        r == is_bare_info(line@),
{
    let (s0, e0) = crate::text::next_word(line, 0);
    let (s1, e1) = crate::text::next_word(line, e0);
    let word = line.substring_char(s0, e0).to_owned();
    word == String::from_str("info") && s1 == e1
}

/// The text of the help command.
pub fn show_help() -> (r: Vec<String>)
    ensures
        texts(r@) =~= help_model(),
{
    let mut lines: Vec<String> = Vec::new();
    lines.push(HELP_TITLE.to_owned());
    lines.push(HELP_LIST.to_owned());
    lines.push(HELP_INFO.to_owned());
    lines.push(HELP_HELP.to_owned());
    lines.push(HELP_QUIT.to_owned());
    lines
}

/// A `quit` line ends any running session, whatever lines came before it,
/// and the farewell is the only thing it shows.
pub proof fn lemma_quit_ends_session(before: Seq<Seq<char>>, line: Seq<char>)
    requires
        running_after(before),
        parse_model(line) is Quit,
    ensures
        step_model(line) == ActionModel::Stop(seq![FAREWELL@]),
        !running_after(before.push(line)),
{
    assert(before.push(line).drop_last() =~= before);
}

/// Asking for an entry whose metadata cannot be had shows one line that
/// names it, and the session goes on, so a later `help` is still answered.
pub proof fn lemma_failed_info_goes_on(
    before: Seq<Seq<char>>,
    line: Seq<char>,
    name: Seq<char>,
    cause: String,
    next: Seq<char>,
)
    requires
        running_after(before),
        parse_model(line) == CommandModel::Info(name),
        parse_model(next) is Help,
    ensures
        step_model(line) == ActionModel::Inspect(name),
        info_report(name, Err::<Metadata, String>(cause)).len() == 1,
        info_report(name, Err::<Metadata, String>(cause))[0].subrange(
            ACCESS_FAILURE@.len() as int,
            (ACCESS_FAILURE@.len() + name.len()) as int,
        ) == name,
        running_after(before.push(line)),
        step_model(next) == ActionModel::Show(help_model()),
        running_after(before.push(line).push(next)),
{
    assert(before.push(line).drop_last() =~= before);
    assert(running_after(before.push(line)));
    assert(before.push(line).push(next).drop_last() =~= before.push(line));
    let text = info_report(name, Err::<Metadata, String>(cause))[0];
    assert(text.subrange(ACCESS_FAILURE@.len() as int, (ACCESS_FAILURE@.len() + name.len()) as int)
        =~= name);
}

} // verus!
