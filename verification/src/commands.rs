//! The command registry: the commands that the bot knows, in order, each
//! under a name of its own.

use vstd::prelude::*;
use vstd::string::*;
use crate::cooldown::WINDOW;
use crate::replies::{advice, ats, diff, fiat, movers, price, stats};
use crate::text::str_eq;

verus! {

/// What a command does.
#[derive(Clone, Copy, Debug, PartialEq, Eq, Structural)]
pub enum Kind {
    Advice,
    Ats,
    Diff,
    Fiat,
    Bulls,
    Bears,
    Coin,
    Coin24,
    Stats,
}

/// Why a message got no reply.
#[derive(Clone, Copy, Debug, PartialEq, Eq, Structural)]
pub enum Error {
    /// The store could not be reached or had nothing to answer with.
    Contact,
    /// The command is rate-limited and its window has not elapsed.
    Cooldown,
    /// No remark fits the message, or remarks are cooling down.
    NoReply,
    /// The message is no command and there are no remarks to fall back on.
    Unknown,
}

/// A command: the word that calls it, its help line, what it does, and,
/// where it is rate-limited, its cooldown window in seconds.
#[derive(Clone, Debug)]
pub struct Command {
    pub name: String,
    pub help: String,
    pub kind: Kind,
    pub window: Option<u64>,
}

/// A `Command` as a mathematical value.
pub struct CommandView {
    pub name: Seq<char>,
    pub help: Seq<char>,
    pub kind: Kind,
    pub window: Option<u64>,
}

impl View for Command {
    type V = CommandView;

    open spec fn view(&self) -> CommandView {
        CommandView { name: self.name@, help: self.help@, kind: self.kind, window: self.window }
    }
}

/// A command that was refused because its name is taken.
#[derive(Debug)]
pub struct Duplicate {
    pub command: Command,
}

/// The registered commands, in the order of their registration. No name
/// occurs twice.
pub struct Commands {
    entries: Vec<Command>,
}

/// The views of a sequence of commands, element by element.
pub open spec fn command_views(cs: Seq<Command>) -> Seq<CommandView> {
    Seq::new(cs.len(), |i: int| cs[i]@)
}

/// Whether no name occurs twice among `cs`.
pub open spec fn names_distinct(cs: Seq<CommandView>) -> bool {
    forall|i: int, j: int|
        0 <= i < j < cs.len() ==> (#[trigger] cs[i]).name != (#[trigger] cs[j]).name
}

/// Whether `i` is the place of the first command called `name`.
pub open spec fn is_first(cs: Seq<CommandView>, name: Seq<char>, i: int) -> bool {
    &&& 0 <= i < cs.len()
    &&& cs[i].name == name
    &&& forall|j: int| 0 <= j < i ==> (#[trigger] cs[j]).name != name
}

/// The place of the command called exactly `name`, the first if there
/// were several.
pub open spec fn found(cs: Seq<CommandView>, name: Seq<char>) -> Option<int> {
    if exists|i: int| is_first(cs, name, i) {
        Some(choose|i: int| is_first(cs, name, i))
    } else {
        None
    }
}

/// The word that asks for help.
pub open spec fn help_word() -> Seq<char> {
    "!help"@
}

/// Whether `part` occurs in `whole` as a run of characters.
pub open spec fn occurs_in(part: Seq<char>, whole: Seq<char>) -> bool {
    exists|k: int|
        0 <= k && k + part.len() <= whole.len() && #[trigger] whole.subrange(k, k + part.len())
            == part
}

/// The names of the commands in order, each after a blank.
pub open spec fn names_line(cs: Seq<CommandView>) -> Seq<char>
    decreases cs.len(),
{
    if cs.len() == 0 {
        Seq::empty()
    } else {
        names_line(cs.drop_last()) + " "@ + cs.last().name
    }
}

/// How the general help ends: how to ask for more.
pub open spec fn help_tail() -> Seq<char> {
    ". !help [command] for more information on a specific command."@
}

/// The general help of a registry: the help word and the names of all its
/// commands in order, and how to ask for more.
pub open spec fn help_list(cs: Seq<CommandView>) -> Seq<char> {
    "Commands: "@ + help_word() + names_line(cs) + help_tail()
}

/// The name under which a kind of command is usually registered.
pub open spec fn usual_name(kind: Kind) -> Seq<char> {
    match kind {
        Kind::Advice => "!advice"@,
        Kind::Ats => "!ats"@,
        Kind::Diff => "!diff"@,
        Kind::Fiat => "!fiat"@,
        Kind::Bulls => "!bulls"@,
        Kind::Bears => "!bears"@,
        Kind::Coin => "!coin"@,
        Kind::Coin24 => "!coin24"@,
        Kind::Stats => "!stats"@,
    }
}

/// The help line of a kind of command.
pub open spec fn usual_help(kind: Kind) -> Seq<char> {
    match kind {
        Kind::Advice => advice::help_text(),
        Kind::Ats => ats::help_text(),
        Kind::Diff => diff::help_text(),
        Kind::Fiat => fiat::help_text(),
        Kind::Bulls => movers::bulls_help_text(),
        Kind::Bears => movers::bears_help_text(),
        Kind::Coin => price::help_text(),
        Kind::Coin24 => price::day_help_text(),
        Kind::Stats => stats::help_text(),
    }
}

/// The usual cooldown of a kind of command: advice is rate-limited, the
/// rest is not.
pub open spec fn usual_window(kind: Kind) -> Option<u64> {
    match kind {
        Kind::Advice => Some(WINDOW),
        _ => None,
    }
}

/// A kind of command as it is usually registered.
pub open spec fn usual(kind: Kind) -> CommandView {
    CommandView {
        name: usual_name(kind),
        help: usual_help(kind),
        kind,
        window: usual_window(kind),
    }
}

/// The usual registry.
pub open spec fn usual_commands() -> Seq<CommandView> {
    seq![
        usual(Kind::Advice),
        usual(Kind::Ats),
        usual(Kind::Diff),
        usual(Kind::Fiat),
        usual(Kind::Bulls),
        usual(Kind::Bears),
        usual(Kind::Coin),
        usual(Kind::Coin24),
        usual(Kind::Stats),
    ]
}

proof fn lemma_found(cs: Seq<CommandView>, name: Seq<char>, i: int)
    requires
        is_first(cs, name, i),
    ensures
        found(cs, name) == Some(i),
{
    let k = choose|k: int| is_first(cs, name, k);
    assert(k == i) by {
        if k < i {
            assert(cs[k].name != name);
        }
        if i < k {
            assert(cs[i].name != name);
        }
    }
}

impl Error {
    /// What the error says.
    pub open spec fn text(self) -> Seq<char> {
        match self {
            Error::Contact => "Cannot contact database"@,
            Error::Cooldown => "Command is on cooldown"@,
            Error::NoReply => "No reply"@,
            Error::Unknown => "Unknown command"@,
        }
    }

    /// The error in words, for a log.
    pub fn message(&self) -> (r: String)
        ensures
            r@ == self.text(),
    {
        match self {
            Error::Contact => String::from_str("Cannot contact database"),
            Error::Cooldown => String::from_str("Command is on cooldown"),
            Error::NoReply => String::from_str("No reply"),
            Error::Unknown => String::from_str("Unknown command"),
        }
    }
}

impl Kind {
    /// The name under which the kind is usually registered.
    pub fn name(&self) -> (r: String)
        ensures
            r@ == usual_name(*self),
    {
        match self {
            Kind::Advice => String::from_str("!advice"),
            Kind::Ats => String::from_str("!ats"),
            Kind::Diff => String::from_str("!diff"),
            Kind::Fiat => String::from_str("!fiat"),
            Kind::Bulls => String::from_str("!bulls"),
            Kind::Bears => String::from_str("!bears"),
            Kind::Coin => String::from_str("!coin"),
            Kind::Coin24 => String::from_str("!coin24"),
            Kind::Stats => String::from_str("!stats"),
        }
    }

    /// The help line of the kind.
    pub fn help(&self) -> (r: String)
        ensures
            r@ == usual_help(*self),
    {
        match self {
            Kind::Advice => advice::help(),
            Kind::Ats => ats::help(),
            Kind::Diff => diff::help(),
            Kind::Fiat => fiat::help(),
            Kind::Bulls => movers::bulls_help(),
            Kind::Bears => movers::bears_help(),
            Kind::Coin => price::help(),
            Kind::Coin24 => price::day_help(),
            Kind::Stats => stats::help(),
        }
    }

    /// The usual cooldown window of the kind.
    pub fn window(&self) -> (r: Option<u64>)
        ensures
            r == usual_window(*self),
    {
        match self {
            Kind::Advice => Some(WINDOW),
            _ => None,
        }
    }
}

impl Command {
    /// The command of a kind as it is usually registered.
    pub fn usual(kind: Kind) -> (r: Command)
        ensures
            r@ == usual(kind),
    {
        Command { name: kind.name(), help: kind.help(), kind, window: kind.window() }
    }
}

impl Commands {
    /// The registered commands in order.
    pub closed spec fn view(&self) -> Seq<CommandView> {
        command_views(self.entries@)
    }

    /// Whether the registry is in order: no name occurs twice.
    pub open spec fn wf(&self) -> bool {
        names_distinct(self@)
    }

    /// A registry without commands.
    pub fn empty() -> (r: Commands)
        ensures
            r@ == Seq::<CommandView>::empty(),
            r.wf(),
    {
        Commands { entries: Vec::new() }
    }

    /// The usual registry: the nine commands of the bot under their usual
    /// names.
    pub fn new() -> (r: Commands)
        ensures
            r@ == usual_commands(),
            r.wf(),
    {
        let mut entries: Vec<Command> = Vec::new();
        entries.push(Command::usual(Kind::Advice));
        entries.push(Command::usual(Kind::Ats));
        entries.push(Command::usual(Kind::Diff));
        entries.push(Command::usual(Kind::Fiat));
        entries.push(Command::usual(Kind::Bulls));
        entries.push(Command::usual(Kind::Bears));
        entries.push(Command::usual(Kind::Coin));
        entries.push(Command::usual(Kind::Coin24));
        entries.push(Command::usual(Kind::Stats));
        proof {
            assert(command_views(entries@) =~= usual_commands());
            lemma_usual_names_distinct();
        }
        Commands { entries }
    }

    /// How many commands are registered.
    pub fn len(&self) -> (r: usize)
        ensures
            r == self@.len(),
    {
        self.entries.len()
    }

    /// The command at place `i`.
    pub fn get(&self, i: usize) -> (r: &Command)
        requires
            i < self@.len(),
        ensures
            r@ == self@[i as int],
    {
        &self.entries[i]
    }

    /// The place of the command called exactly `name`.
    pub fn find_command(&self, name: &str) -> (r: Option<usize>)
        ensures
            match r {
                Some(i) => found(self@, name@) == Some(i as int) && i < self@.len(),
                None => found(self@, name@) is None,
            },
    {
        let mut i: usize = 0;
        while i < self.entries.len()
            invariant
                i <= self.entries.len(),
                forall|j: int| 0 <= j < i ==> (#[trigger] self@[j]).name != name@,
            decreases self.entries.len() - i,
        {
            if str_eq(self.entries[i].name.as_str(), name) {
                proof {
                    lemma_found(self@, name@, i as int);
                }
                return Some(i);
            }
            i = i + 1;
        }
        None
    }

    /// Registers a command at the end, unless its name is taken: then the
    /// registry stays unchanged and the command comes back.
    pub fn register(&mut self, command: Command) -> (r: Result<(), Duplicate>)
        requires
            old(self).wf(),
        ensures
            match r {
                Ok(_) => found(old(self)@, command.name@) is None && final(self)@ == old(self)@.push(
                    command@,
                ),
                Err(refused) => found(old(self)@, command.name@) is Some && final(self)@ == old(
                    self,
                )@ && refused.command == command,
            },
            final(self).wf(),
    {
        match self.find_command(command.name.as_str()) {
            Some(_) => Err(Duplicate { command }),
            None => {
                let ghost before = self@;
                proof {
                    let after = before.push(command@);
                    assert forall|i: int, j: int| 0 <= i < j < after.len() implies (
                    #[trigger] after[i]).name != (#[trigger] after[j]).name by {
                        if j < before.len() {
                            assert(after[i] == before[i]);
                            assert(after[j] == before[j]);
                        } else {
                            assert(after[i] == before[i]);
                            if before[i].name == command.name@ {
                                lemma_found_exists(before, command.name@, i);
                            }
                        }
                    }
                    assert(command_views(self.entries@.push(command)) =~= after);
                }
                self.entries.push(command);
                Ok(())
            },
        }
    }

    /// The general help: it lists the help word and the name of every
    /// registered command.
    pub fn help(&self) -> (r: String)
        ensures
            r@ == help_list(self@),
            occurs_in(help_word(), r@),
            forall|i: int| 0 <= i < self@.len() ==> occurs_in((#[trigger] self@[i]).name, r@),
    {
        let mut out = String::from_str("Commands: ");
        out.append("!help");
        let mut i: usize = 0;
        while i < self.entries.len()
            invariant
                i <= self.entries.len(),
                out@ == "Commands: "@ + help_word() + names_line(self@.take(i as int)),
            decreases self.entries.len() - i,
        {
            proof {
                assert(self@.take(i + 1).drop_last() == self@.take(i as int));
                assert(self@.take(i + 1).last() == self@[i as int]);
            }
            out.append(" ");
            out.append(self.entries[i].name.as_str());
            i = i + 1;
        }
        assert(self@.take(self@.len() as int) == self@);
        out.append(". !help [command] for more information on a specific command.");
        proof {
            lemma_help_lists_every_name(self@);
        }
        out
    }
}

proof fn lemma_occurs(part: Seq<char>, before: Seq<char>, after: Seq<char>)
    ensures
        occurs_in(part, before + part + after),
{
    let whole = before + part + after;
    let k = before.len() as int;
    assert(whole.subrange(k, k + part.len()) =~= part);
}

proof fn lemma_occurs_wider(part: Seq<char>, inner: Seq<char>, before: Seq<char>, after: Seq<char>)
    requires
        occurs_in(part, inner),
    ensures
        occurs_in(part, before + inner + after),
{
    let k = choose|k: int|
        0 <= k && k + part.len() <= inner.len() && #[trigger] inner.subrange(k, k + part.len())
            == part;
    let whole = before + inner + after;
    let at = before.len() + k;
    assert(whole.subrange(at, at + part.len()) =~= inner.subrange(k, k + part.len()));
}

proof fn lemma_name_in_line(cs: Seq<CommandView>, i: int)
    requires
        0 <= i < cs.len(),
    ensures
        occurs_in(cs[i].name, names_line(cs)),
    decreases cs.len(),
{
    let rest = names_line(cs.drop_last());
    if i == cs.len() - 1 {
        lemma_occurs(cs[i].name, rest + " "@, Seq::empty());
        assert(names_line(cs) =~= rest + " "@ + cs[i].name + Seq::<char>::empty());
    } else {
        lemma_name_in_line(cs.drop_last(), i);
        assert(cs.drop_last()[i] == cs[i]);
        lemma_occurs_wider(cs[i].name, rest, Seq::empty(), " "@ + cs.last().name);
        assert(names_line(cs) =~= Seq::<char>::empty() + rest + (" "@ + cs.last().name));
    }
}

/// The general help names the help word and every command of the
/// registry.
pub proof fn lemma_help_lists_every_name(cs: Seq<CommandView>)
    ensures
        occurs_in(help_word(), help_list(cs)),
        forall|i: int| 0 <= i < cs.len() ==> occurs_in((#[trigger] cs[i]).name, help_list(cs)),
{
    let head = "Commands: "@;
    lemma_occurs(help_word(), head, names_line(cs) + help_tail());
    assert(help_list(cs) =~= head + help_word() + (names_line(cs) + help_tail()));
    assert forall|i: int| 0 <= i < cs.len() implies occurs_in(
        (#[trigger] cs[i]).name,
        help_list(cs),
    ) by {
        lemma_name_in_line(cs, i);
        lemma_occurs_wider(cs[i].name, names_line(cs), head + help_word(), help_tail());
    }
}

/// Where some command has the name, the first of them is found.
proof fn lemma_found_exists(cs: Seq<CommandView>, name: Seq<char>, i: int)
    requires
        0 <= i < cs.len(),
        cs[i].name == name,
    ensures
        found(cs, name) is Some,
        found(cs, name).unwrap() <= i,
    decreases i,
{
    if forall|j: int| 0 <= j < i ==> (#[trigger] cs[j]).name != name {
        lemma_found(cs, name, i);
    } else {
        let j = choose|j: int| 0 <= j < i && (#[trigger] cs[j]).name == name;
        lemma_found_exists(cs, name, j);
    }
}

/// The usual names differ from one another.
pub proof fn lemma_usual_names_distinct()
    ensures
        names_distinct(usual_commands()),
{
    reveal_strlit("!advice");
    reveal_strlit("!ats");
    reveal_strlit("!diff");
    reveal_strlit("!fiat");
    reveal_strlit("!bulls");
    reveal_strlit("!bears");
    reveal_strlit("!coin");
    reveal_strlit("!coin24");
    reveal_strlit("!stats");
    let cs = usual_commands();
    assert(cs[0].name == "!advice"@ && cs[0].name.len() == 7);
    assert(cs[1].name == "!ats"@ && cs[1].name.len() == 4);
    assert(cs[2].name == "!diff"@ && cs[2].name.len() == 5);
    assert(cs[3].name == "!fiat"@ && cs[3].name.len() == 5);
    assert(cs[4].name == "!bulls"@ && cs[4].name.len() == 6);
    assert(cs[5].name == "!bears"@ && cs[5].name.len() == 6);
    assert(cs[6].name == "!coin"@ && cs[6].name.len() == 5);
    assert(cs[7].name == "!coin24"@ && cs[7].name.len() == 7);
    assert(cs[8].name == "!stats"@ && cs[8].name.len() == 6);
    assert("!bulls"@[2] != "!bears"@[2]);
    assert("!bulls"@[1] != "!stats"@[1]);
    assert("!bears"@[1] != "!stats"@[1]);
    assert("!diff"@[1] != "!fiat"@[1]);
    assert("!diff"@[1] != "!coin"@[1]);
    assert("!fiat"@[1] != "!coin"@[1]);
    assert("!advice"@[1] != "!coin24"@[1]);
}

} // verus!
