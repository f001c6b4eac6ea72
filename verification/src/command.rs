//! Command definitions, and the arguments that a parsed command line holds.
//!
//! A command is described by a [`CommandSpec`]: plain data that the router
//! hands to `clap` for parsing. What `clap` matched comes back as
//! [`Arguments`], plain values, which is what a handler reads.
use vstd::prelude::*;
use crate::text::{all_distinct, chars_of, contains_word, occurs, same_text, texts_of};

verus! {

/// One `--long` option of a command.
pub struct ArgSpec {
    /// The name under which the value is looked up after parsing.
    pub id: String,
    /// The flag on the command line, without the two dashes.
    pub long: String,
    /// Whether the command is refused when the option is missing.
    pub required: bool,
    /// Whether the value must be a 64-bit integer; text otherwise.
    pub integer: bool,
    /// The help text of the option.
    pub help: String,
}

impl ArgSpec {
    /// Whether the option is the required option `--id`, looked up as
    /// `id`, for an integer or a text as `integer` says, with the help
    /// text `help`.
    pub open spec fn is_required(&self, id: Seq<char>, integer: bool, help: Seq<char>) -> bool {
        &&& self.id@ == id
        &&& self.long@ == id
        &&& self.required
        &&& self.integer == integer
        &&& self.help@ == help
    }

    /// An optional text option named `id`, with the flag `--id`.
    pub fn new(id: &str) -> (r: Self)
        ensures
            r.id@ == id@,
            r.long@ == id@,
            !r.required,
            !r.integer,
            r.help@ == Seq::<char>::empty(),
    {
        ArgSpec {
            id: String::from_str(id),
            long: String::from_str(id),
            required: false,
            integer: false,
            help: String::new(),
        }
    }

    /// The same option with the flag `--long`.
    pub fn long(self, long: &str) -> (r: Self)
        ensures
            r.long@ == long@,
            r.id == self.id,
            r.required == self.required,
            r.integer == self.integer,
            r.help == self.help,
    {
        ArgSpec { long: String::from_str(long), ..self }
    }

    /// The same option, required or not.
    pub fn required(self, required: bool) -> (r: Self)
        ensures
            r.required == required,
            r.id == self.id,
            r.long == self.long,
            r.integer == self.integer,
            r.help == self.help,
    {
        ArgSpec { required, ..self }
    }

    /// The same option, taking a 64-bit integer.
    pub fn integer(self) -> (r: Self)
        ensures
            r.integer,
            r.id == self.id,
            r.long == self.long,
            r.required == self.required,
            r.help == self.help,
    {
        ArgSpec { integer: true, ..self }
    }

    /// The same option with the help text `help`.
    pub fn help(self, help: &str) -> (r: Self)
        ensures
            r.help@ == help@,
            r.id == self.id,
            r.long == self.long,
            r.required == self.required,
            r.integer == self.integer,
    {
        ArgSpec { help: String::from_str(help), ..self }
    }
}

/// A command: its name, its options and its subcommands.
pub struct CommandSpec {
    /// The word that selects the command.
    pub name: String,
    /// Other words that select the command.
    pub aliases: Vec<String>,
    /// The help text of the command.
    pub about: String,
    /// The options of the command.
    pub args: Vec<ArgSpec>,
    /// The commands below this one.
    pub subcommands: Vec<CommandSpec>,
    /// Whether the command is refused when no subcommand is given.
    pub subcommand_required: bool,
}

impl CommandSpec {
    /// Whether the command is named `name`, has the help text `about`,
    /// and holds as many aliases, options and subcommands as is said.
    pub open spec fn is_headed(
        &self,
        name: Seq<char>,
        about: Seq<char>,
        aliases: nat,
        args: nat,
        subcommands: nat,
    ) -> bool {
        &&& self.name@ == name
        &&& self.about@ == about
        &&& self.aliases@.len() == aliases
        &&& self.args@.len() == args
        &&& self.subcommands@.len() == subcommands
        &&& self.subcommand_required == (subcommands > 0)
    }

    /// A command named `name`, without options or subcommands.
    pub fn new(name: &str) -> (r: Self)
        ensures
            r.name@ == name@,
            r.aliases@.len() == 0,
            r.about@ == Seq::<char>::empty(),
            r.args@.len() == 0,
            r.subcommands@.len() == 0,
            !r.subcommand_required,
    {
        CommandSpec {
            name: String::from_str(name),
            aliases: Vec::new(),
            about: String::new(),
            args: Vec::new(),
            subcommands: Vec::new(),
            subcommand_required: false,
        }
    }

    /// The same command with the help text `about`.
    pub fn about(self, about: &str) -> (r: Self)
        ensures
            r.about@ == about@,
            r.name == self.name,
            r.aliases == self.aliases,
            r.args == self.args,
            r.subcommands == self.subcommands,
            r.subcommand_required == self.subcommand_required,
    {
        CommandSpec { about: String::from_str(about), ..self }
    }

    /// The same command, also selected by `alias`.
    pub fn alias(self, alias: &str) -> (r: Self)
        ensures
            r.aliases@.len() == self.aliases@.len() + 1,
            r.aliases@.last()@ == alias@,
            r.aliases@.drop_last() == self.aliases@,
            r.name == self.name,
            r.about == self.about,
            r.args == self.args,
            r.subcommands == self.subcommands,
            r.subcommand_required == self.subcommand_required,
    {
        let mut aliases = self.aliases;
        aliases.push(String::from_str(alias));
        assert(aliases@.drop_last() == self.aliases@);
        CommandSpec {
            name: self.name,
            aliases,
            about: self.about,
            args: self.args,
            subcommands: self.subcommands,
            subcommand_required: self.subcommand_required,
        }
    }

    /// The same command with one more option, `arg`, after the others.
    pub fn arg(self, arg: ArgSpec) -> (r: Self)
        ensures
            r.args@ == self.args@.push(arg),
            r.name == self.name,
            r.aliases == self.aliases,
            r.about == self.about,
            r.subcommands == self.subcommands,
            r.subcommand_required == self.subcommand_required,
    {
        let mut args = self.args;
        args.push(arg);
        CommandSpec {
            name: self.name,
            aliases: self.aliases,
            about: self.about,
            args,
            subcommands: self.subcommands,
            subcommand_required: self.subcommand_required,
        }
    }

    /// The same command with one more subcommand, `sub`, after the others.
    pub fn subcommand(self, sub: CommandSpec) -> (r: Self)
        ensures
            r.subcommands@ == self.subcommands@.push(sub),
            r.name == self.name,
            r.aliases == self.aliases,
            r.about == self.about,
            r.args == self.args,
            r.subcommand_required == self.subcommand_required,
    {
        let mut subcommands = self.subcommands;
        subcommands.push(sub);
        CommandSpec {
            name: self.name,
            aliases: self.aliases,
            about: self.about,
            args: self.args,
            subcommands,
            subcommand_required: self.subcommand_required,
        }
    }

    /// The same command, requiring a subcommand or not.
    pub fn subcommand_required(self, required: bool) -> (r: Self)
        ensures
            r.subcommand_required == required,
            r.name == self.name,
            r.aliases == self.aliases,
            r.about == self.about,
            r.args == self.args,
            r.subcommands == self.subcommands,
    {
        CommandSpec { subcommand_required: required, ..self }
    }
}

/// The value that a command line gave to an option.
pub enum ArgValue {
    /// The value of a text option.
    Text(String),
    /// The value of an integer option.
    Integer(i64),
}

/// An option that was present on the command line, with its value.
pub struct ArgEntry {
    /// The name of the option.
    pub id: String,
    /// The value that was given.
    pub value: ArgValue,
}

/// The subcommand that a command line selected.
pub struct Subcommand {
    /// The name of the subcommand, never one of its aliases.
    pub name: String,
    /// What the command line gave to the subcommand.
    pub matches: Arguments,
}

/// What a command line gave to one command.
pub struct Arguments {
    /// The options that were present, at most one entry for each name.
    pub entries: Vec<ArgEntry>,
    /// The subcommand that was selected, if any.
    pub subcommand: Option<Box<Subcommand>>,
}

/// The position of the first entry of `entries` that is named `id`.
pub open spec fn entry_position(entries: Seq<ArgEntry>, id: Seq<char>) -> Option<int>
    decreases entries.len(),
{
    if entries.len() == 0 {
        None
    } else if entries[0].id@ == id {
        Some(0)
    } else {
        match entry_position(entries.skip(1), id) {
            Some(i) => Some(i + 1),
            None => None,
        }
    }
}

proof fn lemma_entry_position(entries: Seq<ArgEntry>, id: Seq<char>, k: int)
    requires
        0 <= k <= entries.len(),
        forall|j: int| 0 <= j < k ==> (#[trigger] entries[j]).id@ != id,
        k < entries.len() ==> entries[k].id@ == id,
    ensures
        entry_position(entries, id) == if k < entries.len() {
            Some(k)
        } else {
            None::<int>
        },
    decreases entries.len(),
{
    if entries.len() == 0 {
    } else if k == 0 {
    } else {
        assert(entries[0].id@ != id);
        let rest = entries.skip(1);
        assert forall|j: int| 0 <= j < k - 1 implies (#[trigger] rest[j]).id@ != id by {
            assert(rest[j] == entries[j + 1]);
        }
        lemma_entry_position(rest, id, k - 1);
    }
}

impl Arguments {
    /// Matches without options and without a subcommand.
    pub fn empty() -> (r: Self)
        ensures
            r.entries@.len() == 0,
            r.subcommand.is_none(),
    {
        Arguments { entries: Vec::new(), subcommand: None }
    }

    /// The value of the first entry named `id`.
    pub open spec fn value(&self, id: Seq<char>) -> Option<ArgValue> {
        match entry_position(self.entries@, id) {
            Some(i) => Some(self.entries@[i].value),
            None => None,
        }
    }

    fn find(&self, id: &str) -> (r: Option<usize>)
        ensures
            match r {
                Some(i) => entry_position(self.entries@, id@) == Some(i as int) && i
                    < self.entries@.len(),
                None => entry_position(self.entries@, id@).is_none(),
            },
    {
        let mut i: usize = 0;
        while i < self.entries.len()
            invariant
                i <= self.entries@.len(),
                forall|j: int| 0 <= j < i ==> (#[trigger] self.entries@[j]).id@ != id@,
            decreases self.entries@.len() - i,
        {
            if same_text(self.entries[i].id.as_str(), id) {
                proof {
                    lemma_entry_position(self.entries@, id@, i as int);
                }
                return Some(i);
            }
            i += 1;
        }
        proof {
            lemma_entry_position(self.entries@, id@, i as int);
        }
        None
    }

    /// The text that the command line gave to the option `id`. `None` if
    /// the option was absent or is an integer option.
    pub fn get_text(&self, id: &str) -> (r: Option<&String>)
        ensures
            match r {
                Some(s) => self.value(id@) == Some(ArgValue::Text(*s)),
                None => !(self.value(id@) matches Some(ArgValue::Text(_))),
            },
    {
        match self.find(id) {
            Some(i) => match &self.entries[i].value {
                ArgValue::Text(s) => Some(s),
                ArgValue::Integer(_) => None,
            },
            None => None,
        }
    }

    /// The integer that the command line gave to the option `id`. `None`
    /// if the option was absent or is a text option.
    pub fn get_integer(&self, id: &str) -> (r: Option<i64>)
        ensures
            match r {
                Some(v) => self.value(id@) == Some(ArgValue::Integer(v)),
                None => !(self.value(id@) matches Some(ArgValue::Integer(_))),
            },
    {
        match self.find(id) {
            Some(i) => match &self.entries[i].value {
                ArgValue::Text(_) => None,
                ArgValue::Integer(v) => Some(*v),
            },
            None => None,
        }
    }

    /// The subcommand that the command line selected.
    pub fn subcommand(&self) -> (r: Option<&Subcommand>)
        ensures
            match r {
                Some(s) => self.subcommand == Some(Box::new(*s)),
                None => self.subcommand.is_none(),
            },
    {
        match &self.subcommand {
            Some(b) => Some(&**b),
            None => None,
        }
    }
}

/// Whether `word` is a word that the parser keeps for itself.
pub open spec fn reserved(word: Seq<char>) -> bool {
    word == "help"@ || word == "version"@
}

impl ArgSpec {
    /// Whether the option can be handed to the parser: its flag is not
    /// empty and does not start with a dash, and neither its name nor its
    /// flag is a word that the parser keeps for itself.
    pub open spec fn well_formed(&self) -> bool {
        &&& self.long@.len() > 0
        &&& self.long@[0] != '-'
        &&& !reserved(self.id@)
        &&& !reserved(self.long@)
    }

    /// Computes [`ArgSpec::well_formed`].
    pub fn is_well_formed(&self) -> (r: bool)
        ensures
            r == self.well_formed(),
    {
        let long = chars_of(self.long.as_str());
        if long.len() == 0 {
            return false;
        }
        if long[0] == '-' {
            return false;
        }
        !same_text(self.id.as_str(), "help") && !same_text(self.id.as_str(), "version") && !same_text(
            self.long.as_str(),
            "help",
        ) && !same_text(self.long.as_str(), "version")
    }
}

/// The names of `args`, in their order.
pub open spec fn arg_ids(args: Seq<ArgSpec>) -> Seq<Seq<char>> {
    args.map_values(|a: ArgSpec| a.id@)
}

/// The flags of `args`, in their order.
pub open spec fn arg_longs(args: Seq<ArgSpec>) -> Seq<Seq<char>> {
    args.map_values(|a: ArgSpec| a.long@)
}

/// Whether the options `args` can stand in one command: each is well
/// formed, no two share a name and no two share a flag.
pub open spec fn args_consistent(args: Seq<ArgSpec>) -> bool {
    &&& forall|i: int| 0 <= i < args.len() ==> (#[trigger] args[i]).well_formed()
    &&& all_distinct(arg_ids(args))
    &&& all_distinct(arg_longs(args))
}

/// Computes [`args_consistent`].
pub fn check_args(args: &Vec<ArgSpec>) -> (r: bool)
    ensures
        r == args_consistent(args@),
{
    let mut ids: Vec<String> = Vec::new();
    let mut longs: Vec<String> = Vec::new();
    let mut i: usize = 0;
    while i < args.len()
        invariant
            i <= args@.len(),
            texts_of(ids@) == arg_ids(args@.take(i as int)),
            texts_of(longs@) == arg_longs(args@.take(i as int)),
            args_consistent(args@.take(i as int)),
        decreases args@.len() - i,
    {
        let ghost done = args@.take(i as int);
        let ghost next = args@.take(i + 1);
        let arg = &args[i];
        proof {
            assert(next == done.push(*arg));
            assert(arg_ids(next) =~= arg_ids(done).push(arg.id@));
            assert(arg_longs(next) =~= arg_longs(done).push(arg.long@));
        }
        if !arg.is_well_formed() || contains_word(&ids, arg.id.as_str()) || contains_word(
            &longs,
            arg.long.as_str(),
        ) {
            proof {
                assert(!args_consistent(next)) by {
                    if !arg.well_formed() {
                        assert(next[i as int] == *arg);
                    } else if occurs(arg_ids(done), arg.id@) {
                        let j = choose|j: int|
                            0 <= j < arg_ids(done).len() && #[trigger] arg_ids(done)[j] == arg.id@;
                        assert(arg_ids(next)[j] == arg_ids(next)[i as int]);
                    } else {
                        let j = choose|j: int|
                            0 <= j < arg_longs(done).len() && #[trigger] arg_longs(done)[j]
                                == arg.long@;
                        assert(arg_longs(next)[j] == arg_longs(next)[i as int]);
                    }
                }
                lemma_args_prefix(args@, i + 1);
            }
            return false;
        }
        let id = arg.id.clone();
        let long = arg.long.clone();
        proof {
            assert(texts_of(ids@.push(id)) =~= texts_of(ids@).push(id@));
            assert(texts_of(longs@.push(long)) =~= texts_of(longs@).push(long@));
            assert(args_consistent(next)) by {
                assert forall|k: int| 0 <= k < next.len() implies (#[trigger] next[k]).well_formed() by {
                    if k < i {
                        assert(next[k] == done[k]);
                    }
                }
                assert forall|a: int, b: int| 0 <= a < b < next.len() implies #[trigger] arg_ids(
                    next,
                )[a] != #[trigger] arg_ids(next)[b] by {
                    if b < i {
                        assert(arg_ids(next)[a] == arg_ids(done)[a]);
                        assert(arg_ids(next)[b] == arg_ids(done)[b]);
                    } else {
                        assert(arg_ids(next)[a] == arg_ids(done)[a]);
                    }
                }
                assert forall|a: int, b: int| 0 <= a < b < next.len() implies #[trigger] arg_longs(
                    next,
                )[a] != #[trigger] arg_longs(next)[b] by {
                    if b < i {
                        assert(arg_longs(next)[a] == arg_longs(done)[a]);
                        assert(arg_longs(next)[b] == arg_longs(done)[b]);
                    } else {
                        assert(arg_longs(next)[a] == arg_longs(done)[a]);
                    }
                }
            }
        }
        ids.push(id);
        longs.push(long);
        i += 1;
    }
    assert(args@.take(i as int) == args@);
    true
}

proof fn lemma_args_prefix(args: Seq<ArgSpec>, k: int)
    requires
        0 <= k <= args.len(),
        !args_consistent(args.take(k)),
    ensures
        !args_consistent(args),
{
    let prefix = args.take(k);
    if args_consistent(args) {
        assert forall|i: int| 0 <= i < prefix.len() implies (#[trigger] prefix[i]).well_formed() by {
            assert(prefix[i] == args[i]);
        }
        assert forall|a: int, b: int| 0 <= a < b < prefix.len() implies #[trigger] arg_ids(
            prefix,
        )[a] != #[trigger] arg_ids(prefix)[b] by {
            assert(arg_ids(prefix)[a] == arg_ids(args)[a]);
            assert(arg_ids(prefix)[b] == arg_ids(args)[b]);
        }
        assert forall|a: int, b: int| 0 <= a < b < prefix.len() implies #[trigger] arg_longs(
            prefix,
        )[a] != #[trigger] arg_longs(prefix)[b] by {
            assert(arg_longs(prefix)[a] == arg_longs(args)[a]);
            assert(arg_longs(prefix)[b] == arg_longs(args)[b]);
        }
    }
}

impl CommandSpec {
    /// The words that select the command: its name, then its aliases.
    pub open spec fn words(&self) -> Seq<Seq<char>> {
        seq![self.name@] + texts_of(self.aliases@)
    }
}

/// The words that select one of `commands`, in the order of the commands.
pub open spec fn selecting_words(commands: Seq<CommandSpec>) -> Seq<Seq<char>>
    decreases commands.len(),
{
    if commands.len() == 0 {
        Seq::empty()
    } else {
        selecting_words(commands.drop_last()) + commands.last().words()
    }
}

/// Whether the commands `commands` can stand side by side: no word selects
/// two of them, and none is selected by `help`.
pub open spec fn siblings_consistent(commands: Seq<CommandSpec>) -> bool {
    all_distinct(selecting_words(commands)) && !occurs(selecting_words(commands), "help"@)
}

impl CommandSpec {
    /// Whether the command can be handed to the parser: its options are
    /// consistent, its subcommands can stand side by side, and each of
    /// them can be handed to the parser in turn.
    pub open spec fn consistent(&self) -> bool
        decreases self,
    {
        &&& args_consistent(self.args@)
        &&& siblings_consistent(self.subcommands@)
        &&& forall|i: int|
            0 <= i < self.subcommands@.len() ==> (#[trigger] self.subcommands@[i]).consistent()
    }

    /// Adds the words of the command to `words`, unless one of them is
    /// `help` or among `words` already.
    pub fn add_words(&self, words: &mut Vec<String>) -> (r: bool)
        requires
            all_distinct(texts_of(old(words)@)),
            !occurs(texts_of(old(words)@), "help"@),
        ensures
            r == (all_distinct(texts_of(old(words)@) + self.words()) && !occurs(
                self.words(),
                "help"@,
            )),
            r ==> texts_of(final(words)@) == texts_of(old(words)@) + self.words(),
            !r ==> *final(words) == *old(words),
            all_distinct(texts_of(final(words)@)),
            !occurs(texts_of(final(words)@), "help"@),
    {
        let ghost before = texts_of(words@);
        let ghost mine = self.words();
        let mut fresh: Vec<String> = Vec::new();
        if same_text(self.name.as_str(), "help") || contains_word(words, self.name.as_str()) {
            proof {
                assert(mine[0] == self.name@);
                if occurs(before, self.name@) {
                    let j = choose|j: int| 0 <= j < before.len() && #[trigger] before[j] == self.name@;
                    assert((before + mine)[j] == (before + mine)[before.len() as int]);
                }
            }
            return false;
        }
        fresh.push(self.name.clone());
        let mut i: usize = 0;
        proof {
            assert(texts_of(fresh@) =~= mine.take(1));
            lemma_distinct_concat(before, mine.take(1));
        }
        while i < self.aliases.len()
            invariant
                i <= self.aliases@.len(),
                before == texts_of(words@),
                *words == *old(words),
                mine == self.words(),
                texts_of(fresh@) == mine.take(i + 1),
                all_distinct(before + mine.take(i + 1)),
                !occurs(mine.take(i + 1), "help"@),
                !occurs(before, "help"@),
                all_distinct(before),
            decreases self.aliases@.len() - i,
        {
            let alias = &self.aliases[i];
            let ghost done = mine.take(i + 1);
            let ghost next = mine.take(i + 2);
            proof {
                assert(mine[i + 1] == alias@);
                assert(next =~= done.push(alias@));
                assert(before + next =~= (before + done).push(alias@));
            }
            if same_text(alias.as_str(), "help") || contains_word(words, alias.as_str())
                || contains_word(&fresh, alias.as_str()) {
                proof {
                    if alias@ == "help"@ {
                        assert(mine[i + 1] == "help"@);
                    } else {
                        assert(occurs(before + done, alias@)) by {
                            if occurs(before, alias@) {
                                let j = choose|j: int|
                                    0 <= j < before.len() && #[trigger] before[j] == alias@;
                                assert((before + done)[j] == alias@);
                            } else {
                                let j = choose|j: int|
                                    0 <= j < done.len() && #[trigger] done[j] == alias@;
                                assert((before + done)[before.len() + j] == alias@);
                            }
                        }
                        let j = choose|j: int|
                            0 <= j < (before + done).len() && #[trigger] (before + done)[j] == alias@;
                        assert((before + mine)[j] == (before + done)[j]);
                        assert((before + mine)[before.len() + i + 1] == alias@);
                    }
                }
                return false;
            }
            let copy = alias.clone();
            proof {
                assert(texts_of(fresh@.push(copy)) =~= texts_of(fresh@).push(copy@));
                assert(all_distinct(before + next)) by {
                    assert forall|a: int, b: int| 0 <= a < b < (before + next).len() implies #[trigger] (
                    before + next)[a] != #[trigger] (before + next)[b] by {
                        if b < (before + done).len() {
                            assert((before + next)[a] == (before + done)[a]);
                            assert((before + next)[b] == (before + done)[b]);
                        } else {
                            assert((before + next)[a] == (before + done)[a]);
                            if a < before.len() {
                                assert(before[a] == (before + done)[a]);
                            } else {
                                assert(done[a - before.len()] == (before + done)[a]);
                            }
                        }
                    }
                }
                assert(!occurs(next, "help"@)) by {
                    if occurs(next, "help"@) {
                        let j = choose|j: int| 0 <= j < next.len() && #[trigger] next[j] == "help"@;
                        if j < done.len() {
                            assert(done[j] == "help"@);
                        }
                    }
                }
            }
            fresh.push(copy);
            i += 1;
        }
        proof {
            assert(mine.take(i + 1) == mine);
            assert(texts_of(words@ + fresh@) =~= before + mine);
            assert(!occurs(before + mine, "help"@)) by {
                if occurs(before + mine, "help"@) {
                    let j = choose|j: int|
                        0 <= j < (before + mine).len() && #[trigger] (before + mine)[j] == "help"@;
                    if j < before.len() {
                        assert(before[j] == "help"@);
                    } else {
                        assert(mine[j - before.len()] == "help"@);
                    }
                }
            }
        }
        words.append(&mut fresh);
        true
    }

    /// Computes [`CommandSpec::consistent`].
    pub fn is_consistent(&self) -> (r: bool)
        ensures
            r == self.consistent(),
        decreases self,
    {
        if !check_args(&self.args) {
            return false;
        }
        let mut words: Vec<String> = Vec::new();
        let mut i: usize = 0;
        proof {
            assert(selecting_words(self.subcommands@.take(0)) =~= Seq::<Seq<char>>::empty());
        }
        while i < self.subcommands.len()
            invariant
                i <= self.subcommands@.len(),
                texts_of(words@) == selecting_words(self.subcommands@.take(i as int)),
                siblings_consistent(self.subcommands@.take(i as int)),
                forall|k: int| 0 <= k < i ==> (#[trigger] self.subcommands@[k]).consistent(),
            decreases self.subcommands@.len() - i,
        {
            let sub = &self.subcommands[i];
            let ghost done = self.subcommands@.take(i as int);
            let ghost next = self.subcommands@.take(i + 1);
            proof {
                assert(next.drop_last() == done);
                assert(next.last() == *sub);
            }
            if !sub.is_consistent() {
                return false;
            }
            if !sub.add_words(&mut words) {
                proof {
                    assert(!siblings_consistent(next)) by {
                        if occurs(sub.words(), "help"@) {
                            let j = choose|j: int|
                                0 <= j < sub.words().len() && #[trigger] sub.words()[j] == "help"@;
                            assert(selecting_words(next)[selecting_words(done).len() + j] == "help"@);
                        }
                    }
                    lemma_siblings_prefix(self.subcommands@, i + 1);
                }
                return false;
            }
            i += 1;
        }
        assert(self.subcommands@.take(i as int) == self.subcommands@);
        true
    }
}

proof fn lemma_distinct_concat(before: Seq<Seq<char>>, one: Seq<Seq<char>>)
    requires
        all_distinct(before),
        one.len() == 1,
        !occurs(before, one[0]),
    ensures
        all_distinct(before + one),
{
    assert forall|a: int, b: int| 0 <= a < b < (before + one).len() implies #[trigger] (before
        + one)[a] != #[trigger] (before + one)[b] by {
        assert((before + one)[a] == before[a]);
        if b < before.len() {
            assert((before + one)[b] == before[b]);
        }
    }
}

proof fn lemma_words_prefix(commands: Seq<CommandSpec>, k: int)
    requires
        0 <= k <= commands.len(),
    ensures
        selecting_words(commands.take(k)).len() <= selecting_words(commands).len(),
        forall|j: int|
            0 <= j < selecting_words(commands.take(k)).len() ==> selecting_words(commands)[j]
                == #[trigger] selecting_words(commands.take(k))[j],
    decreases commands.len(),
{
    if k == commands.len() {
        assert(commands.take(k) == commands);
    } else {
        lemma_words_prefix(commands.drop_last(), k);
        assert(commands.drop_last().take(k) == commands.take(k));
    }
}

proof fn lemma_siblings_prefix(commands: Seq<CommandSpec>, k: int)
    requires
        0 <= k <= commands.len(),
        !siblings_consistent(commands.take(k)),
    ensures
        !siblings_consistent(commands),
{
    lemma_words_prefix(commands, k);
    let prefix = selecting_words(commands.take(k));
    let all = selecting_words(commands);
    if siblings_consistent(commands) {
        assert forall|a: int, b: int| 0 <= a < b < prefix.len() implies #[trigger] prefix[a]
            != #[trigger] prefix[b] by {
            assert(all[a] == prefix[a]);
            assert(all[b] == prefix[b]);
        }
        if occurs(prefix, "help"@) {
            let j = choose|j: int| 0 <= j < prefix.len() && #[trigger] prefix[j] == "help"@;
            assert(all[j] == "help"@);
        }
    }
}

} // verus!
