//! The command-line surface: the grammar of the four subcommands, a
//! verified parser for it, and the dispatcher that runs a parsed command
//! against the store.
//!
//! The grammar takes each subcommand's flags in their documented order:
//! `add --title T --description D`, `remove --id I`,
//! `update --id I --title T --description D`, and `get`. An id is a
//! decimal integer, optionally signed with a leading minus, that fits in
//! 32 bits.

use vstd::prelude::*;
use crate::db::{add_todo, get_all_todos, lists_table, remove_todo, todos_of, update_todo};
use crate::models::{AddTodo, RemoveTodo, Todo, UpdateTodo};

verus! {

/// A parsed command, the argument surface's four terminal states.
#[derive(Debug)]
pub enum Command {
    Add { title: String, description: String },
    Remove { id: i32 },
    Update { id: i32, title: String, description: String },
    Get,
}

/// The mathematical form of a parsed command.
pub enum CommandModel {
    Add { title: Seq<char>, description: Seq<char> },
    Remove { id: int },
    Update { id: int, title: Seq<char>, description: Seq<char> },
    Get,
}

impl View for Command {
    type V = CommandModel;

    open spec fn view(&self) -> CommandModel {
        match self {
            Command::Add { title, description } => CommandModel::Add {
                title: title@,
                description: description@,
            },
            Command::Remove { id } => CommandModel::Remove { id: *id as int },
            Command::Update { id, title, description } => CommandModel::Update {
                id: *id as int,
                title: title@,
                description: description@,
            },
            Command::Get => CommandModel::Get,
        }
    }
}

/// Why an argument list was rejected: no subcommand at all, a subcommand
/// this tool does not know, flags that do not fit the subcommand's
/// surface, or an id that is not a 32-bit decimal integer.
#[derive(Debug, PartialEq, Eq, Structural, Clone, Copy)]
pub enum CliError {
    MissingCommand,
    UnknownCommand,
    BadArguments,
    BadId,
}

/// The views of a list of argument strings.
pub open spec fn args_view(args: Seq<String>) -> Seq<Seq<char>> {
    args.map_values(|s: String| s@)
}

/// Whether a character is a decimal digit.
pub open spec fn is_digit(c: char) -> bool {
    48 <= c as int <= 57
}

/// The value of a decimal digit character.
pub open spec fn digit_val(c: char) -> int {
    c as int - 48
}

/// Whether every character of the sequence is a decimal digit.
pub open spec fn all_digits(s: Seq<char>) -> bool {
    forall|i: int| 0 <= i < s.len() ==> is_digit(#[trigger] s[i])
}

/// The value of a sequence of decimal digits, most significant first.
pub open spec fn digits_val(s: Seq<char>) -> int
    decreases s.len(),
{
    if s.len() == 0 {
        0
    } else {
        digits_val(s.drop_last()) * 10 + digit_val(s.last())
    }
}

/// Whether the text is a decimal integer, optionally signed with a
/// leading minus, whose value fits in an `i32`.
pub open spec fn valid_i32_text(s: Seq<char>) -> bool {
    if s.len() > 0 && s[0] == '-' {
        let d = s.subrange(1, s.len() as int);
        d.len() > 0 && all_digits(d) && -digits_val(d) >= i32::MIN
    } else {
        s.len() > 0 && all_digits(s) && digits_val(s) <= i32::MAX
    }
}

/// The value of a valid decimal integer text.
pub open spec fn i32_text_val(s: Seq<char>) -> int {
    if s.len() > 0 && s[0] == '-' {
        -digits_val(s.subrange(1, s.len() as int))
    } else {
        digits_val(s)
    }
}

/// What parsing an argument list yields: the command for a well-formed
/// list, and for each ill-formed list exactly which rejection it earns.
/// The list excludes the program name.
pub open spec fn spec_parse(a: Seq<Seq<char>>) -> Result<CommandModel, CliError> {
    if a.len() == 0 {
        Err(CliError::MissingCommand)
    } else if a[0] == "add"@ {
        if a.len() == 5 && a[1] == "--title"@ && a[3] == "--description"@ {
            Ok(CommandModel::Add { title: a[2], description: a[4] })
        } else {
            Err(CliError::BadArguments)
        }
    } else if a[0] == "remove"@ {
        if a.len() == 3 && a[1] == "--id"@ {
            if valid_i32_text(a[2]) {
                Ok(CommandModel::Remove { id: i32_text_val(a[2]) })
            } else {
                Err(CliError::BadId)
            }
        } else {
            Err(CliError::BadArguments)
        }
    } else if a[0] == "update"@ {
        if a.len() == 7 && a[1] == "--id"@ && a[3] == "--title"@ && a[5] == "--description"@ {
            if valid_i32_text(a[2]) {
                Ok(CommandModel::Update {
                    id: i32_text_val(a[2]),
                    title: a[4],
                    description: a[6],
                })
            } else {
                Err(CliError::BadId)
            }
        } else {
            Err(CliError::BadArguments)
        }
    } else if a[0] == "get"@ {
        if a.len() == 1 {
            Ok(CommandModel::Get)
        } else {
            Err(CliError::BadArguments)
        }
    } else {
        Err(CliError::UnknownCommand)
    }
}

proof fn lemma_digits_val_nonneg(s: Seq<char>)
    requires
        all_digits(s),
    ensures
        digits_val(s) >= 0,
    decreases s.len(),
{
    if s.len() > 0 {
        assert(all_digits(s.drop_last()));
        lemma_digits_val_nonneg(s.drop_last());
        assert(is_digit(s.last()));
    }
}

/// The value of a digit sequence is at least the value of any of its
/// prefixes: appending digits never shrinks the value.
proof fn lemma_digits_val_prefix(s: Seq<char>, j: int)
    requires
        all_digits(s),
        0 <= j <= s.len(),
    ensures
        digits_val(s.subrange(0, j)) <= digits_val(s),
    decreases s.len() - j,
{
    if j == s.len() {
        assert(s.subrange(0, j) =~= s);
    } else {
        lemma_digits_val_prefix(s, j + 1);
        let p = s.subrange(0, j);
        let q = s.subrange(0, j + 1);
        assert(q.drop_last() =~= p);
        assert(q.last() == s[j]);
        assert(all_digits(p));
        lemma_digits_val_nonneg(p);
        assert(is_digit(s[j]));
        assert(digits_val(q) == digits_val(p) * 10 + digit_val(s[j]));
    }
}

/// Parses a decimal integer, optionally signed with a leading minus,
/// rejecting any text whose value does not fit in an `i32`.
pub fn parse_i32(s: &String) -> (r: Option<i32>)
    ensures
        r matches Some(v) ==> valid_i32_text(s@) && v as int == i32_text_val(s@),
        r is None ==> !valid_i32_text(s@),
{
    let st: &str = s.as_str();
    let n: usize = st.unicode_len();
    if n == 0 {
        return None;
    }
    let c0 = st.get_char(0);
    let neg = c0 == '-';
    let start: usize = if neg {
        1
    } else {
        0
    };
    let ghost sv = s@;
    let ghost d = if neg {
        sv.subrange(1, sv.len() as int)
    } else {
        sv
    };
    if n - start == 0 {
        return None;
    }
    let mut acc: u64 = 0;
    let mut i: usize = start;
    while i < n
        invariant
            sv == s@,
            st@ == sv,
            n == sv.len(),
            start <= i <= n,
            start == (if neg {
                1usize
            } else {
                0usize
            }),
            neg <==> (sv.len() > 0 && sv[0] == '-'),
            d == (if neg {
                sv.subrange(1, sv.len() as int)
            } else {
                sv
            }),
            d.len() == n - start,
            d.len() > 0,
            forall|k: int| 0 <= k < d.len() ==> #[trigger] d[k] == sv[k + start],
            all_digits(d.subrange(0, i - start)),
            acc == digits_val(d.subrange(0, i - start)),
            acc <= 2147483648,
        decreases n - i,
    {
        let c = st.get_char(i);
        let cv = c as u32;
        proof {
            assert(c as int == cv as int);
            assert(d[i - start] == sv[i as int]);
        }
        if cv < 48 || cv > 57 {
            proof {
                assert(!is_digit(d[i - start]));
                assert(!all_digits(d));
            }
            return None;
        }
        let dv: u64 = (cv - 48) as u64;
        let next: u64 = acc * 10 + dv;
        proof {
            let k = i - start;
            let q = d.subrange(0, k + 1);
            assert(q.drop_last() =~= d.subrange(0, k as int));
            assert(q.last() == d[k as int]);
            assert(is_digit(d[k as int]));
            assert(all_digits(q));
            assert(digits_val(q) == acc * 10 + dv);
        }
        if next > 2147483648 {
            proof {
                let k = i - start;
                if all_digits(d) {
                    lemma_digits_val_prefix(d, k + 1);
                    assert(digits_val(d) >= digits_val(d.subrange(0, k + 1)));
                }
            }
            return None;
        }
        acc = next;
        i += 1;
    }
    proof {
        assert(d.subrange(0, d.len() as int) =~= d);
    }
    if neg {
        if acc == 2147483648 {
            Some(i32::MIN)
        } else {
            Some(-(acc as i32))
        }
    } else {
        if acc > 2147483647 {
            None
        } else {
            Some(acc as i32)
        }
    }
}

/// Whether the argument at `i` is the given word.
fn arg_is(args: &Vec<String>, i: usize, word: &str) -> (r: bool)
    requires
        i < args@.len(),
    ensures
        r == (args@[i as int]@ == word@),
{
    let w: String = word.to_owned();
    args[i] == w
}

/// Parses an argument list (excluding the program name) into a command,
/// exactly as [`spec_parse`] describes the grammar; every rejection is
/// the one the grammar assigns.
pub fn parse_args(args: &Vec<String>) -> (r: Result<Command, CliError>)
    ensures
        r matches Ok(c) ==> spec_parse(args_view(args@)) == Ok::<CommandModel, CliError>(c@),
        r matches Err(e) ==> spec_parse(args_view(args@)) == Err::<CommandModel, CliError>(e),
{
    let ghost a = args_view(args@);
    let n: usize = args.len();
    if n == 0 {
        return Err(CliError::MissingCommand);
    }
    if arg_is(args, 0, "add") {
        if n == 5 && arg_is(args, 1, "--title") && arg_is(args, 3, "--description") {
            Ok(Command::Add { title: args[2].clone(), description: args[4].clone() })
        } else {
            Err(CliError::BadArguments)
        }
    } else if arg_is(args, 0, "remove") {
        if n == 3 && arg_is(args, 1, "--id") {
            match parse_i32(&args[2]) {
                Some(id) => Ok(Command::Remove { id }),
                None => Err(CliError::BadId),
            }
        } else {
            Err(CliError::BadArguments)
        }
    } else if arg_is(args, 0, "update") {
        if n == 7 && arg_is(args, 1, "--id") && arg_is(args, 3, "--title") && arg_is(
            args,
            5,
            "--description",
        ) {
            match parse_i32(&args[2]) {
                Some(id) => Ok(
                    Command::Update {
                        id,
                        title: args[4].clone(),
                        description: args[6].clone(),
                    },
                ),
                None => Err(CliError::BadId),
            }
        } else {
            Err(CliError::BadArguments)
        }
    } else if arg_is(args, 0, "get") {
        if n == 1 {
            Ok(Command::Get)
        } else {
            Err(CliError::BadArguments)
        }
    } else {
        Err(CliError::UnknownCommand)
    }
}

/// What running a command against the store came to; the caller prints
/// it. A failed storage operation leaves the store unchanged and carries
/// the engine's message.
#[derive(Debug)]
pub enum Outcome {
    Added { title: String },
    Removed { id: i32 },
    Updated { title: String },
    Listed { todos: Vec<Todo> },
    Failed { message: String },
}

/// Dispatches a parsed command to the matching persistence operation:
/// `add` inserts the record under a fresh id, `remove` and `update` touch
/// exactly the record with the given id, `get` reads every record and
/// changes nothing; a storage failure changes nothing and is reported,
/// not propagated.
pub fn run_command(conn: &mut rusqlite::Connection, cmd: Command) -> (r: Outcome)
    ensures
        r matches Outcome::Added { title } ==> (cmd matches Command::Add {
            title: t,
            description: dsc,
        } && title == t && (exists|id: int|
            !todos_of(*old(conn)).contains_key(id) && todos_of(*final(conn)) == todos_of(
                *old(conn),
            ).insert(id, (t@, Some(dsc@))))),
        r matches Outcome::Removed { id } ==> (cmd matches Command::Remove { id: i } && id == i
            && todos_of(*final(conn)) == todos_of(*old(conn)).remove(id as int)),
        r matches Outcome::Updated { title } ==> (cmd matches Command::Update {
            id,
            title: t,
            description: dsc,
        } && title == t && (if todos_of(*old(conn)).contains_key(id as int) {
            todos_of(*final(conn)) == todos_of(*old(conn)).insert(id as int, (t@, Some(dsc@)))
        } else {
            todos_of(*final(conn)) == todos_of(*old(conn))
        })),
        r matches Outcome::Listed { todos } ==> (cmd is Get && todos_of(*final(conn)) == todos_of(
            *old(conn),
        ) && lists_table(todos@, todos_of(*old(conn)))),
        r is Failed ==> todos_of(*final(conn)) == todos_of(*old(conn)),
        cmd matches Command::Add { title, description } ==> (r is Added || r is Failed),
        cmd is Remove ==> (r is Removed || r is Failed),
        cmd is Update ==> (r is Updated || r is Failed),
        cmd is Get ==> (r is Listed || r is Failed),
{
    match cmd {
        Command::Add { title, description } => {
            let req = AddTodo { title: title.clone(), description: description.clone() };
            match add_todo(conn, &req) {
                Ok(n) => Outcome::Added { title },
                Err(e) => Outcome::Failed { message: e.message },
            }
        },
        Command::Remove { id } => {
            let req = RemoveTodo { id };
            match remove_todo(conn, &req) {
                Ok(n) => Outcome::Removed { id },
                Err(e) => Outcome::Failed { message: e.message },
            }
        },
        Command::Update { id, title, description } => {
            let req = UpdateTodo {
                id,
                title: title.clone(),
                description: description.clone(),
            };
            match update_todo(conn, &req) {
                Ok(n) => Outcome::Updated { title },
                Err(e) => Outcome::Failed { message: e.message },
            }
        },
        Command::Get => {
            match get_all_todos(conn) {
                Ok(todos) => Outcome::Listed { todos },
                Err(e) => Outcome::Failed { message: e.message },
            }
        },
    }
}

} // verus!
