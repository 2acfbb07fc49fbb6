//! What the command line asks of the binary.
//!
//! Three answers and no error case: a terminal game has no grammar to defend, and
//! someone who types an option this program never had wants to play. Only the two flags
//! that *answer something short enough to print* cut the launch short, and whichever of
//! them comes first is the one answered.

use vstd::prelude::*;

use crate::text::same_text;

verus! {

/// What the binary calls itself when it speaks to a shell — the name a player types,
/// not the package's.
pub const NAME: &'static str = "skylode";

/// The number this build carries.
pub const VERSION: &'static str = "0.2.0";

/// What the command line asked this binary to do.
#[derive(Clone, Copy, Debug, PartialEq, Eq, Structural)]
pub enum Request {
    /// Start a session — everything this binary normally does.
    Play,
    /// Print the version and stop.
    Version,
    /// Print the usage summary and stop.
    Usage,
}

/// What a single argument asks for, where it is one of the four flags. An argument that
/// is not text at all (`None`) is no flag.
pub open spec fn flag_request(arg: Option<Seq<char>>) -> Option<Request> {
    match arg {
        Some(a) => if a == "--version"@ || a == "-V"@ {
            Some(Request::Version)
        } else if a == "--help"@ || a == "-h"@ {
            Some(Request::Usage)
        } else {
            None
        },
        None => None,
    }
}

/// What a whole command line asks for: the first flag met, or a session.
pub open spec fn request_of(args: Seq<Option<Seq<char>>>) -> Request
    decreases args.len(),
{
    if args.len() == 0 {
        Request::Play
    } else {
        match flag_request(args[0]) {
            Some(r) => r,
            None => request_of(args.drop_first()),
        }
    }
}

/// The text of each argument, where it has one.
pub open spec fn arg_texts(args: Seq<Option<&str>>) -> Seq<Option<Seq<char>>> {
    args.map_values(
        |arg: Option<&str>|
            match arg {
                Some(s) => Some(s@),
                None => None,
            },
    )
}

/// The usage summary: two flags, and a pointer to `?` for the bindings, which live in
/// the key map and change with it.
pub open spec fn usage_text() -> Seq<char> {
    NAME@ + " "@ + VERSION@ + "\nA solo terminal idle mining game.\n\nUsage: "@ + NAME@
        + " [OPTIONS]\n\nOptions:\n  -V, --version  Print the version and exit\n  -h, --help     Print this message and exit\n\nEverything else is keyboard-driven from inside the game: press `?` on any\nscreen for the full list of bindings."@
}

/// What one argument asks for.
fn flag(arg: Option<&str>) -> (r: Option<Request>)
    ensures
        r == flag_request(
            match arg {
                Some(s) => Some(s@),
                None => None,
            },
        ),
{
    match arg {
        Some(a) => {
            if same_text(a, "--version") || same_text(a, "-V") {
                Some(Request::Version)
            } else if same_text(a, "--help") || same_text(a, "-h") {
                Some(Request::Usage)
            } else {
                None
            }
        },
        None => None,
    }
}

/// Reads a command line, the program's own name left off; an argument that is not valid
/// text arrives as `None` and is simply not a flag.
pub fn requested(args: &[Option<&str>]) -> (r: Request)
    ensures
        r == request_of(arg_texts(args@)),
{
    let ghost all = arg_texts(args@);
    assert(all.subrange(0, all.len() as int) =~= all);
    let mut i: usize = 0;
    while i < args.len()
        invariant
            i <= args@.len(),
            all == arg_texts(args@),
            request_of(all) == request_of(all.subrange(i as int, all.len() as int)),
        decreases args@.len() - i,
    {
        let ghost rest = all.subrange(i as int, all.len() as int);
        assert(rest[0] == all[i as int]);
        assert(all[i as int] == (match args@[i as int] {
            Some(s) => Some(s@),
            None => None::<Seq<char>>,
        }));
        assert(rest.drop_first() =~= all.subrange(i + 1, all.len() as int));
        match flag(args[i]) {
            Some(r) => {
                return r;
            },
            None => {},
        }
        i = i + 1;
    }
    assert(all.subrange(i as int, all.len() as int) =~= Seq::<Option<Seq<char>>>::empty());
    Request::Play
}

/// The usage summary.
pub fn usage() -> (s: String)
    ensures
        s@ == usage_text(),
{
    let mut s = NAME.to_owned();
    s.append(" ");
    s.append(VERSION);
    s.append("\nA solo terminal idle mining game.\n\nUsage: ");
    s.append(NAME);
    s.append(
        " [OPTIONS]\n\nOptions:\n  -V, --version  Print the version and exit\n  -h, --help     Print this message and exit\n\nEverything else is keyboard-driven from inside the game: press `?` on any\nscreen for the full list of bindings.",
    );
    s
}

/// The line `--version` prints: the name and the number.
pub fn version_line() -> (s: String)
    ensures
        s@ == NAME@ + " "@ + VERSION@,
{
    let mut s = NAME.to_owned();
    s.append(" ");
    s.append(VERSION);
    s
}

/// **The first flag met is the one answered**: whatever came before it that was not a
/// flag — unrecognised options, arguments that are not text — is passed over, and
/// nothing after it is read. A command line with no flag at all starts the game.
pub proof fn lemma_the_first_flag_wins(args: Seq<Option<Seq<char>>>, i: int)
    requires
        0 <= i < args.len(),
        flag_request(args[i]) is Some,
        forall|j: int| 0 <= j < i ==> flag_request(#[trigger] args[j]) is None,
    ensures
        request_of(args) == flag_request(args[i])->0,
    decreases i,
{
    if i > 0 {
        assert(flag_request(args[0]) is None);
        let rest = args.drop_first();
        assert forall|j: int| 0 <= j < i - 1 implies flag_request(#[trigger] rest[j]) is None by {
            assert(rest[j] == args[j + 1]);
        }
        lemma_the_first_flag_wins(rest, i - 1);
    }
}

/// **No flag, no interruption**: a command line none of whose arguments is a flag asks
/// for a session, whatever else it holds.
pub proof fn lemma_anything_else_plays(args: Seq<Option<Seq<char>>>)
    requires
        forall|j: int| 0 <= j < args.len() ==> flag_request(#[trigger] args[j]) is None,
    ensures
        request_of(args) == Request::Play,
    decreases args.len(),
{
    if args.len() > 0 {
        assert(flag_request(args[0]) is None);
        let rest = args.drop_first();
        assert forall|j: int| 0 <= j < rest.len() implies flag_request(#[trigger] rest[j]) is None by {
            assert(rest[j] == args[j + 1]);
        }
        lemma_anything_else_plays(rest);
    }
}

} // verus!
