use vstd::prelude::*;
use vstd::string::StrSliceExecFns;
use crate::error::ErrorKind;

verus! {

/// The operation that one run performs.
#[derive(Clone, Copy, Debug, PartialEq, Eq, Structural)]
pub enum Command {
    Encrypt,
    Decrypt,
}

/// A parsed command line: `<mode> -key <path> -in <path> -out <path> -tag <path>`,
/// with the four flags in any order.
pub struct Invocation {
    pub command: Command,
    pub key_path: String,
    pub in_path: String,
    pub out_path: String,
    pub tag_path: String,
}

/// The command that a mode word names.
pub open spec fn command_of(word: Seq<char>) -> Option<Command> {
    if word == "enc"@ {
        Some(Command::Encrypt)
    } else if word == "dec"@ {
        Some(Command::Decrypt)
    } else {
        None
    }
}

/// The slot of a flag: 0 for `-key`, 1 for `-in`, 2 for `-out`, 3 for
/// `-tag`, and -1 for anything else.
pub open spec fn flag_slot(word: Seq<char>) -> int {
    if word == "-key"@ {
        0
    } else if word == "-in"@ {
        1
    } else if word == "-out"@ {
        2
    } else if word == "-tag"@ {
        3
    } else {
        -1
    }
}

/// The flag word at pair `k` (0 to 3) of a full argument list, whose first
/// two words are the program and the mode.
pub open spec fn flag_at(args: Seq<String>, k: int) -> Seq<char> {
    args[2 + 2 * k]@
}

/// The value word after the flag of pair `k`.
pub open spec fn value_at(args: Seq<String>, k: int) -> Seq<char> {
    args[3 + 2 * k]@
}

/// The argument list is well formed: the program, a known mode, and four
/// flag/value pairs that name each of the four flags once.
pub open spec fn args_valid(args: Seq<String>) -> bool {
    &&& args.len() == 10
    &&& command_of(args[1]@) is Some
    &&& forall|k: int| 0 <= k < 4 ==> flag_slot(#[trigger] flag_at(args, k)) >= 0
    &&& forall|k: int, l: int|
        0 <= k < l < 4 ==> flag_slot(#[trigger] flag_at(args, k)) != flag_slot(
            #[trigger] flag_at(args, l),
        )
}

/// The parse of a well-formed argument list: its mode, and for each flag the
/// value that follows it.
pub open spec fn parsed_as(args: Seq<String>, inv: Invocation) -> bool {
    &&& Some(inv.command) == command_of(args[1]@)
    &&& forall|k: int|
        0 <= k < 4 ==> {
            &&& flag_slot(#[trigger] flag_at(args, k)) == 0 ==> inv.key_path@ == value_at(args, k)
            &&& flag_slot(flag_at(args, k)) == 1 ==> inv.in_path@ == value_at(args, k)
            &&& flag_slot(flag_at(args, k)) == 2 ==> inv.out_path@ == value_at(args, k)
            &&& flag_slot(flag_at(args, k)) == 3 ==> inv.tag_path@ == value_at(args, k)
        }
}

fn str_equal(a: &str, b: &str) -> (r: bool)
    ensures
        r == (a@ == b@),
{
    let n = a.unicode_len();
    let m = b.unicode_len();
    if n != m {
        return false;
    }
    let mut i: usize = 0;
    while i < n
        invariant
            n == a@.len(),
            m == b@.len(),
            n == m,
            i <= n,
            forall|j: int| 0 <= j < i ==> a@[j] == b@[j],
        decreases n - i,
    {
        if a.get_char(i) != b.get_char(i) {
            return false;
        }
        i = i + 1;
    }
    assert(a@ =~= b@);
    true
}

fn parse_command(word: &str) -> (r: Option<Command>)
    ensures
        r == command_of(word@),
{
    if str_equal(word, "enc") {
        Some(Command::Encrypt)
    } else if str_equal(word, "dec") {
        Some(Command::Decrypt)
    } else {
        None
    }
}

fn parse_flag(word: &str) -> (r: i8)
    ensures
        r as int == flag_slot(word@),
{
    if str_equal(word, "-key") {
        0
    } else if str_equal(word, "-in") {
        1
    } else if str_equal(word, "-out") {
        2
    } else if str_equal(word, "-tag") {
        3
    } else {
        -1
    }
}

fn value_for(args: &Vec<String>, slots: &[i8; 4], want: i8) -> (r: String)
    requires
        args@.len() == 10,
        exists|k: int| 0 <= k < 4 && slots@[k] == want,
        forall|k: int, l: int| 0 <= k < l < 4 ==> slots@[k] != slots@[l],
    ensures
        forall|k: int| 0 <= k < 4 && slots@[k] == want ==> r@ == #[trigger] value_at(args@, k),
{
    assert(value_at(args@, 0) == args@[3]@);
    assert(value_at(args@, 1) == args@[5]@);
    assert(value_at(args@, 2) == args@[7]@);
    assert(value_at(args@, 3) == args@[9]@);
    if slots[0] == want {
        args[3].clone()
    } else if slots[1] == want {
        args[5].clone()
    } else if slots[2] == want {
        args[7].clone()
    } else {
        args[9].clone()
    }
}

/// Parses a full argument list (program name first). Fails with an
/// `ArgumentError` exactly when the list is not well formed: not ten words,
/// an unknown mode or flag, or a flag given twice (so another is missing).
pub fn parse_args(args: &Vec<String>) -> (r: Result<Invocation, ErrorKind>)
    ensures
        r is Ok <==> args_valid(args@),
        r is Ok ==> parsed_as(args@, r->Ok_0),
        r is Err ==> r->Err_0 == ErrorKind::ArgumentError,
{
    if args.len() != 10 {
        return Err(ErrorKind::ArgumentError);
    }
    let command = match parse_command(args[1].as_str()) {
        Some(c) => c,
        None => {
            return Err(ErrorKind::ArgumentError);
        },
    };
    let slots: [i8; 4] = [
        parse_flag(args[2].as_str()),
        parse_flag(args[4].as_str()),
        parse_flag(args[6].as_str()),
        parse_flag(args[8].as_str()),
    ];
    assert(slots@[0] as int == flag_slot(flag_at(args@, 0)));
    assert(slots@[1] as int == flag_slot(flag_at(args@, 1)));
    assert(slots@[2] as int == flag_slot(flag_at(args@, 2)));
    assert(slots@[3] as int == flag_slot(flag_at(args@, 3)));
    if slots[0] < 0 || slots[1] < 0 || slots[2] < 0 || slots[3] < 0 {
        return Err(ErrorKind::ArgumentError);
    }
    if slots[0] == slots[1] || slots[0] == slots[2] || slots[0] == slots[3] || slots[1] == slots[2]
        || slots[1] == slots[3] || slots[2] == slots[3] {
        return Err(ErrorKind::ArgumentError);
    }
    let key_path = value_for(args, &slots, 0);
    let in_path = value_for(args, &slots, 1);
    let out_path = value_for(args, &slots, 2);
    let tag_path = value_for(args, &slots, 3);
    Ok(Invocation { command, key_path, in_path, out_path, tag_path })
}

} // verus!
