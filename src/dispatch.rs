use vstd::prelude::*;

verus! {

/// std's `io::Error`, carried opaque in the result of the argument scan.
#[verifier::external_type_specification]
#[verifier::external_body]
pub struct ExIoError(std::io::Error);

/// What the command line asks for, after the scan of its arguments.
#[derive(Debug)]
pub struct Config<'a> {
    pub tool: &'a str,
    pub path: &'a str,
    pub flag: &'a str,
}

/// What the program does for a command line.
#[derive(Debug, PartialEq, Eq)]
pub enum Action {
    /// Print the help text, and list nothing.
    Help,
    /// List the directory at the path in long format.
    LongList(String),
    /// List the names in the directory at the path.
    ShortList(String),
    /// Do nothing at all.
    Nothing,
}

pub open spec fn ls_word() -> Seq<char> {
    seq!['l', 's']
}

/// The scan of `args` from left to right, as (tool, path, flag): a token
/// that holds a hyphen becomes the flag, the token `ls` selects the tool,
/// and any other token becomes the path; a later token overwrites an
/// earlier one.
pub open spec fn parse_args(args: Seq<String>) -> (Seq<char>, Seq<char>, Seq<char>)
    decreases args.len(),
{
    if args.len() == 0 {
        (Seq::empty(), Seq::empty(), Seq::empty())
    } else {
        let (tool, path, flag) = parse_args(args.drop_last());
        let a = args.last()@;
        if a.contains('-') {
            (tool, path, a)
        } else if a == ls_word() {
            (ls_word(), path, flag)
        } else {
            (tool, a, flag)
        }
    }
}

/// The action that a flag chooses for a path: `-h` asks for help, `-l` for
/// the long listing of the path, and anything else for the short listing of
/// the path.
pub open spec fn is_choice(a: Action, flag: Seq<char>, path: Seq<char>) -> bool {
    if flag == seq!['-', 'h'] {
        a == Action::Help
    } else if flag == seq!['-', 'l'] {
        a is LongList && a->LongList_0@ == path
    } else {
        a is ShortList && a->ShortList_0@ == path
    }
}

impl<'a> Config<'a> {
    pub open spec fn parts(&self) -> (Seq<char>, Seq<char>, Seq<char>) {
        (self.tool@, self.path@, self.flag@)
    }

    /// Scans the arguments (the program's own name included) into a
    /// configuration; the scan always succeeds.
    pub fn new(args: &'a Vec<String>) -> (r: Result<Config<'a>, std::io::Error>)
        ensures
            r is Ok,
            r->Ok_0.parts() == parse_args(args@),
    {
        let mut config = Config { tool: "", path: "", flag: "" };
        proof {
            reveal_strlit("");
            assert(""@ =~= Seq::<char>::empty());
            assert(config.parts() == parse_args(args@.subrange(0, 0)));
        }
        let mut i: usize = 0;
        while i < args.len()
            invariant
                i <= args@.len(),
                config.parts() == parse_args(args@.subrange(0, i as int)),
            decreases args@.len() - i,
        {
            let arg: &'a str = args[i].as_str();
            proof {
                assert(args@.subrange(0, i + 1).drop_last() =~= args@.subrange(0, i as int));
                reveal_strlit("ls");
                assert("ls"@ =~= ls_word());
            }
            if contains_hyphen(arg) {
                config.flag = arg;
            } else if str_equal(arg, "ls") {
                config.tool = "ls";
            } else {
                config.path = arg;
            }
            i = i + 1;
        }
        proof {
            assert(args@.subrange(0, args@.len() as int) =~= args@);
        }
        Ok(config)
    }
}

/// Whether `s` holds a hyphen anywhere.
fn contains_hyphen(s: &str) -> (r: bool)
    ensures
        r == s@.contains('-'),
{
    let n = s.unicode_len();
    let mut i: usize = 0;
    while i < n
        invariant
            n == s@.len(),
            i <= n,
            forall|j: int| 0 <= j < i ==> s@[j] != '-',
        decreases n - i,
    {
        if s.get_char(i) == '-' {
            return true;
        }
        i = i + 1;
    }
    false
}

/// Whether `a` and `b` hold the same characters.
fn str_equal(a: &str, b: &str) -> (r: bool)
    ensures
        r == (a@ == b@),
{
    let n = a.unicode_len();
    if n != b.unicode_len() {
        return false;
    }
    let mut i: usize = 0;
    while i < n
        invariant
            n == a@.len(),
            n == b@.len(),
            i <= n,
            forall|j: int| 0 <= j < i ==> a@[j] == b@[j],
        decreases n - i,
    {
        if a.get_char(i) != b.get_char(i) {
            return false;
        }
        i = i + 1;
    }
    assert(a@ =~= b@);
    true
}

/// Chooses the action for a configuration by its flag alone.
pub fn run(config: &Config) -> (a: Action)
    ensures
        is_choice(a, config.flag@, config.path@),
{
    proof {
        reveal_strlit("-h");
        reveal_strlit("-l");
        assert("-h"@ =~= seq!['-', 'h']);
        assert("-l"@ =~= seq!['-', 'l']);
    }
    if str_equal(config.flag, "-h") {
        Action::Help
    } else if str_equal(config.flag, "-l") {
        Action::LongList(String::from_str(config.path))
    } else {
        Action::ShortList(String::from_str(config.path))
    }
}

/// Chooses the action for a configuration: nothing unless the tool `ls` was
/// selected, else what `run` chooses.
pub fn dispatch(config: &Config) -> (a: Action)
    ensures
        config.tool@ != ls_word() ==> a == Action::Nothing,
        config.tool@ == ls_word() ==> is_choice(a, config.flag@, config.path@),
{
    proof {
        reveal_strlit("ls");
        assert("ls"@ =~= ls_word());
    }
    if str_equal(config.tool, "ls") {
        run(config)
    } else {
        Action::Nothing
    }
}

} // verus!
