//! The command line of a program: its arguments as given, and the
//! arguments that it declares.

use vstd::prelude::*;
use vstd::string::*;

verus! {

/// A command line argument and how it is written.
#[derive(Debug, Clone, Copy, PartialEq, Eq)]
pub struct Arg<'d> {
    pub name: &'d str,
    pub description: Option<&'d str>,
    pub help: Option<&'d str>,
    pub long: Option<&'d str>,
    pub short: Option<char>,
    pub flag: bool,
    pub takes_value: bool,
}

impl<'d> Arg<'d> {
    /// An argument of the given name with nothing else said of it.
    pub fn new(name: &'d str) -> (arg: Arg<'d>)
        ensures
            arg == (Arg {
                name,
                description: None,
                help: None,
                long: None,
                short: None,
                flag: false,
                takes_value: false,
            }),
    {
        Arg {
            name,
            description: None,
            help: None,
            long: None,
            short: None,
            flag: false,
            takes_value: false,
        }
    }

    /// Says what the argument is for.
    pub fn description(self, des: &'d str) -> (arg: Self)
        ensures
            arg == (Arg { description: Some(des), ..self }),
    {
        Arg { description: Some(des), ..self }
    }

    /// Sets the help text of the argument.
    pub fn help(self, h: &'d str) -> (arg: Self)
        ensures
            arg == (Arg { help: Some(h), ..self }),
    {
        Arg { help: Some(h), ..self }
    }

    /// Sets the long form of the argument.
    pub fn long(self, l: &'d str) -> (arg: Self)
        ensures
            arg == (Arg { long: Some(l), ..self }),
    {
        Arg { long: Some(l), ..self }
    }

    /// Sets the short form of the argument.
    pub fn short(self, s: char) -> (arg: Self)
        ensures
            arg == (Arg { short: Some(s), ..self }),
    {
        Arg { short: Some(s), ..self }
    }

    /// Makes the argument a flag.
    pub fn flag(self) -> (arg: Self)
        ensures
            arg == (Arg { flag: true, ..self }),
    {
        Arg { flag: true, ..self }
    }

    /// Says whether the argument takes a value.
    pub fn takes_value(self, b: bool) -> (arg: Self)
        ensures
            arg == (Arg { takes_value: b, ..self }),
    {
        Arg { takes_value: b, ..self }
    }
}

/// `i` is the place of the argument of the given name.
pub open spec fn declares<'d>(declared: Seq<Arg<'d>>, name: Seq<char>, i: int) -> bool {
    0 <= i < declared.len() && declared[i].name@ == name
}

/// No two arguments have the same name.
pub open spec fn distinct_names<'d>(declared: Seq<Arg<'d>>) -> bool {
    forall|i: int, j: int|
        0 <= i < j < declared.len() ==> (#[trigger] declared[i]).name@ != (#[trigger] declared[j]).name@
}

/// Whether two texts are the same.
fn same_text(a: &str, b: &str) -> (same: bool)
    ensures
        same == (a@ == b@),
{
    let left = String::from_str(a);
    let right = String::from_str(b);
    left == right
}

/// A program's command line and the arguments that it declares, each name
/// once.
pub struct Program<'d> {
    raw: Vec<String>,
    args: Vec<Arg<'d>>,
}

impl<'d> Program<'d> {
    /// The command line as it was given.
    pub closed spec fn command_line(self) -> Seq<String> {
        self.raw@
    }

    /// The declared arguments, in the order in which their names were first
    /// declared.
    pub closed spec fn declared(self) -> Seq<Arg<'d>> {
        self.args@
    }

    #[verifier::type_invariant]
    closed spec fn inv(self) -> bool {
        distinct_names(self.args@)
    }

    /// A program with the given command line that declares no argument yet.
    pub fn new(args: Vec<String>) -> (program: Program<'d>)
        ensures
            program.command_line() == args@,
            program.declared().len() == 0,
    {
        Program { raw: args, args: Vec::new() }
    }

    /// Declares an argument. An argument declared before under the same name
    /// gives way to the new one, in its place; a new name is added at the end.
    #[verifier::loop_isolation(false)]
    pub fn arg(self, arg: Arg<'d>) -> (program: Self)
        ensures
            program.command_line() == self.command_line(),
            distinct_names(program.declared()),
            (exists|i: int| declares(self.declared(), arg.name@, i)) ==> exists|i: int|
                declares(self.declared(), arg.name@, i) && program.declared()
                    == self.declared().update(i, arg),
            !(exists|i: int| declares(self.declared(), arg.name@, i)) ==> program.declared()
                == self.declared().push(arg),
    {
        proof {
            use_type_invariant(&self);
        }
        let ghost before = self.args@;
        let Program { raw, args } = self;
        let mut args = args;
        let mut i: usize = 0;
        while i < args.len()
            invariant
                i <= args.len(),
                args@ == before,
                distinct_names(before),
                forall|k: int| 0 <= k < i ==> !declares(before, arg.name@, k),
            decreases args.len() - i,
        {
            if same_text(args[i].name, arg.name) {
                assert(declares(before, arg.name@, i as int));
                args[i] = arg;
                assert(args@ == before.update(i as int, arg));
                assert(distinct_names(args@)) by {
                    assert forall|a: int, b: int| 0 <= a < b < args@.len() implies (#[trigger] args@[a]).name@
                        != (#[trigger] args@[b]).name@ by {
                        assert(before[a].name@ != before[b].name@);
                    }
                }
                return Program { raw, args };
            }
            i = i + 1;
        }
        args.push(arg);
        assert(distinct_names(args@)) by {
            assert forall|a: int, b: int| 0 <= a < b < args@.len() implies (#[trigger] args@[a]).name@
                != (#[trigger] args@[b]).name@ by {
                if b < before.len() {
                    assert(before[a].name@ != before[b].name@);
                } else {
                    assert(!declares(before, arg.name@, a));
                }
            }
        }
        Program { raw, args }
    }

    /// The argument declared under a name, if there is one.
    pub fn get(&self, name: &str) -> (found: Option<Arg<'d>>)
        ensures
            match found {
                Some(a) => exists|i: int|
                    declares(self.declared(), name@, i) && self.declared()[i] == a,
                None => forall|i: int| !declares(self.declared(), name@, i),
            },
    {
        let mut i: usize = 0;
        while i < self.args.len()
            invariant
                i <= self.args.len(),
                forall|k: int| 0 <= k < i ==> !declares(self.args@, name@, k),
            decreases self.args.len() - i,
        {
            if same_text(self.args[i].name, name) {
                assert(declares(self.declared(), name@, i as int));
                return Some(self.args[i]);
            }
            i = i + 1;
        }
        None
    }

    /// How many arguments are declared.
    pub fn len(&self) -> (n: usize)
        ensures
            n == self.declared().len(),
    {
        self.args.len()
    }
}

} // verus!
