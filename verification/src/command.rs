//! The command builder: the pure table mapping each verb to the
//! package-manager invocation it stands for.

use vstd::prelude::*;
use crate::verbs::Verb;

verus! {

/// A resolved invocation of the package manager: the binary, its
/// ordered argument list, whether it must run under the privilege
/// escalation wrapper, and whether its standard input is a pipe fed by
/// this program rather than inherited from the terminal.
pub struct Invocation {
    pub program: String,
    pub args: Vec<String>,
    pub privileged: bool,
    pub piped_stdin: bool,
}

/// A run that cannot proceed for want of arguments.
#[derive(Clone, Copy, PartialEq, Eq, Structural, Debug)]
pub enum UsageError {
    NoPackagesSpecified,
}

/// Whether the verb runs the package manager under the privilege
/// escalation wrapper.
pub open spec fn verb_privileged(v: Verb) -> bool {
    match v {
        Verb::Install | Verb::Uninstall | Verb::Remove | Verb::Update | Verb::Upgrade
            | Verb::ForceUpdate | Verb::Download | Verb::Clean => true,
        _ => false,
    }
}

/// The base flag the verb passes to the package manager. `Uninstall`
/// and `Remove` deliberately share `install`'s flag: the mapping keeps
/// the tool's established behaviour rather than a removal flag.
pub open spec fn verb_flag(v: Verb) -> Seq<char> {
    match v {
        Verb::Install | Verb::Uninstall | Verb::Remove => "-S"@,
        Verb::Update => "-Sy"@,
        Verb::Upgrade => "-Syu"@,
        Verb::ForceUpdate => "-Syy"@,
        Verb::Search | Verb::List => "-Ss"@,
        Verb::Installed => "-Q"@,
        Verb::Download => "-Sw"@,
        Verb::Show => "-Si"@,
        Verb::Clean => "-Sc"@,
        Verb::Help | Verb::Autoremove => Seq::<char>::empty(),
    }
}

/// Whether the trailing command-line arguments are appended after the
/// base flag.
pub open spec fn verb_appends_rest(v: Verb) -> bool {
    match v {
        Verb::Install | Verb::Uninstall | Verb::Remove | Verb::Search => true,
        _ => false,
    }
}

/// Whether the verb demands at least one trailing package name.
pub open spec fn verb_requires_packages(v: Verb) -> bool {
    match v {
        Verb::Install | Verb::Uninstall | Verb::Remove => true,
        _ => false,
    }
}

/// Whether the verb resolves through the builder table at all: `help`
/// and `autoremove` are handled outside it.
pub open spec fn verb_direct(v: Verb) -> bool {
    !(v is Help) && !(v is Autoremove)
}

/// What the builder owes for verb `v` and trailing arguments `rest`:
/// the package-manager binary, the verb's flag first, the trailing
/// arguments after it exactly when the verb forwards them, the verb's
/// privilege requirement, and an inherited standard input.
pub open spec fn built_invocation(inv: Invocation, v: Verb, rest: Seq<String>) -> bool {
    &&& inv.program@ == "pacman"@
    &&& inv.privileged == verb_privileged(v)
    &&& !inv.piped_stdin
    &&& inv.args@.len() == 1 + if verb_appends_rest(v) {
        rest.len() as int
    } else {
        0
    }
    &&& inv.args@[0]@ == verb_flag(v)
    &&& forall|i: int| 1 <= i < inv.args@.len() ==> (#[trigger] inv.args@[i])@ == rest[i - 1]@
}

/// Appends a copy of each of `rest` to `args`.
fn append_all(args: &mut Vec<String>, rest: &[String])
    ensures
        final(args)@.len() == old(args)@.len() + rest@.len(),
        forall|i: int| 0 <= i < old(args)@.len() ==> final(args)@[i] == old(args)@[i],
        forall|i: int|
            old(args)@.len() <= i < final(args)@.len() ==> (#[trigger] final(args)@[i])@ == rest@[i
                - old(args)@.len()]@,
{
    let mut i: usize = 0;
    while i < rest.len()
        invariant
            i <= rest@.len(),
            args@.len() == old(args)@.len() + i,
            forall|k: int| 0 <= k < old(args)@.len() ==> args@[k] == old(args)@[k],
            forall|k: int|
                old(args)@.len() <= k < args@.len() ==> (#[trigger] args@[k])@ == rest@[k - old(
                    args,
                )@.len()]@,
        decreases rest@.len() - i,
    {
        args.push(rest[i].clone());
        i = i + 1;
    }
}

/// Resolves a direct verb and its trailing arguments into the
/// invocation the table prescribes. Fails exactly when a verb that
/// demands package names gets none.
pub fn build_invocation(v: Verb, rest: &[String]) -> (r: Result<Invocation, UsageError>)
    requires
        verb_direct(v),
    ensures
        r is Err <==> verb_requires_packages(v) && rest@.len() == 0,
        r matches Ok(inv) ==> built_invocation(inv, v, rest@),
        r matches Err(e) ==> e == UsageError::NoPackagesSpecified,
{
    let needs_packages = match v {
        Verb::Install | Verb::Uninstall | Verb::Remove => true,
        _ => false,
    };
    if needs_packages && rest.len() == 0 {
        return Err(UsageError::NoPackagesSpecified);
    }
    let flag: &str = match v {
        Verb::Install | Verb::Uninstall | Verb::Remove => "-S",
        Verb::Update => "-Sy",
        Verb::Upgrade => "-Syu",
        Verb::ForceUpdate => "-Syy",
        Verb::Search | Verb::List => "-Ss",
        Verb::Installed => "-Q",
        Verb::Download => "-Sw",
        Verb::Show => "-Si",
        _ => "-Sc",
    };
    let appends = match v {
        Verb::Install | Verb::Uninstall | Verb::Remove | Verb::Search => true,
        _ => false,
    };
    let privileged = match v {
        Verb::Install | Verb::Uninstall | Verb::Remove | Verb::Update | Verb::Upgrade
            | Verb::ForceUpdate | Verb::Download | Verb::Clean => true,
        _ => false,
    };
    let mut args: Vec<String> = Vec::new();
    args.push(flag.to_owned());
    if appends {
        append_all(&mut args, rest);
    }
    Ok(Invocation { program: "pacman".to_owned(), args, privileged, piped_stdin: false })
}

/// The program actually spawned and its argument vector: the privilege
/// escalation wrapper in front of the binary when the invocation is
/// privileged, the binary itself otherwise.
pub fn command_line(inv: &Invocation) -> (r: (String, Vec<String>))
    ensures
        inv.privileged ==> {
            &&& r.0@ == "sudo"@
            &&& r.1@.len() == inv.args@.len() + 1
            &&& r.1@[0]@ == inv.program@
            &&& forall|i: int| 1 <= i < r.1@.len() ==> (#[trigger] r.1@[i])@ == inv.args@[i - 1]@
        },
        !inv.privileged ==> {
            &&& r.0@ == inv.program@
            &&& r.1@.len() == inv.args@.len()
            &&& forall|i: int| 0 <= i < r.1@.len() ==> (#[trigger] r.1@[i])@ == inv.args@[i]@
        },
{
    let mut argv: Vec<String> = Vec::new();
    if inv.privileged {
        argv.push(inv.program.clone());
        append_all(&mut argv, inv.args.as_slice());
        ("sudo".to_owned(), argv)
    } else {
        append_all(&mut argv, inv.args.as_slice());
        (inv.program.clone(), argv)
    }
}

} // verus!
