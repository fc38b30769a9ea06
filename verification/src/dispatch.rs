//! The verb dispatcher: from the full argument list to a single
//! tagged plan, so that exit-code translation and all process spawning
//! stay at the very top of the program.

use vstd::prelude::*;
use crate::command::{build_invocation, built_invocation, verb_direct, verb_requires_packages,
    Invocation};
use crate::distance::{edit_dist, lemma_edit_dist_ge_len_diff};
use crate::suggest::{suggest_command, suggestion_ok, SUGGESTION_THRESHOLD};
use crate::verbs::{lemma_vocab_entries, parse_verb, verb_of, vocab, vocabulary, Verb};

verus! {

/// The resolved action for one run.
pub enum Plan {
    /// Print the usage text; exit 1 when no verb was supplied, 0 when
    /// the verb was `help`.
    Usage { error: bool },
    /// A verb that demands package names got none: report and exit 1
    /// without spawning anything.
    MissingPackages,
    /// Spawn the resolved invocation in direct mode.
    Run(Invocation),
    /// Run the two-process autoremove pipeline.
    Autoremove,
    /// The verb is not in the vocabulary: print the suggestion, or a
    /// plain unknown-command message, and exit 0.
    Unknown { suggestion: Option<String> },
}

/// The view of an optional owned string.
pub open spec fn view_of_opt_string(r: Option<String>) -> Option<Seq<char>> {
    match r {
        Some(s) => Some(s@),
        None => None,
    }
}

/// Maps the argument list (program name first) to the plan for the
/// run: usage on a missing verb, the builder's table on a known verb,
/// the suggestion engine on an unknown one.
pub fn dispatch(args: &Vec<String>) -> (p: Plan)
    ensures
        args@.len() <= 1 ==> p == (Plan::Usage { error: true }),
        args@.len() >= 2 && verb_of(args@[1]@) == Some(Verb::Help) ==> p == (Plan::Usage {
            error: false,
        }),
        args@.len() >= 2 && verb_of(args@[1]@) == Some(Verb::Autoremove) ==> p is Autoremove,
        args@.len() >= 2 && (verb_of(args@[1]@) matches Some(v) && verb_direct(v)
            && verb_requires_packages(v)) && args@.len() == 2 ==> p is MissingPackages,
        args@.len() >= 2 && (verb_of(args@[1]@) matches Some(v) && verb_direct(v) && !(
        verb_requires_packages(v) && args@.len() == 2)) ==> (p matches Plan::Run(inv)
            && built_invocation(inv, verb_of(args@[1]@)->Some_0, args@.skip(2))),
        args@.len() >= 2 && verb_of(args@[1]@) is None ==> (p matches Plan::Unknown { suggestion }
            && suggestion_ok(args@[1]@, vocab(), view_of_opt_string(suggestion))),
{
    if args.len() <= 1 {
        return Plan::Usage { error: true };
    }
    let s = args.as_slice();
    let verb_str: &String = &s[1];
    match parse_verb(verb_str.as_str()) {
        Some(Verb::Help) => Plan::Usage { error: false },
        Some(Verb::Autoremove) => Plan::Autoremove,
        Some(v) => {
            let rest: &[String] = &s[2..s.len()];
            proof {
                assert(rest@ =~= args@.skip(2));
            }
            match build_invocation(v, rest) {
                Ok(inv) => Plan::Run(inv),
                Err(_) => Plan::MissingPackages,
            }
        },
        None => {
            let token = verb_str.as_str();
            let token_len = token.unicode_len();
            if token_len < usize::MAX {
                let commands = vocabulary();
                proof {
                    lemma_vocab_entries();
                    assert forall|j: int| 0 <= j < commands@.len() implies (#[trigger] commands@[j])@.len()
                        < usize::MAX by {
                        assert(crate::verbs::views_of(commands@)[j] == commands@[j]@);
                    }
                }
                let found = suggest_command(token, commands.as_slice());
                match found {
                    Some(entry) => Plan::Unknown { suggestion: Some(entry.to_owned()) },
                    None => Plan::Unknown { suggestion: None },
                }
            } else {
                proof {
                    lemma_vocab_entries();
                    assert forall|j: int| 0 <= j < vocab().len() implies edit_dist(
                        token@,
                        #[trigger] vocab()[j],
                    ) > SUGGESTION_THRESHOLD by {
                        lemma_edit_dist_ge_len_diff(token@, vocab()[j]);
                    }
                }
                Plan::Unknown { suggestion: None }
            }
        },
    }
}

impl Plan {
    /// The exit code the plan settles on its own, before any external
    /// process runs; `None` when the code depends on what a spawned
    /// process does.
    pub fn immediate_exit_code(&self) -> (c: Option<i32>)
        ensures
            self matches Plan::Usage { error } ==> c == Some(
                if *error {
                    1i32
                } else {
                    0i32
                },
            ),
            self is MissingPackages ==> c == Some(1i32),
            self is Unknown ==> c == Some(0i32),
            self is Run ==> c is None,
            self is Autoremove ==> c is None,
    {
        match self {
            Plan::Usage { error } => Some(
                if *error {
                    1
                } else {
                    0
                },
            ),
            Plan::MissingPackages => Some(1),
            Plan::Unknown { .. } => Some(0),
            Plan::Run(..) => None,
            Plan::Autoremove => None,
        }
    }
}

/// The usage text printed for `help` and for a run without a verb.
pub fn usage_text() -> (s: &'static str)
    ensures
        s@
            == "Usage:\n
            apt-arch install <package> - installs a package\n
            apt-arch remove <package> - deletes a package, can also use the verb `uninstall`\n
            apt-arch update - updates package sources\n
            apt-arch forceupdate - download package sources from scratch\n
            apt-arch clean - cleans unused package and repository caches
            apt-arch upgrade - performs a system upgrade\n
            apt-arch search <package> - searches for a package in sources\n
            apt-arch show <package> - shows info about a package
            apt-arch download <package> - downloads the files for the package, but doesn't
            apt-arch list - lists all installable packages\n
            apt-arch installed - lists currently installed packages\n
            apt-arch autoremove - removes unused packages
            \n
            --------------------------------------------------------\n
            \n
            apt-arch help - prints this help text\n"@,
{
    "Usage:\n
            apt-arch install <package> - installs a package\n
            apt-arch remove <package> - deletes a package, can also use the verb `uninstall`\n
            apt-arch update - updates package sources\n
            apt-arch forceupdate - download package sources from scratch\n
            apt-arch clean - cleans unused package and repository caches
            apt-arch upgrade - performs a system upgrade\n
            apt-arch search <package> - searches for a package in sources\n
            apt-arch show <package> - shows info about a package
            apt-arch download <package> - downloads the files for the package, but doesn't
            apt-arch list - lists all installable packages\n
            apt-arch installed - lists currently installed packages\n
            apt-arch autoremove - removes unused packages
            \n
            --------------------------------------------------------\n
            \n
            apt-arch help - prints this help text\n"
}

/// The exit code after a direct-mode spawn: success whenever the
/// process could be run at all, regardless of its own exit code, and
/// failure only when it could not be launched.
pub fn launch_exit_code(launched: bool) -> (c: i32)
    ensures
        c == if launched {
            0int
        } else {
            1int
        },
{
    if launched {
        0
    } else {
        1
    }
}

} // verus!
