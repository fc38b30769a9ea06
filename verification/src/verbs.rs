//! The fixed verb vocabulary and case-sensitive parsing of the first
//! command-line token into a verb.

use vstd::prelude::*;

verus! {

/// One action verb of the command-line surface. `Uninstall` and
/// `Remove` are distinct spellings of the same removal action.
#[derive(Clone, Copy, PartialEq, Eq, Structural, Debug)]
pub enum Verb {
    Help,
    Install,
    Uninstall,
    Remove,
    Update,
    Upgrade,
    ForceUpdate,
    Search,
    Installed,
    List,
    Download,
    Show,
    Autoremove,
    Clean,
}

/// Character-for-character string equality.
pub fn str_eq(a: &str, b: &str) -> (r: bool)
    ensures
        r == (a@ == b@),
{
    let la = a.unicode_len();
    let lb = b.unicode_len();
    if la != lb {
        return false;
    }
    let mut i: usize = 0;
    while i < la
        invariant
            la == a@.len(),
            la == b@.len(),
            i <= la,
            forall|k: int| 0 <= k < i ==> a@[k] == b@[k],
        decreases la - i,
    {
        if a.get_char(i) != b.get_char(i) {
            return false;
        }
        i = i + 1;
    }
    proof {
        assert(a@ =~= b@);
    }
    true
}

/// The verb that a token denotes, or `None` for an unrecognized token.
/// Matching is case-sensitive.
pub open spec fn verb_of(s: Seq<char>) -> Option<Verb> {
    if s == "help"@ {
        Some(Verb::Help)
    } else if s == "install"@ {
        Some(Verb::Install)
    } else if s == "uninstall"@ {
        Some(Verb::Uninstall)
    } else if s == "remove"@ {
        Some(Verb::Remove)
    } else if s == "update"@ {
        Some(Verb::Update)
    } else if s == "upgrade"@ {
        Some(Verb::Upgrade)
    } else if s == "forceupdate"@ {
        Some(Verb::ForceUpdate)
    } else if s == "search"@ {
        Some(Verb::Search)
    } else if s == "installed"@ {
        Some(Verb::Installed)
    } else if s == "list"@ {
        Some(Verb::List)
    } else if s == "download"@ {
        Some(Verb::Download)
    } else if s == "show"@ {
        Some(Verb::Show)
    } else if s == "autoremove"@ {
        Some(Verb::Autoremove)
    } else if s == "clean"@ {
        Some(Verb::Clean)
    } else {
        None
    }
}

/// Parses the first command-line token into a verb.
pub fn parse_verb(s: &str) -> (r: Option<Verb>)
    ensures
        r == verb_of(s@),
{
    if str_eq(s, "help") {
        Some(Verb::Help)
    } else if str_eq(s, "install") {
        Some(Verb::Install)
    } else if str_eq(s, "uninstall") {
        Some(Verb::Uninstall)
    } else if str_eq(s, "remove") {
        Some(Verb::Remove)
    } else if str_eq(s, "update") {
        Some(Verb::Update)
    } else if str_eq(s, "upgrade") {
        Some(Verb::Upgrade)
    } else if str_eq(s, "forceupdate") {
        Some(Verb::ForceUpdate)
    } else if str_eq(s, "search") {
        Some(Verb::Search)
    } else if str_eq(s, "installed") {
        Some(Verb::Installed)
    } else if str_eq(s, "list") {
        Some(Verb::List)
    } else if str_eq(s, "download") {
        Some(Verb::Download)
    } else if str_eq(s, "show") {
        Some(Verb::Show)
    } else if str_eq(s, "autoremove") {
        Some(Verb::Autoremove)
    } else if str_eq(s, "clean") {
        Some(Verb::Clean)
    } else {
        None
    }
}

/// The vocabulary, in the order the suggestion engine scans it.
pub open spec fn vocab() -> Seq<Seq<char>> {
    seq![
        "help"@,
        "install"@,
        "uninstall"@,
        "remove"@,
        "update"@,
        "upgrade"@,
        "forceupdate"@,
        "search"@,
        "installed"@,
        "list"@,
        "download"@,
        "show"@,
        "autoremove"@,
        "clean"@,
    ]
}

/// The views of a sequence of string slices.
pub open spec fn views_of(s: Seq<&str>) -> Seq<Seq<char>> {
    s.map_values(|t: &str| t@)
}

/// Every vocabulary entry is a recognized verb, and no entry is longer
/// than eleven characters.
pub proof fn lemma_vocab_entries()
    ensures
        forall|j: int| 0 <= j < vocab().len() ==> verb_of(#[trigger] vocab()[j]) is Some,
        forall|j: int| 0 <= j < vocab().len() ==> (#[trigger] vocab()[j]).len() <= 11,
{
    reveal_strlit("help");
    reveal_strlit("install");
    reveal_strlit("uninstall");
    reveal_strlit("remove");
    reveal_strlit("update");
    reveal_strlit("upgrade");
    reveal_strlit("forceupdate");
    reveal_strlit("search");
    reveal_strlit("installed");
    reveal_strlit("list");
    reveal_strlit("download");
    reveal_strlit("show");
    reveal_strlit("autoremove");
    reveal_strlit("clean");
    assert forall|j: int| 0 <= j < vocab().len() implies verb_of(#[trigger] vocab()[j]) is Some
        && (#[trigger] vocab()[j]).len() <= 11 by {
        if j == 0 {
            assert(verb_of(vocab()[0]) == Some(Verb::Help));
        }
    }
}

/// The vocabulary as string slices, in scan order.
pub fn vocabulary() -> (v: Vec<&'static str>)
    ensures
        views_of(v@) == vocab(),
{
    let mut v: Vec<&'static str> = Vec::new();
    v.push("help");
    v.push("install");
    v.push("uninstall");
    v.push("remove");
    v.push("update");
    v.push("upgrade");
    v.push("forceupdate");
    v.push("search");
    v.push("installed");
    v.push("list");
    v.push("download");
    v.push("show");
    v.push("autoremove");
    v.push("clean");
    proof {
        assert(views_of(v@) =~= vocab());
    }
    v
}

} // verus!
