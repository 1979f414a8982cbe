//! Action selection: scanning the command line for the first recognized
//! keyword among `status`, `start`, `stop` and `daemon`.

use vstd::prelude::*;

verus! {

/// The five dispatch outcomes of the lifecycle helper.
#[derive(Clone, Copy, PartialEq, Eq, Structural, Debug)]
pub enum Action {
    Status,
    Stop,
    Daemon,
    Start,
    Help,
}

/// A token is one of the four recognized action keywords.
pub open spec fn is_keyword(s: Seq<char>) -> bool {
    s == "status"@ || s == "start"@ || s == "daemon"@ || s == "stop"@
}

/// The keyword selected from an argument list: the first recognized
/// keyword, left to right, or `help` when none occurs.
pub open spec fn selected_keyword(args: Seq<Seq<char>>) -> Seq<char>
    decreases args.len(),
{
    if args.len() == 0 {
        "help"@
    } else if is_keyword(args[0]) {
        args[0]
    } else {
        selected_keyword(args.drop_first())
    }
}

/// The action a keyword stands for; anything unrecognized means help.
pub open spec fn action_of_keyword(kw: Seq<char>) -> Action {
    if kw == "status"@ {
        Action::Status
    } else if kw == "start"@ {
        Action::Start
    } else if kw == "daemon"@ {
        Action::Daemon
    } else if kw == "stop"@ {
        Action::Stop
    } else {
        Action::Help
    }
}

/// The action selected from an argument list.
pub open spec fn selected_action(args: Seq<Seq<char>>) -> Action {
    action_of_keyword(selected_keyword(args))
}

/// An argument list with no recognized keyword selects `help`,
/// whatever its length or content.
pub proof fn lemma_no_keyword_selects_help(args: Seq<Seq<char>>)
    requires
        forall|j: int| 0 <= j < args.len() ==> !is_keyword(args[j]),
    ensures
        selected_keyword(args) == "help"@,
    decreases args.len(),
{
    if args.len() > 0 {
        let rest = args.drop_first();
        assert forall|j: int| 0 <= j < rest.len() implies !is_keyword(rest[j]) by {
            assert(rest[j] == args[j + 1]);
        }
        lemma_no_keyword_selects_help(rest);
    }
}

/// The first occurrence of a recognized keyword determines the selection,
/// even if other recognized keywords appear later in the list.
pub proof fn lemma_first_keyword_selected(args: Seq<Seq<char>>, i: int)
    requires
        0 <= i < args.len(),
        is_keyword(args[i]),
        forall|j: int| 0 <= j < i ==> !is_keyword(args[j]),
    ensures
        selected_keyword(args) == args[i],
    decreases i,
{
    if i > 0 {
        assert(!is_keyword(args[0]));
        let rest = args.drop_first();
        assert(rest[i - 1] == args[i]);
        assert forall|j: int| 0 <= j < i - 1 implies !is_keyword(rest[j]) by {
            assert(rest[j] == args[j + 1]);
        }
        lemma_first_keyword_selected(rest, i - 1);
    }
}

/// The fallback token `help` is not itself a recognized keyword, and it
/// names the help action.
proof fn lemma_help_not_keyword()
    ensures
        !is_keyword("help"@),
        action_of_keyword("help"@) == Action::Help,
{
    reveal_strlit("help");
    reveal_strlit("status");
    reveal_strlit("start");
    reveal_strlit("daemon");
    reveal_strlit("stop");
    assert("help"@[0] == 'h');
    assert("daemon"@[0] == 'd');
    assert("stop"@[0] == 's');
    assert("help"@.len() != "start"@.len() && "help"@.len() != "status"@.len());
}

/// Classifies a single token: the action its keyword stands for, or
/// nothing when the token is not a keyword.
fn keyword_action(a: &String) -> (r: Option<Action>)
    ensures
        match r {
            Some(act) => is_keyword(a@) && act == action_of_keyword(a@),
            None => !is_keyword(a@),
        },
{
    proof {
        reveal_strlit("status");
        reveal_strlit("start");
        reveal_strlit("daemon");
        reveal_strlit("stop");
    }
    if *a == String::from_str("status") {
        Some(Action::Status)
    } else if *a == String::from_str("start") {
        Some(Action::Start)
    } else if *a == String::from_str("daemon") {
        Some(Action::Daemon)
    } else if *a == String::from_str("stop") {
        Some(Action::Stop)
    } else {
        None
    }
}

/// Returns the first recognized keyword of the argument list, or `help`
/// when none occurs.
pub fn matching(args: Vec<String>) -> (res: String)
    ensures
        res@ == selected_keyword(args.deep_view()),
{
    let ghost vargs = args.deep_view();
    let mut i: usize = 0;
    while i < args.len()
        invariant
            i <= args.len(),
            vargs == args.deep_view(),
            vargs.len() == args.len(),
            forall|j: int| 0 <= j < i ==> !is_keyword(vargs[j]),
        decreases args.len() - i,
    {
        if keyword_action(&args[i]).is_some() {
            proof {
                assert(vargs[i as int] == args@[i as int]@);
                lemma_first_keyword_selected(vargs, i as int);
            }
            return args[i].clone();
        }
        proof {
            assert(vargs[i as int] == args@[i as int]@);
        }
        i += 1;
    }
    proof {
        lemma_no_keyword_selects_help(vargs);
    }
    String::from_str("help")
}

/// Returns the action selected by the argument list: the one named by
/// its first recognized keyword, or help when none occurs.
pub fn select_action(args: &Vec<String>) -> (a: Action)
    ensures
        a == selected_action(args.deep_view()),
{
    let ghost vargs = args.deep_view();
    let mut i: usize = 0;
    while i < args.len()
        invariant
            i <= args.len(),
            vargs == args.deep_view(),
            vargs.len() == args.len(),
            forall|j: int| 0 <= j < i ==> !is_keyword(vargs[j]),
        decreases args.len() - i,
    {
        proof {
            assert(vargs[i as int] == args@[i as int]@);
        }
        if let Some(act) = keyword_action(&args[i]) {
            proof {
                lemma_first_keyword_selected(vargs, i as int);
            }
            return act;
        }
        i += 1;
    }
    proof {
        lemma_no_keyword_selects_help(vargs);
        lemma_help_not_keyword();
    }
    Action::Help
}

} // verus!
