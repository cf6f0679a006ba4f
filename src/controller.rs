use vstd::prelude::*;
use vstd::string::StrSliceExecFns;
use vstd::string::StringExecFns;

use crate::model::get_greeting;
use crate::model::greeting_text;

verus! {

/// The one action name with a handler of its own; matched exactly, case included.
pub open spec fn greet_action() -> Seq<char> {
    "greet"@
}

/// What precedes the action's name in the reply to an action with no handler.
pub open spec fn unknown_prefix() -> Seq<char> {
    "Unknown action: "@
}

/// The line that answers `action`, without its line terminator.
pub open spec fn response_for(action: Seq<char>) -> Seq<char> {
    if action == greet_action() {
        greeting_text()
    } else {
        unknown_prefix() + action
    }
}

/// Whether `action` names the greet action, compared character by character.
pub fn is_greet_action(action: &str) -> (r: bool)
    ensures
        r == (action@ == greet_action()),
{
    let target = "greet";
    proof {
        reveal_strlit("greet");
    }
    let n = action.unicode_len();
    if n != target.unicode_len() {
        return false;
    }
    let mut i: usize = 0;
    while i < n
        invariant
            n == action@.len(),
            n == target@.len(),
            target@ == greet_action(),
            i <= n,
            forall|j: int| 0 <= j < i ==> action@[j] == target@[j],
        decreases n - i,
    {
        if action.get_char(i) != target.get_char(i) {
            return false;
        }
        i = i + 1;
    }
    assert(action@ =~= target@);
    true
}

/// The reply to the greet action: the greeting, as the model gives it.
pub fn handle_greet() -> (r: String)
    ensures
        r@ == greeting_text(),
{
    get_greeting()
}

/// The reply to an action that has no handler: the prefix, then the action as given.
pub fn handle_unknown(action: &str) -> (r: String)
    ensures
        r@ == unknown_prefix() + action@,
{
    let prefix = String::from_str("Unknown action: ");
    prefix.concat(action)
}

/// Chooses the reply to `action`: the greeting for `greet`, a notice for any other text.
pub fn dispatch(action: &str) -> (r: String)
    ensures
        r@ == response_for(action@),
{
    if is_greet_action(action) {
        handle_greet()
    } else {
        handle_unknown(action)
    }
}

/// Whether `s` fits on one output line: it holds no line feed.
pub open spec fn is_one_line(s: Seq<char>) -> bool {
    !s.contains('\n')
}

/// Any action other than `greet`, whatever its case or length, empty included, is
/// answered with the prefix followed by the action exactly as given. That reply is
/// never the greeting, and it is a single line whenever the action is.
pub proof fn lemma_other_action_reply(s: Seq<char>)
    requires
        s != greet_action(),
    ensures
        response_for(s) == unknown_prefix() + s,
        response_for(s) != greeting_text(),
        is_one_line(s) ==> is_one_line(response_for(s)),
{
    reveal_strlit("Unknown action: ");
    reveal_strlit("Hello, welcome to your day planner!");
    let r = response_for(s);
    assert(r[0] == 'U');
    assert(greeting_text()[0] == 'H');
    if is_one_line(s) {
        assert forall|i: int| 0 <= i < r.len() implies r[i] != '\n' by {
            if i >= unknown_prefix().len() {
                assert(r[i] == s[i - unknown_prefix().len()]);
            }
        }
    }
}

/// The action `greet` is answered with the greeting alone: a non-empty text on a
/// single line.
pub proof fn lemma_greet_action_reply()
    ensures
        response_for(greet_action()) == greeting_text(),
        greeting_text().len() > 0,
        is_one_line(greeting_text()),
{
    reveal_strlit("Hello, welcome to your day planner!");
    let g = greeting_text();
    assert forall|i: int| 0 <= i < g.len() implies g[i] != '\n' by {}
}

} // verus!
