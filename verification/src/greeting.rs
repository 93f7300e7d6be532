//! The greeter: a name goes in, a fixed sentence around that name comes out.

use vstd::prelude::*;
use vstd::string::StringExecFns;

verus! {

/// What stands before the name in every greeting.
pub open spec fn greeting_prefix() -> Seq<char> {
    "Hello, "@
}

/// What stands after the name in every greeting.
pub open spec fn greeting_suffix() -> Seq<char> {
    "! You've been greeted from Rust!"@
}

/// The greeting for `name`: prefix, the name as it is, suffix.
pub open spec fn greeting_text(name: Seq<char>) -> Seq<char> {
    greeting_prefix() + name + greeting_suffix()
}

/// Greets `name`. Any text is taken as it is, the empty one too; nothing is
/// trimmed, escaped or checked.
pub fn greet(name: &str) -> (greeting: String)
    ensures
        greeting@ == greeting_text(name@),
{
    let mut greeting = String::from_str("Hello, ");
    greeting.append(name);
    greeting.append("! You've been greeted from Rust!");
    greeting
}

/// The greeter puts the name in unchanged: the greeting is 39 characters
/// longer than the name, the name stands in it from position 7 on, and what
/// surrounds it does not depend on the name.
pub proof fn greeting_holds_name_verbatim(name: Seq<char>)
    ensures
        greeting_text(name).len() == name.len() + 39,
        greeting_text(name).subrange(0, 7) == greeting_prefix(),
        greeting_text(name).subrange(7, 7 + name.len() as int) == name,
        greeting_text(name).subrange(7 + name.len() as int, 39 + name.len() as int)
            == greeting_suffix(),
{
    reveal_strlit("Hello, ");
    reveal_strlit("! You've been greeted from Rust!");
    let g = greeting_text(name);
    let n = name.len() as int;
    assert(g.subrange(0, 7) =~= greeting_prefix());
    assert(g.subrange(7, 7 + n) =~= name);
    assert(g.subrange(7 + n, 39 + n) =~= greeting_suffix());
}

/// Two names that get the same greeting are the same name.
pub proof fn greeting_tells_names_apart(a: Seq<char>, b: Seq<char>)
    requires
        greeting_text(a) == greeting_text(b),
    ensures
        a == b,
{
    greeting_holds_name_verbatim(a);
    greeting_holds_name_verbatim(b);
}

} // verus!
