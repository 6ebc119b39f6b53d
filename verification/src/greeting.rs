use vstd::prelude::*;
use vstd::string::StringExecFns;

verus! {

/// The fixed text that the greeting puts before the name.
pub open spec fn greeting_prefix() -> Seq<char> {
    "Hello, "@
}

/// The fixed text that the greeting puts after the name.
pub open spec fn greeting_suffix() -> Seq<char> {
    "! You've been greeted from Rust!"@
}

/// The whole greeting for a name: the fixed template with the name in
/// its slot.
pub open spec fn greeting_of(name: Seq<char>) -> Seq<char> {
    greeting_prefix() + name + greeting_suffix()
}

/// Builds the greeting for `name`.
pub fn greet(name: &str) -> (r: String)
    ensures
        r@ == greeting_of(name@),
{
    let mut r: String = "Hello, ".to_owned();
    r.append(name);
    r.append("! You've been greeted from Rust!");
    r
}

/// The greeting carries the name between the template's two fixed parts:
/// the text before the name is the template's prefix, the middle is the
/// name itself, and the text after it is the template's suffix.
pub proof fn lemma_greeting_carries_name(name: Seq<char>)
    ensures
        greeting_of(name).len() == greeting_prefix().len() + name.len() + greeting_suffix().len(),
        greeting_of(name).subrange(0, greeting_prefix().len() as int) == greeting_prefix(),
        greeting_of(name).subrange(
            greeting_prefix().len() as int,
            (greeting_prefix().len() + name.len()) as int,
        ) == name,
        greeting_of(name).subrange(
            (greeting_prefix().len() + name.len()) as int,
            greeting_of(name).len() as int,
        ) == greeting_suffix(),
{
}

} // verus!
