use vstd::prelude::*;
use vstd::string::StringExecFns;

verus! {

/// The text that opens every greeting.
pub open spec fn greeting_prefix() -> Seq<char> {
    "Hello, "@
}

/// The text that closes every greeting.
pub open spec fn greeting_suffix() -> Seq<char> {
    "! You've been greeted from Rust!"@
}

/// The greeting for `name`: the name set verbatim between the fixed prefix and suffix.
pub open spec fn greeting(name: Seq<char>) -> Seq<char> {
    greeting_prefix() + name + greeting_suffix()
}

/// Builds the greeting for `name`, keeping the name exactly as given.
pub fn greet(name: &str) -> (r: String)
    ensures
        r@ == greeting(name@),
{
    let mut r = String::from_str("Hello, ");
    r.append(name);
    r.append("! You've been greeted from Rust!");
    r
}

/// A greeting depends on the name alone, and different names never share a
/// greeting: equal names give equal greetings and equal greetings come from
/// equal names.
pub proof fn lemma_greeting_determined_by_name(a: Seq<char>, b: Seq<char>)
    ensures
        (greeting(a) == greeting(b)) == (a == b),
{
    let p: int = greeting_prefix().len() as int;
    if greeting(a) == greeting(b) {
        assert(greeting(a).len() == greeting(b).len());
        assert(greeting(a).subrange(p, p + a.len()) =~= a);
        assert(greeting(b).subrange(p, p + b.len()) =~= b);
    }
}

/// Greeting a list of distinct names gives one greeting per name, each the
/// greeting of that name and no two alike.
pub proof fn lemma_distinct_names_distinct_greetings(names: Seq<Seq<char>>)
    requires
        names.no_duplicates(),
    ensures
        names.map_values(|n: Seq<char>| greeting(n)).len() == names.len(),
        forall|i: int|
            0 <= i < names.len() ==> names.map_values(|n: Seq<char>| greeting(n))[i] == greeting(
                names[i],
            ),
        names.map_values(|n: Seq<char>| greeting(n)).no_duplicates(),
{
    let gs = names.map_values(|n: Seq<char>| greeting(n));
    assert forall|i: int, j: int| 0 <= i < gs.len() && 0 <= j < gs.len() && i != j implies gs[i]
        != gs[j] by {
        lemma_greeting_determined_by_name(names[i], names[j]);
    }
}

} // verus!
