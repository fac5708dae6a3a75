use vstd::prelude::*;

verus! {

use vstd::string::StringExecFns;

/// The greeting name used when the request supplies none.
pub open spec fn spec_effective_name(name: Option<String>) -> Seq<char> {
    match name {
        None => "world"@,
        Some(n) => if n@.len() == 0 {
            "world"@
        } else {
            n@
        },
    }
}

/// The name the greeting uses: the one given, or `world` when it is
/// absent or empty.
pub fn effective_name(name: Option<String>) -> (r: String)
    ensures
        r@ == spec_effective_name(name),
{
    match name {
        None => String::from_str("world"),
        Some(n) => {
            if n.as_str().is_empty() {
                String::from_str("world")
            } else {
                n
            }
        },
    }
}

/// Builds the greeting body for a given name.
pub fn greet(name: &str) -> (r: String)
    ensures
        r@ == "Hello, "@ + name@ + "!"@,
{
    let mut r = String::from_str("Hello, ");
    r.append(name);
    r.append("!");
    r
}

/// The whole greeting endpoint body: the optional query name, defaulted,
/// spliced into the greeting.
pub fn hello_reply(name: Option<String>) -> (r: String)
    ensures
        r@ == "Hello, "@ + spec_effective_name(name) + "!"@,
{
    let n = effective_name(name);
    greet(n.as_str())
}

} // verus!
