//! The port matcher: from a binding's pattern to one of the ports at hand.

use vstd::prelude::*;
use crate::binding::{binding_of, resolve_binding, Binding, BindingModel, ConfigError};
use crate::conf::Input;
use crate::text::{contains, contains_text};

verus! {

/// `index` is the first port whose name holds the pattern.
pub open spec fn is_first_match(names: Seq<String>, pattern: Seq<char>, index: int) -> bool {
    &&& 0 <= index < names.len()
    &&& contains(names[index]@, pattern)
    &&& forall|j: int| 0 <= j < index ==> !contains(#[trigger] names[j]@, pattern)
}

/// No port's name holds the pattern.
pub open spec fn no_match(names: Seq<String>, pattern: Seq<char>) -> bool {
    forall|j: int| 0 <= j < names.len() ==> !contains(#[trigger] names[j]@, pattern)
}

/// Picks the first port, in the order given, whose name holds `pattern`.
pub fn find_port(pattern: &str, names: &Vec<String>) -> (port: Option<usize>)
    ensures
        match port {
            Some(index) => is_first_match(names@, pattern@, index as int),
            None => no_match(names@, pattern@),
        },
{
    let mut i: usize = 0;
    while i < names.len()
        invariant
            i <= names.len(),
            forall|j: int| 0 <= j < i ==> !contains(#[trigger] names[j]@, pattern@),
        decreases names.len() - i,
    {
        if contains_text(names[i].as_str(), pattern) {
            return Some(i);
        }
        i += 1;
    }
    None
}

/// A binding together with the port that was picked for it: the port's place
/// among the names that were offered.
#[derive(Debug, PartialEq, Eq)]
pub struct ResolvedBinding {
    pub binding: Binding,
    pub port: usize,
}

/// Validates a configured input and picks its port among `names`. An input
/// that is not valid is an error, whether a port matches or not; a valid
/// input that no port matches is skipped, which is `Ok(None)`.
pub fn resolve_input(input: &Input, names: &Vec<String>) -> (resolved: Result<
    Option<ResolvedBinding>,
    ConfigError,
>)
    ensures
        match resolved {
            Err(e) => binding_of(*input) == Err::<BindingModel, ConfigError>(e),
            Ok(None) => binding_of(*input) is Ok && no_match(names@, input.port@),
            Ok(Some(r)) => binding_of(*input) == Ok::<BindingModel, ConfigError>(r.binding@)
                && r.binding.well_formed() && is_first_match(names@, input.port@, r.port as int),
        },
{
    let binding = match resolve_binding(input) {
        Ok(b) => b,
        Err(e) => { return Err(e); },
    };
    match find_port(input.port.as_str(), names) {
        Some(port) => Ok(Some(ResolvedBinding { binding, port })),
        None => Ok(None),
    }
}

} // verus!
