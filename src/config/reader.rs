use vstd::prelude::*;

use std::collections::HashMap;

verus! {

/// Whether a text avoids `$`, `{` and `}`, which envsubst refuses in
/// variable names and values.
pub open spec fn substitutable(t: Seq<char>) -> bool {
    forall|i: int| 0 <= i < t.len() ==> t[i] != '$' && t[i] != '{' && t[i] != '}'
}

/// Whether every variable name and value is substitutable.
pub open spec fn all_substitutable(variables: Seq<(String, String)>) -> bool {
    forall|i: int|
        0 <= i < variables.len() ==> substitutable(#[trigger] variables[i].0@) && substitutable(
            variables[i].1@,
        )
}

/// Whether some variable name is not substitutable.
pub open spec fn some_name_refused(variables: Seq<(String, String)>) -> bool {
    exists|i: int| 0 <= i < variables.len() && !substitutable(#[trigger] variables[i].0@)
}

/// Relies on `envsubst::substitute`, on the variables collected into a map:
/// without variables the template comes back unchanged; it succeeds where
/// every name and value is substitutable, and fails where a name is not.
#[verifier::external_body]
fn substitute_variables(template: &str, variables: &Vec<(String, String)>) -> (r: Option<String>)
    ensures
        variables@.len() == 0 ==> r is Some && r->0@ == template@,
        all_substitutable(variables@) ==> r is Some,
        some_name_refused(variables@) ==> r is None,
{
    let map: HashMap<String, String> = variables.iter().cloned().collect();
    envsubst::substitute(template, &map).ok()
}

/// The configuration text could not be substituted.
#[derive(Debug, Clone, Copy, PartialEq, Eq, Structural)]
pub enum ReaderError {
    Substitution,
}

/// Prepares configuration text before it is parsed.
pub struct ConfigReader;

impl ConfigReader {
    /// Replaces the `${NAME}` placeholders of the configuration text with the
    /// values of the given (environment) variables.
    pub fn substitute(conf: &str, variables: &Vec<(String, String)>) -> (r: Result<
        String,
        ReaderError,
    >)
        ensures
            variables@.len() == 0 ==> r is Ok && r->Ok_0@ == conf@,
            all_substitutable(variables@) ==> r is Ok,
            some_name_refused(variables@) ==> r == Err::<String, ReaderError>(
                ReaderError::Substitution,
            ),
    {
        match substitute_variables(conf, variables) {
            Some(text) => Ok(text),
            None => Err(ReaderError::Substitution),
        }
    }
}

} // verus!
