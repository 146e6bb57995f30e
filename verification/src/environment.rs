//! The environment variables of the process, as a list that the caller takes
//! once and hands in. Clients look their credentials up here when none is
//! given.

use crate::errors::{ConfigError, ConfigErrorKind};
use crate::text::same_text;
use vstd::prelude::*;
use vstd::string::*;

verus! {

/// One environment variable.
#[derive(Clone, Debug, PartialEq, Eq)]
pub struct Variable {
    pub name: String,
    pub value: String,
}

/// The environment variables that were set when the list was taken.
#[derive(Clone, Debug, PartialEq, Eq)]
pub struct Environment {
    pub variables: Vec<Variable>,
}

/// The value of the first variable of that name from place `from` on.
pub open spec fn first_value(variables: Seq<Variable>, name: Seq<char>, from: int) -> Option<
    Seq<char>,
>
    decreases variables.len() - from,
{
    if from < 0 || from >= variables.len() {
        None
    } else if variables[from].name@ == name {
        Some(variables[from].value@)
    } else {
        first_value(variables, name, from + 1)
    }
}

impl Environment {
    /// The value of the variable `name`; none where it is not set.
    pub open spec fn value_of(&self, name: Seq<char>) -> Option<Seq<char>> {
        first_value(self.variables@, name, 0)
    }

    /// An environment in which nothing is set.
    pub fn empty() -> (r: Environment)
        ensures
            forall|name: Seq<char>| r.value_of(name) is None,
    {
        Environment { variables: Vec::new() }
    }

    /// The value of the variable `name`, if it is set.
    pub fn get(&self, name: &str) -> (r: Option<String>)
        ensures
            match r {
                Some(value) => self.value_of(name@) == Some(value@),
                None => self.value_of(name@) is None,
            },
    {
        let mut i: usize = 0;
        while i < self.variables.len()
            invariant
                i <= self.variables@.len(),
                self.value_of(name@) == first_value(self.variables@, name@, i as int),
            decreases self.variables@.len() - i,
        {
            if same_text(self.variables[i].name.as_str(), name) {
                return Some(self.variables[i].value.clone());
            }
            i += 1;
        }
        None
    }
}

/// The value of the environment variable `key`, or the error that names it.
pub fn try_env_var(environment: &Environment, key: &str) -> (r: Result<String, ConfigError>)
    ensures
        match r {
            Ok(value) => environment.value_of(key@) == Some(value@),
            Err(error) => environment.value_of(key@) is None && error.kind
                == ConfigErrorKind::MissingVariable && error.detail@ == key@,
        },
{
    match environment.get(key) {
        Some(value) => Ok(value),
        None => Err(ConfigError::new(ConfigErrorKind::MissingVariable, key)),
    }
}

} // verus!
