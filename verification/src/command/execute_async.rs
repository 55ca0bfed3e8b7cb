//! The asynchronous script step.

use crate::error::{outcome_view, RunnerErrorKind};
use crate::store::VarStore;
use crate::webdriver::{json_view, Request, RequestView};
use serde_json::Value;
use vstd::prelude::*;

verus! {

/// Runs a script that signals its completion itself, and may bind what it
/// returned to a variable.
#[derive(Debug)]
pub struct ExecuteAsync {
    variable: Option<String>,
    script: String,
}

impl ExecuteAsync {
    /// The script's text.
    pub closed spec fn spec_script(&self) -> Seq<char> {
        self.script@
    }

    /// The name to bind the result to, if any.
    pub closed spec fn spec_variable(&self) -> Option<Seq<char>> {
        match self.variable {
            Some(v) => Some(v@),
            None => None,
        }
    }

    pub fn new(script: String, variable: Option<String>) -> (r: Self)
        ensures
            r.spec_script() == script@,
            r.spec_variable() == (match variable {
                Some(v) => Some(v@),
                None => None::<Seq<char>>,
            }),
    {
        Self { script, variable }
    }

    /// What the command asks of the session: to run the script
    /// asynchronously, with every recorded variable as a named argument.
    pub fn request(&self, data: &VarStore) -> (q: Request)
        requires
            data.wf(),
        ensures
            q@ == (RequestView::Execute {
                script: self.spec_script(),
                names: data.keys(),
                args: data.values_in_order(),
                asynchronous: true,
            }),
    {
        let (names, args) = data.bindings();
        Request::Execute { script: self.script.clone(), names, args, asynchronous: true }
    }

    /// The binding that the command makes of a script's result.
    pub open spec fn binding(&self, result: Result<Value, RunnerErrorKind>) -> Option<
        (Seq<char>, Value),
    > {
        match (result, self.spec_variable()) {
            (Ok(v), Some(name)) => Some((name, v)),
            _ => None,
        }
    }

    /// Takes the script's result. A failure is passed on and binds nothing.
    /// A value is bound to the variable, if the command names one, in place
    /// of whatever the name was bound to.
    pub fn finish(&self, result: Result<Value, RunnerErrorKind>, data: &mut VarStore) -> (r: Result<
        (),
        RunnerErrorKind,
    >)
        requires
            old(data).wf(),
        ensures
            final(data).wf(),
            outcome_view(r) == (match json_view(result) {
                Ok(_) => Ok(()),
                Err(e) => Err(e),
            }),
            match self.binding(result) {
                Some((name, value)) => final(data).is_insert_of(*old(data), name, value),
                None => *final(data) == *old(data),
            },
    {
        match result {
            Ok(value) => {
                match &self.variable {
                    Some(var) => {
                        data.insert(var.clone(), value);
                    },
                    None => {},
                }
                Ok(())
            },
            Err(e) => Err(e),
        }
    }
}

} // verus!
