//! The declarative list of deployable functions, as one invocation sees
//! it: loaded once from configuration and immutable for the run.

use vstd::prelude::*;

verus! {

/// A deployable function: its name and the path of the prebuilt bundle
/// to package and upload.
#[derive(Debug, Clone)]
pub struct Function {
    pub name: String,
    pub bundle: String,
}

/// The configuration: every function that may be deployed.
#[derive(Debug, Clone)]
pub struct Config {
    pub functions: Vec<Function>,
}

impl Config {
    /// The declared function with the given name, if any.
    pub fn find_function(&self, name: &str) -> (r: Option<&Function>)
        ensures
            r matches Some(f) ==> exists|i: int|
                0 <= i < self.functions@.len() && #[trigger] self.functions@[i] == *f
                    && f.name@ == name@,
            r is None ==> forall|i: int|
                0 <= i < self.functions@.len() ==> #[trigger] self.functions@[i].name@ != name@,
    {
        let target: String = name.to_owned();
        let mut i: usize = 0;
        while i < self.functions.len()
            invariant
                0 <= i <= self.functions@.len(),
                target@ == name@,
                forall|j: int| 0 <= j < i ==> #[trigger] self.functions@[j].name@ != name@,
            decreases self.functions@.len() - i,
        {
            if self.functions[i].name == target {
                return Some(&self.functions[i]);
            }
            i += 1;
        }
        None
    }
}

} // verus!
