use vstd::prelude::*;

verus! {

/// Routes slash-command interactions to the registered commands by name.
#[derive(Debug, Clone)]
pub struct Handler {
    /// The names of the registered commands, in registration order.
    pub commands: Vec<String>,
}

impl Handler {
    /// The index of the first registered command called `name`, if any.
    pub fn find_command(&self, name: &str) -> (r: Option<usize>)
        ensures
            r matches Some(i) ==> i < self.commands@.len() && self.commands@[i as int]@ == name@
                && forall|j: int| 0 <= j < i ==> self.commands@[j]@ != name@,
            r is None ==> forall|j: int|
                0 <= j < self.commands@.len() ==> self.commands@[j]@ != name@,
    {
        let key = String::from_str(name);
        let mut i: usize = 0;
        while i < self.commands.len()
            invariant
                i <= self.commands@.len(),
                key@ == name@,
                forall|j: int| 0 <= j < i ==> self.commands@[j]@ != name@,
            decreases self.commands@.len() - i,
        {
            if self.commands[i] == key {
                return Some(i);
            }
            i = i + 1;
        }
        None
    }
}

} // verus!
