//! The alias record: a name bound to an ordered list of command templates.

use vstd::prelude::*;

verus! {

/// One stored alias: a name and the ordered command templates bound to it.
///
/// Records are never mutated in place; re-registering an alias appends a
/// second record, and lookup takes the first match.
#[derive(Debug, Clone)]
pub struct Command {
    alias: String,
    commands: Vec<String>,
}

impl Command {
    /// The alias name, as a sequence of characters.
    pub closed spec fn spec_alias(&self) -> Seq<char> {
        self.alias@
    }

    /// The command templates, each as a sequence of characters.
    pub closed spec fn spec_commands(&self) -> Seq<Seq<char>> {
        self.commands.deep_view()
    }

    pub fn new(alias: String, commands: Vec<String>) -> (r: Self)
        ensures
            r.spec_alias() == alias@,
            r.spec_commands() == commands.deep_view(),
    {
        Command { alias, commands }
    }

    pub fn alias(&self) -> (r: &str)
        ensures
            r@ == self.spec_alias(),
    {
        self.alias.as_str()
    }

    pub fn commands(&self) -> (r: Vec<&str>)
        ensures
            r.deep_view() == self.spec_commands(),
    {
        let mut out: Vec<&str> = Vec::new();
        let n = self.commands.len();
        let mut i: usize = 0;
        while i < n
            invariant
                n == self.commands.len(),
                i <= n,
                out@.len() == i,
                out.deep_view() == self.commands.deep_view().take(i as int),
            decreases n - i,
        {
            let s: &String = &self.commands[i];
            out.push(s.as_str());
            proof {
                assert(out.deep_view() =~~= self.commands.deep_view().take(i + 1 as int));
            }
            i = i + 1;
        }
        proof {
            assert(out.deep_view() =~~= self.commands.deep_view());
        }
        out
    }
}

} // verus!
