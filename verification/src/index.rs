//! The alias index: looks an alias up in a loaded record list.

use vstd::prelude::*;

use crate::record::Command;
use crate::str_eq;

verus! {

/// The template list of the first record whose alias matches, scanning in
/// order; `None` when no record matches. Duplicate aliases are possible,
/// and the first match wins.
pub open spec fn spec_find_templates(records: Seq<Command>, alias: Seq<char>) -> Option<
    Seq<Seq<char>>,
>
    decreases records.len(),
{
    if records.len() == 0 {
        None
    } else if records[0].spec_alias() == alias {
        Some(records[0].spec_commands())
    } else {
        spec_find_templates(records.skip(1), alias)
    }
}

/// Resolves `alias` against `commands` by a linear scan, first exact,
/// case-sensitive match wins; `None` means the alias is not registered,
/// which is a normal outcome, not an error.
pub fn find_command_by_alias<'a>(commands: &'a [Command], alias: &'a str) -> (r: Option<
    Vec<&'a str>,
>)
    ensures
        match r {
            Some(v) => spec_find_templates(commands@, alias@) == Some(v.deep_view()),
            None => spec_find_templates(commands@, alias@) is None,
        },
{
    let n = commands.len();
    let mut i: usize = 0;
    proof {
        assert(commands@.skip(0) =~= commands@);
    }
    while i < n
        invariant
            n == commands@.len(),
            i <= n,
            spec_find_templates(commands@.skip(i as int), alias@) == spec_find_templates(
                commands@,
                alias@,
            ),
        decreases n - i,
    {
        let c: &Command = &commands[i];
        proof {
            assert(commands@.skip(i as int)[0] == commands@[i as int]);
        }
        if str_eq(c.alias(), alias) {
            return Some(c.commands());
        }
        proof {
            assert(commands@.skip(i as int).skip(1) =~= commands@.skip(i + 1));
        }
        i = i + 1;
    }
    None
}

} // verus!
