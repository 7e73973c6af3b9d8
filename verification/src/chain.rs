//! The command chain executor's state: substituted command lines, executed
//! in order, stopping at the first step that fails.
//!
//! Spawning and waiting on child processes is the caller's business; this
//! module decides which command runs next and records how each one ended.

use vstd::prelude::*;

use crate::ArgCountError;
use crate::binder::Binding;
use crate::placeholder::spec_placeholder_count;
use crate::placeholder::spec_substitute;
use crate::placeholder::substitute;

verus! {

/// How one chain step ended, as reported by whoever ran the child process.
#[derive(Debug, Clone, Copy, PartialEq, Eq, Structural)]
pub enum StepOutcome {
    /// The child exited with this status code.
    Exited(i32),
    /// The child terminated abnormally, with no status code.
    ExitedAbnormally,
    /// The child could not be spawned at all.
    SpawnFailed,
}

impl StepOutcome {
    /// A step succeeds exactly when its child exited with status zero.
    pub open spec fn spec_is_success(&self) -> bool {
        match *self {
            StepOutcome::Exited(code) => code == 0,
            _ => false,
        }
    }

    pub fn is_success(&self) -> (r: bool)
        ensures
            r == self.spec_is_success(),
    {
        match self {
            StepOutcome::Exited(code) => *code == 0,
            _ => false,
        }
    }
}

/// The first failure of a chain: which step failed, the command line it
/// ran, and how it ended.
#[derive(Debug, Clone)]
pub struct StepFailure {
    pub index: usize,
    pub command: String,
    pub outcome: StepOutcome,
}

/// Substitutes every binding of a chain, in order, into its concrete
/// command line. Fails with the offending template's own required count if
/// some binding's argument slice does not match its placeholder count; a
/// chain bound by the argument binder always renders.
pub fn render_chain(bindings: &Vec<Binding>) -> (r: Result<Vec<String>, ArgCountError>)
    ensures
        ({
            let bs = bindings@;
            match r {
                Ok(cmds) => cmds@.len() == bs.len() && (forall|k: int|
                    #![trigger bs[k]]
                    0 <= k < bs.len() ==> (spec_placeholder_count(bs[k].template@) == 0
                        || spec_placeholder_count(bs[k].template@)
                        == bs[k].args.deep_view().len())) && (forall|k: int|
                    #![trigger cmds@[k]]
                    0 <= k < bs.len() ==> cmds@[k]@ == spec_substitute(
                        bs[k].template@,
                        bs[k].args.deep_view(),
                    )),
                Err(e) => exists|k: int|
                    #![trigger bs[k]]
                    0 <= k < bs.len() && spec_placeholder_count(bs[k].template@) > 0
                        && spec_placeholder_count(bs[k].template@) != bs[k].args.deep_view().len()
                        && e.required == spec_placeholder_count(bs[k].template@),
            }
        }),
{
    let n = bindings.len();
    let mut cmds: Vec<String> = Vec::new();
    let mut k: usize = 0;
    while k < n
        invariant
            n == bindings@.len(),
            k <= n,
            cmds@.len() == k,
            forall|j: int|
                #![trigger bindings@[j]]
                0 <= j < k ==> (spec_placeholder_count(bindings@[j].template@) == 0
                    || spec_placeholder_count(bindings@[j].template@)
                    == bindings@[j].args.deep_view().len()),
            forall|j: int|
                #![trigger cmds@[j]]
                0 <= j < k ==> cmds@[j]@ == spec_substitute(
                    bindings@[j].template@,
                    bindings@[j].args.deep_view(),
                ),
        decreases n - k,
    {
        let b: &Binding = &bindings[k];
        match substitute(b.template.as_str(), &b.args) {
            Ok(cmd) => {
                cmds.push(cmd);
            },
            Err(e) => {
                return Err(e);
            },
        }
        k = k + 1;
    }
    Ok(cmds)
}

/// The executor's state: the chain's command lines, the position of the
/// next command to run, and the first failure, if one has happened.
pub struct ChainExec {
    commands: Vec<String>,
    next: usize,
    failure: Option<StepFailure>,
}

impl ChainExec {
    /// The chain's command lines.
    pub closed spec fn spec_commands(&self) -> Seq<Seq<char>> {
        self.commands.deep_view()
    }

    /// Position of the next command to run.
    pub closed spec fn spec_next(&self) -> nat {
        self.next as nat
    }

    /// The first failure recorded, if any.
    pub closed spec fn spec_failure(&self) -> Option<StepFailure> {
        self.failure
    }

    /// Every reachable state satisfies this: the position never passes the
    /// end, and a recorded failure names the step at the current position,
    /// which the chain then never moves past.
    pub open spec fn wf(&self) -> bool {
        &&& self.spec_next() <= self.spec_commands().len()
        &&& self.spec_failure() matches Some(f) ==> {
            &&& f.index == self.spec_next()
            &&& self.spec_next() < self.spec_commands().len()
            &&& f.command@ == self.spec_commands()[self.spec_next() as int]
        }
    }

    /// The command the executor offers to run next: the one at the current
    /// position, unless the chain is exhausted or a step has failed.
    pub open spec fn spec_next_command(&self) -> Option<Seq<char>> {
        if self.spec_failure() is None && self.spec_next() < self.spec_commands().len() {
            Some(self.spec_commands()[self.spec_next() as int])
        } else {
            None
        }
    }

    /// A fresh executor, positioned at the first command, with no failure.
    pub fn new(commands: Vec<String>) -> (r: Self)
        ensures
            r.wf(),
            r.spec_commands() == commands.deep_view(),
            r.spec_next() == 0,
            r.spec_failure() is None,
    {
        ChainExec { commands, next: 0, failure: None }
    }

    /// The next command line to run, or `None` when the chain is done —
    /// exhausted, or stopped at a failed step.
    pub fn next_command(&self) -> (r: Option<String>)
        ensures
            match r {
                Some(cmd) => self.spec_next_command() == Some(cmd@),
                None => self.spec_next_command() is None,
            },
    {
        if self.failure.is_none() && self.next < self.commands.len() {
            let cmd: &String = &self.commands[self.next];
            Some(cmd.clone())
        } else {
            None
        }
    }

    /// Records how the offered command's step ended. On success the chain
    /// advances to the next command; on failure it stops where it is and
    /// remembers the failed step. When no command was offered, nothing
    /// changes.
    pub fn record(&mut self, outcome: StepOutcome)
        requires
            old(self).wf(),
        ensures
            final(self).wf(),
            final(self).spec_commands() == old(self).spec_commands(),
            old(self).spec_next_command() is None ==> *final(self) == *old(self),
            old(self).spec_next_command() is Some && outcome.spec_is_success() ==> {
                &&& final(self).spec_next() == old(self).spec_next() + 1
                &&& final(self).spec_failure() is None
            },
            old(self).spec_next_command() is Some && !outcome.spec_is_success() ==> {
                &&& final(self).spec_next() == old(self).spec_next()
                &&& final(self).spec_failure() matches Some(f)
                &&& f.index == old(self).spec_next()
                &&& f.command@ == old(self).spec_commands()[old(self).spec_next() as int]
                &&& f.outcome == outcome
            },
    {
        if self.failure.is_none() && self.next < self.commands.len() {
            if outcome.is_success() {
                self.next = self.next + 1;
            } else {
                let cmd: &String = &self.commands[self.next];
                self.failure = Some(
                    StepFailure { index: self.next, command: cmd.clone(), outcome },
                );
            }
        }
    }

    /// The first failure, if one has been recorded.
    pub fn failure(&self) -> (r: &Option<StepFailure>)
        ensures
            *r == self.spec_failure(),
    {
        &self.failure
    }

    /// True when every step ran and succeeded.
    pub fn completed(&self) -> (r: bool)
        ensures
            r == (self.spec_failure() is None && self.spec_next()
                == self.spec_commands().len()),
    {
        self.failure.is_none() && self.next == self.commands.len()
    }
}

/// The chain short-circuits: once some step has failed, the executor never
/// offers another command, so no step after the failed one runs.
pub proof fn lemma_chain_short_circuit(chain: ChainExec)
    requires
        chain.spec_failure() is Some,
    ensures
        chain.spec_next_command() is None,
{
}

} // verus!
