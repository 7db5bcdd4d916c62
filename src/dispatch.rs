use vstd::prelude::*;
use crate::action::{confirmation_text, Action};

verus! {

/// The action flags given on the command line.
#[derive(Clone, Copy, Debug, PartialEq, Eq, Structural)]
pub struct Flags {
    pub create: bool,
    pub drop: bool,
    pub migrate: bool,
    pub seed: bool,
}

/// Why an invocation cannot run.
#[derive(Clone, Copy, Debug, PartialEq, Eq, Structural)]
pub enum UsageError {
    /// No action flag at all: the usage text is shown instead.
    NoAction,
    /// The given action was requested together with a drop.
    Conflict(Action),
    /// `--seed` is required unless `--drop`, which conflicts with it, is given.
    SeedRequired,
}

pub open spec fn when_set(on: bool, a: Action) -> Seq<Action> {
    if on {
        seq![a]
    } else {
        Seq::empty()
    }
}

/// The requested actions in the order they run: drop, create, migrate, seed.
pub open spec fn requested(f: Flags) -> Seq<Action> {
    when_set(f.drop, Action::Drop) + when_set(f.create, Action::Create) + when_set(
        f.migrate,
        Action::Migrate,
    ) + when_set(f.seed, Action::Seed)
}

/// The error an invocation with flags `f` is refused with, if any. With no flag
/// the usage text wins; conflicts with a drop are reported before a missing seed.
pub open spec fn usage_error(f: Flags) -> Option<UsageError> {
    if !f.create && !f.drop && !f.migrate && !f.seed {
        Some(UsageError::NoAction)
    } else if f.drop && f.create {
        Some(UsageError::Conflict(Action::Create))
    } else if f.drop && f.migrate {
        Some(UsageError::Conflict(Action::Migrate))
    } else if f.drop && f.seed {
        Some(UsageError::Conflict(Action::Seed))
    } else if !f.drop && !f.seed {
        Some(UsageError::SeedRequired)
    } else {
        None
    }
}

fn push_if(v: &mut Vec<Action>, on: bool, a: Action)
    ensures
        final(v)@ == old(v)@ + when_set(on, a),
{
    if on {
        v.push(a);
    } else {
        assert(old(v)@ + when_set(on, a) =~= old(v)@);
    }
}

/// Checks the flags against the conflict rules and lists the actions to run, in order.
pub fn plan(flags: Flags) -> (r: Result<Vec<Action>, UsageError>)
    ensures
        usage_error(flags) matches Some(e) ==> r == Err::<Vec<Action>, UsageError>(e),
        usage_error(flags) is None ==> (r matches Ok(v) && v@ == requested(flags)),
{
    if !flags.create && !flags.drop && !flags.migrate && !flags.seed {
        return Err(UsageError::NoAction);
    }
    if flags.drop {
        if flags.create {
            return Err(UsageError::Conflict(Action::Create));
        }
        if flags.migrate {
            return Err(UsageError::Conflict(Action::Migrate));
        }
        if flags.seed {
            return Err(UsageError::Conflict(Action::Seed));
        }
    } else if !flags.seed {
        return Err(UsageError::SeedRequired);
    }
    let mut v: Vec<Action> = Vec::new();
    push_if(&mut v, flags.drop, Action::Drop);
    push_if(&mut v, flags.create, Action::Create);
    push_if(&mut v, flags.migrate, Action::Migrate);
    push_if(&mut v, flags.seed, Action::Seed);
    assert(v@ =~= requested(flags));
    Ok(v)
}

/// Every accepted invocation either drops and does nothing else, or seeds last,
/// after whichever of create and migrate were requested.
pub proof fn lemma_accepted_plans(f: Flags)
    requires
        usage_error(f) is None,
    ensures
        f.drop ==> requested(f) == seq![Action::Drop],
        !f.drop ==> f.seed && requested(f).last() == Action::Seed && !requested(f).contains(
            Action::Drop,
        ),
{
    if f.drop {
        assert(requested(f) =~= seq![Action::Drop]);
    } else {
        let r = requested(f);
        assert(r.last() == Action::Seed);
        assert forall|i: int| 0 <= i < r.len() implies r[i] != Action::Drop by {
            assert(r =~= when_set(f.create, Action::Create) + when_set(f.migrate, Action::Migrate)
                + seq![Action::Seed]);
        }
    }
}

/// What the collaborator reported for the action just performed.
#[derive(Clone, Debug, PartialEq, Eq)]
pub enum Outcome {
    Succeeded,
    /// The failure, with the collaborator's own error text.
    Failed(String),
}

/// What to do with an outcome.
#[derive(Clone, Debug, PartialEq, Eq)]
pub enum Directive {
    /// Print the confirmation and go on with the next action.
    Confirm(String),
    /// Print the error to the diagnostic stream and exit with a failure status.
    Abort(String),
}

/// Exit status of an invocation that ran to completion.
pub const EXIT_SUCCESS: i32 = 0;

/// Exit status of an invocation that was refused or in which an action failed.
pub const EXIT_FAILURE: i32 = 1;

/// One invocation: the planned actions, how many of them have succeeded, and
/// whether one has failed, which ends the invocation.
pub struct Session {
    actions: Vec<Action>,
    done: usize,
    failed: bool,
}

impl Session {
    pub closed spec fn planned(&self) -> Seq<Action> {
        self.actions@
    }

    pub closed spec fn completed(&self) -> nat {
        self.done as nat
    }

    pub closed spec fn has_failed(&self) -> bool {
        self.failed
    }

    pub closed spec fn wf(&self) -> bool {
        self.done <= self.actions.len()
    }

    /// Whether an action is still to be performed.
    pub open spec fn pending(&self) -> bool {
        !self.has_failed() && self.completed() < self.planned().len()
    }

    /// Starts an invocation that will perform `actions` in order.
    pub fn new(actions: Vec<Action>) -> (s: Session)
        ensures
            s.wf(),
            s.planned() == actions@,
            s.completed() == 0,
            !s.has_failed(),
    {
        Session { actions, done: 0, failed: false }
    }

    /// The action to perform next, or `None` once all have succeeded or one has failed.
    pub fn current(&self) -> (r: Option<Action>)
        requires
            self.wf(),
        ensures
            self.pending() ==> r == Some(self.planned()[self.completed() as int]),
            !self.pending() ==> r is None,
    {
        if self.failed || self.done >= self.actions.len() {
            None
        } else {
            Some(self.actions[self.done])
        }
    }

    /// Takes the outcome of the current action on database `name`: a success is
    /// confirmed and the session moves on; a failure is reported verbatim and
    /// ends the session, so no later action runs.
    pub fn record(&mut self, outcome: Outcome, name: &str) -> (r: Directive)
        requires
            old(self).wf(),
            old(self).pending(),
        ensures
            final(self).wf(),
            final(self).planned() == old(self).planned(),
            outcome is Succeeded ==> {
                &&& r matches Directive::Confirm(m) && m@ == confirmation_text(
                    old(self).planned()[old(self).completed() as int],
                    name@,
                )
                &&& final(self).completed() == old(self).completed() + 1
                &&& !final(self).has_failed()
            },
            outcome matches Outcome::Failed(e) ==> {
                &&& r matches Directive::Abort(m) && m@ == e@
                &&& final(self).completed() == old(self).completed()
                &&& final(self).has_failed()
            },
    {
        match outcome {
            Outcome::Succeeded => {
                let a = self.actions[self.done];
                self.done = self.done + 1;
                Directive::Confirm(a.confirmation(name))
            },
            Outcome::Failed(e) => {
                self.failed = true;
                Directive::Abort(e)
            },
        }
    }

    /// The exit status of the invocation so far.
    pub fn exit_code(&self) -> (r: i32)
        ensures
            r == (if self.has_failed() {
                EXIT_FAILURE
            } else {
                EXIT_SUCCESS
            }),
    {
        if self.failed {
            EXIT_FAILURE
        } else {
            EXIT_SUCCESS
        }
    }
}

} // verus!
