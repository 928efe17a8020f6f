use vstd::prelude::*;

verus! {

/// What change tracking reports about a component or resource for the most
/// recent update: whether it was created, and whether it was created or
/// mutated.
#[derive(Clone, Copy, Debug, PartialEq, Eq, Structural)]
pub struct ChangeStatus {
    pub added: bool,
    pub changed: bool,
}

impl ChangeStatus {
    /// An addition counts as a change: a status that reports the subject
    /// as added also reports it as changed.
    pub open spec fn wf(&self) -> bool {
        self.added ==> self.changed
    }
}

/// The outcome of evaluating an assertion on a subject.
#[derive(Clone, Debug)]
pub enum Verdict {
    Pass,
    Fail(String),
}

pub open spec fn fails_with(v: Verdict, msg: Seq<char>) -> bool {
    v matches Verdict::Fail(m) && m@ == msg
}

pub open spec fn not_added_message() -> Seq<char> {
    "not added since last update"@
}

pub open spec fn not_changed_message() -> Seq<char> {
    "not added or changed since last update"@
}

/// Asserts that the subject was added since the last update.
#[derive(Clone, Copy, Debug)]
pub struct ToBeAdded {}

impl ToBeAdded {
    /// Passes exactly when the subject was added in the last update.
    pub fn execute(self, subject: ChangeStatus) -> (r: Verdict)
        requires
            subject.wf(),
        ensures
            (r is Pass) == added_passes(subject),
            !added_passes(subject) ==> fails_with(r, not_added_message()),
    {
        if subject.added {
            Verdict::Pass
        } else {
            Verdict::Fail("not added since last update".to_string())
        }
    }
}

/// Asserts that the subject was added or changed since the last update.
#[derive(Clone, Copy, Debug)]
pub struct ToBeChanged {}

impl ToBeChanged {
    /// Passes exactly when the subject was added or changed in the last
    /// update.
    pub fn execute(self, subject: ChangeStatus) -> (r: Verdict)
        requires
            subject.wf(),
        ensures
            (r is Pass) == changed_passes(subject),
            !changed_passes(subject) ==> fails_with(r, not_changed_message()),
    {
        if subject.changed {
            Verdict::Pass
        } else {
            Verdict::Fail("not added or changed since last update".to_string())
        }
    }
}

/// Assertions for tracking changes to components and resources.
pub trait ChangeDetectionAssertions {
    /// Asserts that the subject was added last update.
    fn to_be_added(&self) -> ToBeAdded {
        ToBeAdded {}
    }

    /// Asserts that the subject was added or changed since the previous
    /// update.
    fn to_be_changed(&self) -> ToBeChanged {
        ToBeChanged {}
    }
}

impl ChangeDetectionAssertions for ChangeStatus {

}

/// What change tracking reports after an update in which the subject was
/// created (`created`), or mutated (`mutated`), or neither.
pub open spec fn status_after(created: bool, mutated: bool) -> ChangeStatus {
    ChangeStatus { added: created, changed: created || mutated }
}

/// Whether `to_be_added` passes on a subject with status `s`.
pub open spec fn added_passes(s: ChangeStatus) -> bool {
    s.added
}

/// Whether `to_be_changed` passes on a subject with status `s`.
pub open spec fn changed_passes(s: ChangeStatus) -> bool {
    s.changed
}

/// `to_be_added` passes on the update in which the subject was created and
/// on no other, whatever mutations happen later; `to_be_changed` passes on
/// the update that created it and on every update that mutated it, and on
/// no other.
pub proof fn lemma_update_cycles(created: bool, mutated: bool)
    ensures
        status_after(created, mutated).wf(),
        added_passes(status_after(created, mutated)) == created,
        changed_passes(status_after(created, mutated)) == (created || mutated),
        !created && !mutated ==> !added_passes(status_after(created, mutated))
            && !changed_passes(status_after(created, mutated)),
{
}

/// On any well-formed status, a subject that `to_be_added` accepts is
/// accepted by `to_be_changed` too.
pub proof fn lemma_added_implies_changed(s: ChangeStatus)
    requires
        s.wf(),
    ensures
        added_passes(s) ==> changed_passes(s),
{
}

} // verus!
