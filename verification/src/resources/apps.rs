//! Applications that tests create: their lifecycle and when they count as
//! ready.
use crate::init::drg::{context_name, device_input, DeviceSpec, Drg, DrgCommand, DrgError};
use crate::json::{json_nested_pair_list, json_nested_pairs};
use crate::text::{opt_string_equal, opt_view, owned, str_equal};
use vstd::prelude::*;

verus! {

/// An application that a test created. Unless it is marked as deleted, it
/// is deleted again when the test is done with it.
pub struct Application {
    drg: Drg,
    name: String,
    deleted: bool,
}

impl Application {
    /// The application's name.
    pub closed spec fn name_view(&self) -> Seq<char> {
        self.name@
    }

    /// Whether the application was marked as deleted.
    pub closed spec fn is_deleted(&self) -> bool {
        self.deleted
    }

    /// The application once `drg create app <name>` has run with `outcome`:
    /// it exists, not marked as deleted, exactly when the command succeeded.
    pub fn new(drg: Drg, name: String, outcome: Result<String, DrgError>) -> (r: Result<
        Self,
        DrgError,
    >)
        ensures
            outcome is Ok <==> r is Ok,
            r matches Ok(a) ==> a.name_view() == name@ && !a.is_deleted(),
            outcome matches Err(e) ==> r == Err::<Self, DrgError>(e),
    {
        match outcome {
            Ok(_) => Ok(Application { drg, name, deleted: false }),
            Err(e) => Err(e),
        }
    }

    /// The conditions that a ready application has, in the order they are
    /// awaited, each with the time allowed (seconds): `KafkaReady`, then
    /// `Ready`, five minutes each.
    pub fn wait_ready(&self) -> (r: Vec<(String, u64)>)
        ensures
            r@.len() == 2,
            r@[0].0@ == "KafkaReady"@ && r@[0].1 == 300,
            r@[1].0@ == "Ready"@ && r@[1].1 == 300,
    {
        let mut r = Vec::new();
        r.push((owned("KafkaReady"), 300));
        r.push((owned("Ready"), 300));
        r
    }

    /// Marks the application as deleted, so that it is not deleted again.
    pub fn mark_deleted(&mut self)
        ensures
            final(self).is_deleted(),
            final(self).name_view() == old(self).name_view(),
    {
        self.deleted = true;
    }

    pub fn name(&self) -> (r: &str)
        ensures
            r@ == self.name_view(),
    {
        self.name.as_str()
    }

    pub fn drg(&self) -> (r: &Drg) {
        &self.drg
    }

    /// The command that cleans the application up: `drg delete app <name>`,
    /// or none once it is marked as deleted.
    pub fn release(&self) -> (r: Option<DrgCommand>)
        ensures
            self.is_deleted() <==> r is None,
            r matches Some(c) ==> c@.args == seq!["delete"@, "app"@, self.name_view()] && c@.input
                is None && c@.context == context_name(),
    {
        if self.deleted {
            None
        } else {
            Some(self.drg.delete_app(self.name.as_str()))
        }
    }

    /// The command that creates a device of the application.
    pub fn create_device(&self, device: &str, spec: &DeviceSpec) -> (r: Result<DrgCommand, DrgError>)
        ensures
            spec is Other <==> r == Err::<DrgCommand, DrgError>(DrgError::InvalidDeviceSpec),
            !(spec is Other) <==> r is Ok,
            r matches Ok(c) ==> c@.args == seq![
                "create"@,
                "device"@,
                "--app"@,
                self.name_view(),
                device@,
            ] && c@.context == context_name() && c@.input == device_input(*spec),
    {
        self.drg.create_device(self.name.as_str(), device, spec)
    }
}

/// Whether, among conditions given as (type, status), the first of type
/// `condition` has the status `True`.
pub open spec fn condition_holds(
    conditions: Seq<(Option<Seq<char>>, Option<Seq<char>>)>,
    condition: Seq<char>,
) -> bool
    decreases conditions.len(),
{
    if conditions.len() == 0 {
        false
    } else if conditions[0].0 == Some(condition) {
        conditions[0].1 == Some("True"@)
    } else {
        condition_holds(conditions.drop_first(), condition)
    }
}

/// A condition is met exactly when `status.conditions` is an array whose
/// first entry of that type has the status `True`; an entry of another type
/// is passed over, and one of that type with any other status, or none,
/// means not met.
pub proof fn condition_is_first_entry(document: Seq<u8>, condition: Seq<char>)
    ensures
        condition_met(document, condition) <==> (json_nested_pairs(
            document,
            "status"@,
            "conditions"@,
            "type"@,
            "status"@,
        ) matches Some(list) && exists|i: int|
            0 <= i < list.len() && list[i].0 == Some(condition) && (forall|j: int|
                0 <= j < i ==> list[j].0 != Some(condition)) && list[i].1 == Some("True"@)),
{
    if let Some(list) = json_nested_pairs(document, "status"@, "conditions"@, "type"@, "status"@) {
        lemma_first_entry(list, condition);
    }
}

/// The first entry of a condition's type decides it: met exactly when its
/// status is `True`, whatever entries follow; an entry of another type in
/// front changes nothing.
pub proof fn first_entry_decides(
    status: Option<Seq<char>>,
    other: Option<Seq<char>>,
    rest: Seq<(Option<Seq<char>>, Option<Seq<char>>)>,
    condition: Seq<char>,
)
    ensures
        condition_holds(seq![(Some(condition), status)] + rest, condition) <==> status == Some(
            "True"@,
        ),
        other != Some(condition) ==> (condition_holds(seq![(other, status)] + rest, condition)
            == condition_holds(rest, condition)),
        !condition_holds(Seq::empty(), condition),
{
    assert((seq![(Some(condition), status)] + rest).drop_first() =~= rest);
    assert((seq![(other, status)] + rest).drop_first() =~= rest);
}

proof fn lemma_first_entry(
    conditions: Seq<(Option<Seq<char>>, Option<Seq<char>>)>,
    condition: Seq<char>,
)
    ensures
        condition_holds(conditions, condition) <==> exists|i: int|
            0 <= i < conditions.len() && conditions[i].0 == Some(condition) && (forall|j: int|
                0 <= j < i ==> conditions[j].0 != Some(condition)) && conditions[i].1 == Some(
                "True"@,
            ),
    decreases conditions.len(),
{
    if conditions.len() > 0 {
        let rest = conditions.drop_first();
        lemma_first_entry(rest, condition);
        let head = conditions[0];
        if head.0 == Some(condition) {
            if head.1 == Some("True"@) {
                assert(forall|j: int| 0 <= j < 0 ==> conditions[j].0 != Some(condition));
            } else {
                assert forall|i: int|
                    0 <= i < conditions.len() && conditions[i].0 == Some(condition) && (forall|
                        j: int,
                    | 0 <= j < i ==> conditions[j].0 != Some(condition)) implies conditions[i].1
                    != Some("True"@) by {
                    if i > 0 {
                        assert(conditions[0].0 != Some(condition));
                    }
                }
            }
        } else {
            if condition_holds(rest, condition) {
                let k = choose|k: int|
                    0 <= k < rest.len() && rest[k].0 == Some(condition) && (forall|j: int|
                        0 <= j < k ==> rest[j].0 != Some(condition)) && rest[k].1 == Some(
                        "True"@,
                    );
                assert(conditions[k + 1] == rest[k]);
                assert forall|j: int| 0 <= j < k + 1 implies conditions[j].0 != Some(condition) by {
                    if j > 0 {
                        assert(conditions[j] == rest[j - 1]);
                    }
                }
            }
            if exists|i: int|
                0 <= i < conditions.len() && conditions[i].0 == Some(condition) && (forall|j: int|
                    0 <= j < i ==> conditions[j].0 != Some(condition)) && conditions[i].1 == Some(
                    "True"@,
                ) {
                let i = choose|i: int|
                    0 <= i < conditions.len() && conditions[i].0 == Some(condition) && (forall|
                        j: int,
                    | 0 <= j < i ==> conditions[j].0 != Some(condition)) && conditions[i].1 == Some(
                        "True"@,
                    );
                assert(i > 0);
                assert(rest[i - 1] == conditions[i]);
                assert forall|j: int| 0 <= j < i - 1 implies rest[j].0 != Some(condition) by {
                    assert(rest[j] == conditions[j + 1]);
                }
            }
        }
    }
}

/// Whether an application's JSON document reports the condition as met:
/// its first entry of that type in `status.conditions` has the status
/// `True`.
pub open spec fn condition_met(document: Seq<u8>, condition: Seq<char>) -> bool {
    match json_nested_pairs(document, "status"@, "conditions"@, "type"@, "status"@) {
        Some(list) => condition_holds(list, condition),
        None => false,
    }
}

proof fn lemma_condition_holds_skip(
    conditions: Seq<(Option<Seq<char>>, Option<Seq<char>>)>,
    condition: Seq<char>,
    i: int,
)
    requires
        0 <= i <= conditions.len(),
        forall|k: int| 0 <= k < i ==> conditions[k].0 != Some(condition),
    ensures
        condition_holds(conditions, condition) == condition_holds(
            conditions.subrange(i, conditions.len() as int),
            condition,
        ),
    decreases i,
{
    if i > 0 {
        let t = conditions.drop_first();
        lemma_condition_holds_skip(t, condition, i - 1);
        assert(t.subrange(i - 1, t.len() as int) =~= conditions.subrange(
            i,
            conditions.len() as int,
        ));
    } else {
        assert(conditions.subrange(0, conditions.len() as int) =~= conditions);
    }
}

/// Reads whether an application's JSON document reports the condition as met.
pub fn condition_state(document: &[u8], condition: &str) -> (r: bool)
    ensures
        r == condition_met(document@, condition@),
{
    let list = match json_nested_pair_list(document, "status", "conditions", "type", "status") {
        Some(l) => l,
        None => {
            return false;
        },
    };
    let ghost view = crate::json::opt_str_pairs(list@);
    assert(condition_met(document@, condition@) == condition_holds(view, condition@));
    let wanted = Some(owned(condition));
    let mut i: usize = 0;
    while i < list.len()
        invariant
            i <= list@.len(),
            view == crate::json::opt_str_pairs(list@),
            opt_view(wanted) == Some(condition@),
            condition_met(document@, condition@) == condition_holds(view, condition@),
            forall|k: int| 0 <= k < i ==> view[k].0 != Some(condition@),
        decreases list@.len() - i,
    {
        let (t, s) = &list[i];
        if opt_string_equal(t, &wanted) {
            proof {
                lemma_condition_holds_skip(view, condition@, i as int);
                let rest = view.subrange(i as int, view.len() as int);
                assert(rest[0] == view[i as int]);
                assert(view[i as int] == (opt_view(*t), opt_view(*s)));
                assert(condition_holds(rest, condition@) == (rest[0].1 == Some("True"@)));
            }
            let holds = match s {
                Some(v) => str_equal(v.as_str(), "True"),
                None => false,
            };
            assert(holds == (opt_view(*s) == Some("True"@)));
            return holds;
        }
        i = i + 1;
    }
    proof {
        lemma_condition_holds_skip(view, condition@, i as int);
        assert(view.subrange(i as int, view.len() as int).len() == 0);
    }
    false
}

/// What a wait for a condition does after a look at the application.
#[derive(Clone, Copy, Debug, PartialEq, Eq, Structural)]
pub enum ConditionStep {
    /// The condition is met.
    Met,
    /// The time ran out.
    TimedOut,
    /// Pause a second and look again.
    Retry,
}

/// The decision after a look: met, else timed out once more than the time
/// allowed has passed, else look again.
pub fn condition_step(met: bool, elapsed: u128, timeout: u128) -> (r: ConditionStep)
    ensures
        met ==> r is Met,
        !met && elapsed > timeout ==> r is TimedOut,
        !met && elapsed <= timeout ==> r is Retry,
{
    if met {
        ConditionStep::Met
    } else if elapsed > timeout {
        ConditionStep::TimedOut
    } else {
        ConditionStep::Retry
    }
}

} // verus!
