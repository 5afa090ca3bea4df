//! Whether a user may perform a list of actions.

use vstd::prelude::*;
use crate::auth::permission::{CheckError, allowed, check, first_missing, names};
use crate::status;

verus! {

#[derive(Debug, PartialEq, Eq)]
/// An action asked about.
pub struct Action {
    pub name: String,
}

#[derive(Debug, PartialEq, Eq)]
/// The actions a service asks about, for the user of the request.
pub struct DecisionRequest {
    pub action_list: Vec<Action>,
}

#[derive(Debug, PartialEq, Eq)]
/// The answer when an action is refused: the first one the user does not hold.
pub struct DecisionResponse {
    pub failed: String,
}

#[derive(Debug, PartialEq, Eq)]
/// The answer to a decision request.
pub enum Decision {
    /// Every action is allowed: `204 No Content`.
    Allowed,
    /// An action is refused: `200 OK` with the refused action.
    Refused(DecisionResponse),
}

impl Decision {
    pub fn status_code(&self) -> (c: u16)
        ensures
            c == (if self is Allowed { status::NO_CONTENT } else { status::OK }),
    {
        match self {
            Decision::Allowed => status::NO_CONTENT,
            Decision::Refused(_) => status::OK,
        }
    }
}

#[derive(Debug, PartialEq, Eq)]
pub enum DecisionError {
    CheckError(CheckError),
}

impl DecisionError {
    /// The response to the error: its status and its text.
    pub fn into_response(self) -> (r: (u16, String))
        ensures
            match self {
                DecisionError::CheckError(e) => r.0 == status::INTERNAL_SERVER_ERROR
                    && r.1@ == "check error: "@ + e.message_spec(),
            },
    {
        match self {
            DecisionError::CheckError(e) => {
                let m = e.message();
                (status::INTERNAL_SERVER_ERROR, String::from_str("check error: ").concat(m.as_str()))
            },
        }
    }
}

impl DecisionRequest {
    /// The names of the actions asked about, in order.
    pub open spec fn names_spec(&self) -> Seq<Seq<char>> {
        self.action_list@.map_values(|a: Action| a.name@)
    }

    /// The names of every listed action, in order.
    pub fn action_names(&self) -> (v: Vec<String>)
        ensures
            names(v@) == self.names_spec(),
            v@.len() == self.action_list@.len(),
            forall|i: int| 0 <= i < v@.len() ==> #[trigger] v@[i]@ == self.action_list@[i].name@,
    {
        let mut v: Vec<String> = Vec::new();
        let n = self.action_list.len();
        let mut i: usize = 0;
        while i < n
            invariant
                n == self.action_list@.len(),
                i <= n,
                v@.len() == i,
                names(v@) == self.names_spec().subrange(0, i as int),
            decreases n - i,
        {
            let name = self.action_list[i].name.clone();
            let ghost before = v@;
            v.push(name);
            assert(names(v@)[i as int] == self.names_spec()[i as int]);
            assert forall|k: int| 0 <= k < i implies names(v@)[k] == self.names_spec()[k] by {
                assert(v@[k] == before[k]);
                assert(names(before)[k] == self.names_spec().subrange(0, i as int)[k]);
            }
            i = i + 1;
            assert(names(v@) =~= self.names_spec().subrange(0, i as int));
        }
        assert(self.names_spec().subrange(0, n as int) =~= self.names_spec());
        proof {
            lemma_names_spec_lists_every_action(self);
            assert forall|k: int| 0 <= k < v@.len() implies #[trigger] v@[k]@ == self.action_list@[k].name@ by {
                assert(names(v@)[k] == v@[k]@);
            }
        }
        v
    }
}

/// A request asks about every action it lists, in the order listed, and about nothing else.
pub proof fn lemma_names_spec_lists_every_action(req: &DecisionRequest)
    ensures
        req.names_spec().len() == req.action_list@.len(),
        forall|i: int| 0 <= i < req.action_list@.len() ==> #[trigger] req.names_spec()[i] == req.action_list@[i].name@,
{
}

/// The answer to the permission check: a refused action is reported in the body, any
/// other error of the check is passed on.
pub fn decision(checked: Result<(), CheckError>) -> (res: Result<Decision, DecisionError>)
    ensures
        match checked {
            Ok(()) => res matches Ok(Decision::Allowed),
            Err(CheckError::NoPermission(f)) => res == Ok::<Decision, DecisionError>(
                Decision::Refused(DecisionResponse { failed: f }),
            ),
            Err(e) => res == Err::<Decision, DecisionError>(DecisionError::CheckError(e)),
        },
{
    match checked {
        Ok(()) => Ok(Decision::Allowed),
        Err(CheckError::NoPermission(failed)) => Ok(Decision::Refused(DecisionResponse { failed })),
        Err(e) => Err(DecisionError::CheckError(e)),
    }
}

/// The whole decision for a user holding the actions that the database returned:
/// every asked action held means `Allowed`; otherwise the first asked action, in order,
/// that is not held is reported; a database error is an error.
pub fn decide(held: Result<Vec<String>, String>, req: &DecisionRequest) -> (res: Result<Decision, DecisionError>)
    ensures
        held matches Err(m) ==> res == Err::<Decision, DecisionError>(
            DecisionError::CheckError(CheckError::DatabaseError(m)),
        ),
        held matches Ok(h) ==> (res matches Ok(Decision::Allowed) <==> allowed(names(h@), req.names_spec())),
        held matches Ok(h) ==> (res matches Ok(Decision::Refused(r)) ==> exists|i: int|
            #[trigger] first_missing(names(h@), req.names_spec(), i) && r.failed@ == req.names_spec()[i]),
        held is Ok ==> res is Ok,
        held matches Ok(h) ==> (res matches Ok(Decision::Allowed) <==> forall|i: int|
            0 <= i < req.action_list@.len() ==> names(h@).contains(#[trigger] req.action_list@[i].name@)),
        held matches Ok(h) ==> (res matches Ok(Decision::Refused(r)) ==> exists|i: int|
            0 <= i < req.action_list@.len()
                && !names(h@).contains(#[trigger] req.action_list@[i].name@)
                && (forall|j: int| 0 <= j < i ==> names(h@).contains(#[trigger] req.action_list@[j].name@))
                && r.failed@ == req.action_list@[i].name@),
{
    let required = req.action_names();
    let checked = check(held, &required);
    proof {
        lemma_names_spec_lists_every_action(req);
        if held is Ok {
            let h = held->Ok_0;
            if allowed(names(h@), req.names_spec()) {
                assert forall|i: int| 0 <= i < req.action_list@.len() implies
                    names(h@).contains(#[trigger] req.action_list@[i].name@) by {
                    assert(names(h@).contains(req.names_spec()[i]));
                }
            } else {
                let i = choose|i: int| 0 <= i < req.names_spec().len() && !names(h@).contains(#[trigger] req.names_spec()[i]);
                assert(!names(h@).contains(req.action_list@[i].name@));
            }
        }
        if checked is Err && checked->Err_0 is NoPermission {
            let f = checked->Err_0;
            let h = held->Ok_0;
            let i = choose|i: int| #[trigger] first_missing(names(h@), names(required@), i)
                && f == CheckError::NoPermission(required@[i]);
            assert(names(required@)[i] == required@[i]@);
            assert(first_missing(names(h@), req.names_spec(), i));
            assert forall|j: int| 0 <= j < i implies names(h@).contains(#[trigger] req.action_list@[j].name@) by {
                assert(names(h@).contains(req.names_spec()[j]));
            }
            assert(!names(h@).contains(req.action_list@[i].name@));
            assert(f->NoPermission_0@ == req.action_list@[i].name@);
        }
    }
    decision(checked)
}

} // verus!
