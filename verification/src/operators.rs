//! Use cases for the staff who operate the till.
use vstd::prelude::*;
use crate::error::AppError;
use crate::models::{Operator, OperatorView};
use crate::repos::{operator_with_mdoc, operators_updated, OperatorRepoTrait};
use crate::text::{blank, int_text, int_to_string, is_blank};

verus! {

/// Whether some operator has the MDOC number.
pub open spec fn has_operator_mdoc(ops: Seq<OperatorView>, mdoc: i32) -> bool {
    exists|k: int| 0 <= k < ops.len() && (#[trigger] ops[k]).mdoc == mdoc
}

/// The message for an operator name that is blank.
pub open spec fn empty_name_message() -> Seq<char> {
    "Operator name cannot be empty"@
}

/// The message for an MDOC number that is taken.
pub open spec fn duplicate_mdoc_message(mdoc: i32) -> Seq<char> {
    "Operator mdoc '"@ + int_text(mdoc as int) + "' already exists"@
}

/// The message for an update of an operator that does not exist.
pub open spec fn missing_operator_message(mdoc: i32) -> Seq<char> {
    "Cannot update: Operator with mdoc "@ + int_text(mdoc as int) + " not found"@
}

/// Listing, creating and updating operators.
pub struct OperatorUseCases<R> {
    pub repo: R,
}

impl<R: OperatorRepoTrait> OperatorUseCases<R> {
    pub fn new(repo: R) -> (r: Self)
        ensures
            r.repo == repo,
    {
        OperatorUseCases { repo }
    }

    /// All operators.
    pub fn list_operators(&self) -> (r: Result<Vec<Operator>, AppError>)
        ensures
            r matches Ok(v) ==> v.deep_view() == self.repo.operators(),
    {
        self.repo.list()
    }

    /// Creates an operator. A blank name is refused first; then the stored
    /// operators are read, and an operator whose MDOC number is taken is
    /// refused (see `check_new_operator`); otherwise it is stored as given.
    pub fn create_operator(&mut self, op: &Operator) -> (r: Result<(), AppError>)
        ensures
            is_blank(op.name@) ==> (r matches Err(AppError::Unexpected(m)) && m@ == empty_name_message()),
            !is_blank(op.name@) && has_operator_mdoc(old(self).repo.operators(), op.mdoc) ==> r is Err,
            r is Ok ==> final(self).repo.operators() == old(self).repo.operators().push(op.deep_view()),
            r is Err ==> final(self).repo.operators() == old(self).repo.operators(),
    {
        if blank(op.name.as_str()) {
            return Err(AppError::Unexpected(String::from_str("Operator name cannot be empty")));
        }
        let existing = match self.repo.list() {
            Ok(v) => v,
            Err(e) => {
                return Err(e);
            },
        };
        match check_new_operator(&existing, op) {
            Ok(()) => {},
            Err(e) => {
                return Err(e);
            },
        }
        self.repo.create(op)
    }

    /// Updates an operator: one with its MDOC number must exist (else
    /// `NotFound` with `missing_operator_message`), and it replaces every
    /// operator with that number.
    pub fn update_operator(&mut self, op: &Operator) -> (r: Result<(), AppError>)
        ensures
            operator_with_mdoc(old(self).repo.operators(), op.mdoc) is None ==> r is Err,
            r is Ok ==> final(self).repo.operators() == operators_updated(old(self).repo.operators(), op.deep_view()),
            r is Err ==> final(self).repo.operators() == old(self).repo.operators(),
    {
        let found = match self.repo.get_by_mdoc(op.mdoc) {
            Ok(o) => o,
            Err(e) => {
                return Err(e);
            },
        };
        match check_operator_found(&found, op.mdoc) {
            Ok(()) => {},
            Err(e) => {
                return Err(e);
            },
        }
        self.repo.update_by_mdoc(op)
    }
}

/// What creating an operator gives once the stored operators are read: an
/// error with `duplicate_mdoc_message` when one of them has its MDOC number.
pub fn check_new_operator(stored: &Vec<Operator>, op: &Operator) -> (r: Result<(), AppError>)
    ensures
        has_operator_mdoc(stored.deep_view(), op.mdoc) ==> (r matches Err(AppError::Unexpected(m)) && m@
            == duplicate_mdoc_message(op.mdoc)),
        !has_operator_mdoc(stored.deep_view(), op.mdoc) ==> r is Ok,
{
    let ghost ops = stored.deep_view();
    let n = stored.len();
    let mut i: usize = 0;
    while i < n
        invariant
            n == stored@.len(),
            ops == stored.deep_view(),
            i <= n,
            forall|k: int| 0 <= k < i ==> (#[trigger] ops[k]).mdoc != op.mdoc,
        decreases n - i,
    {
        if stored[i].mdoc == op.mdoc {
            assert(ops[i as int].mdoc == op.mdoc);
            let text = String::from_str("Operator mdoc '").concat(int_to_string(op.mdoc).as_str()).concat(
                "' already exists",
            );
            return Err(AppError::Unexpected(text));
        }
        assert(ops[i as int].mdoc == stored@[i as int].mdoc);
        i = i + 1;
    }
    Ok(())
}

/// What updating an operator gives once it is looked up by MDOC number: an
/// error `NotFound` with `missing_operator_message` when there is none.
pub fn check_operator_found(found: &Option<Operator>, mdoc: i32) -> (r: Result<(), AppError>)
    ensures
        found is None ==> (r matches Err(AppError::NotFound(m)) && m@ == missing_operator_message(mdoc)),
        found is Some ==> r is Ok,
{
    if found.is_none() {
        let text = String::from_str("Cannot update: Operator with mdoc ").concat(int_to_string(mdoc).as_str()).concat(
            " not found",
        );
        return Err(AppError::NotFound(text));
    }
    Ok(())
}

/// Whether no two operators share an MDOC number.
pub open spec fn operator_mdocs_unique(ops: Seq<OperatorView>) -> bool {
    forall|i: int, j: int| 0 <= i < j < ops.len() ==> (#[trigger] ops[i]).mdoc != (#[trigger] ops[j]).mdoc
}

/// MDOC numbers stay unique when an operator is created: `create_operator`
/// stores an operator only when no stored operator has its number.
pub proof fn create_keeps_operator_mdocs_unique(ops: Seq<OperatorView>, op: OperatorView)
    requires
        operator_mdocs_unique(ops),
        !has_operator_mdoc(ops, op.mdoc),
    ensures
        operator_mdocs_unique(ops.push(op)),
{
    assert forall|i: int, j: int| 0 <= i < j < ops.push(op).len() implies (#[trigger] ops.push(op)[i]).mdoc != (
    #[trigger] ops.push(op)[j]).mdoc by {
        if j == ops.len() {
            assert(ops[i] == ops.push(op)[i]);
        } else {
            assert(ops[i] == ops.push(op)[i] && ops[j] == ops.push(op)[j]);
        }
    }
}

/// MDOC numbers stay unique when an operator is updated: the update
/// replaces operators with its number and leaves every number where it was.
pub proof fn update_keeps_operator_mdocs_unique(ops: Seq<OperatorView>, op: OperatorView)
    requires
        operator_mdocs_unique(ops),
    ensures
        operator_mdocs_unique(operators_updated(ops, op)),
{
    let after = operators_updated(ops, op);
    assert forall|i: int, j: int| 0 <= i < j < after.len() implies (#[trigger] after[i]).mdoc != (
    #[trigger] after[j]).mdoc by {
        assert(after[i].mdoc == ops[i].mdoc);
        assert(after[j].mdoc == ops[j].mdoc);
        assert(ops[i].mdoc != ops[j].mdoc);
    }
}

/// A created operator is found by its MDOC number afterwards.
pub proof fn created_operator_is_found(ops: Seq<OperatorView>, op: OperatorView)
    requires
        !has_operator_mdoc(ops, op.mdoc),
    ensures
        operator_with_mdoc(ops.push(op), op.mdoc) == Some(op),
    decreases ops.len(),
{
    if ops.len() > 0 {
        assert(ops.push(op).drop_first() =~= ops.drop_first().push(op));
        assert(ops.push(op)[0] == ops[0]);
        assert(ops[0].mdoc != op.mdoc);
        assert(!has_operator_mdoc(ops.drop_first(), op.mdoc)) by {
            if has_operator_mdoc(ops.drop_first(), op.mdoc) {
                let k = choose|k: int| 0 <= k < ops.drop_first().len() && (#[trigger] ops.drop_first()[k]).mdoc == op.mdoc;
                assert(ops[k + 1].mdoc == op.mdoc);
            }
        }
        created_operator_is_found(ops.drop_first(), op);
    } else {
        assert(ops.push(op)[0] == op);
    }
}

/// No operator has an MDOC number that a lookup by that number does not find.
pub(crate) proof fn lemma_operator_not_found(ops: Seq<OperatorView>, mdoc: i32)
    requires
        operator_with_mdoc(ops, mdoc) is None,
    ensures
        !has_operator_mdoc(ops, mdoc),
    decreases ops.len(),
{
    if ops.len() > 0 {
        lemma_operator_not_found(ops.drop_first(), mdoc);
        assert forall|k: int| 0 <= k < ops.len() implies (#[trigger] ops[k]).mdoc != mdoc by {
            if k > 0 {
                assert(ops[k] == ops.drop_first()[k - 1]);
            }
        }
    }
}

} // verus!
