use vstd::prelude::*;

use crate::backlog::Backlog;
use crate::collection::{
    has_key, spec_add, spec_assign, spec_estimate, AddItem, AssignableFromCollection,
    EstimatableFromCollection, FindFromCollection,
};
use crate::commands::{add_cmd_ok, cmd_built, AddItemCmd, AssignItemCmd, EstimateItemCmd};
use crate::entity::Entity;
use crate::error::BacklogError;
use crate::item::ItemModel;
use crate::ports::PortsError;
use crate::service::{BusinessLogicError, ServiceError};
use crate::types::fibonacci_scale;

verus! {

/// Failures crossing the use-case layer of the early port stack: a domain
/// rule, the persistence port, or a missing resource.
#[derive(Debug)]
pub enum UseCaseError {
    Backlog(BacklogError),
    Ports(PortsError),
    NotFound(String),
}

pub type UseCaseResult<T> = Result<T, UseCaseError>;

impl UseCaseError {
    pub fn not_found(msg: &str) -> (r: Self)
        ensures
            r matches UseCaseError::NotFound(m) && m@ == msg@,
    {
        UseCaseError::NotFound(msg.to_string())
    }
}

/// The mutate phase of the add-item use case, applied to a loaded snapshot:
/// the command's arguments are evaluated in full first, so an invalid command
/// leaves the snapshot untouched; a valid one inserts the built item under
/// its fresh identity.
pub fn add_item_uc<C: AddItemCmd>(backlog: &mut Backlog, cmd: &C) -> (r: Result<(), ServiceError>)
    requires
        old(backlog).wf(),
    ensures
        final(backlog).wf(),
        final(backlog)@.id == old(backlog)@.id,
        add_cmd_ok(cmd.spec_item_type(), cmd.spec_point()) ==> (r is Ok && exists|m: ItemModel|
            #![auto]
            cmd_built(m, cmd.spec_item_type(), cmd.spec_title(), cmd.spec_point(), cmd.spec_assignee())
                && final(backlog)@.items == spec_add(old(backlog)@.items, m)),
        !add_cmd_ok(cmd.spec_item_type(), cmd.spec_point()) ==> (r matches Err(
            ServiceError::Incomming(e),
        ) && final(backlog)@ == old(backlog)@),
{
    let item = match cmd.item() {
        Ok(it) => it,
        Err(e) => {
            return Err(ServiceError::Incomming(e));
        },
    };
    backlog.add_item(item);
    Ok(())
}

/// The mutate phase of the assign-item use case, applied to a loaded
/// snapshot: an absent identity is a business-rule failure and leaves the
/// snapshot untouched; otherwise the named item takes the assignee.
pub fn assign_item_uc<C: AssignItemCmd>(backlog: &mut Backlog, cmd: &C) -> (r: Result<
    (),
    ServiceError,
>)
    requires
        old(backlog).wf(),
    ensures
        final(backlog).wf(),
        final(backlog)@.id == old(backlog)@.id,
        has_key(old(backlog)@.items, cmd.spec_item_id()) ==> (r is Ok && final(backlog)@.items
            == spec_assign(old(backlog)@.items, cmd.spec_item_id(), cmd.spec_assignee_name())),
        !has_key(old(backlog)@.items, cmd.spec_item_id()) ==> (r matches Err(
            ServiceError::BusinessLogic(BusinessLogicError::Backlog(e)),
        ) && e is NotFound && final(backlog)@ == old(backlog)@),
{
    let id = match cmd.id() {
        Ok(i) => i,
        Err(_) => vstd::pervasive::unreached(),
    };
    let assignee = match cmd.assignee() {
        Ok(a) => a,
        Err(_) => vstd::pervasive::unreached(),
    };
    match backlog.assign_item(id, assignee) {
        Ok(()) => Ok(()),
        Err(e) => Err(ServiceError::BusinessLogic(BusinessLogicError::Backlog(e))),
    }
}

/// The mutate phase of the estimate-item use case, applied to a loaded
/// snapshot: the raw point is validated before the identity lookup, so a
/// point off the scale is an incoming failure and nothing else happens; an
/// absent identity is a business-rule failure; otherwise the named item
/// takes the estimate.
pub fn estimate_item_uc<C: EstimateItemCmd>(backlog: &mut Backlog, cmd: &C) -> (r: Result<
    (),
    ServiceError,
>)
    requires
        old(backlog).wf(),
    ensures
        final(backlog).wf(),
        final(backlog)@.id == old(backlog)@.id,
        !fibonacci_scale(cmd.spec_point()) ==> (r matches Err(ServiceError::Incomming(e))
            && final(backlog)@ == old(backlog)@),
        fibonacci_scale(cmd.spec_point()) && has_key(old(backlog)@.items, cmd.spec_item_id()) ==> (
        r is Ok && final(backlog)@.items == spec_estimate(
            old(backlog)@.items,
            cmd.spec_item_id(),
            cmd.spec_point(),
        )),
        fibonacci_scale(cmd.spec_point()) && !has_key(old(backlog)@.items, cmd.spec_item_id())
            ==> (r matches Err(ServiceError::BusinessLogic(BusinessLogicError::Backlog(e)))
            && e is NotFound && final(backlog)@ == old(backlog)@),
{
    let point = match cmd.point() {
        Ok(p) => p,
        Err(e) => {
            return Err(ServiceError::Incomming(e));
        },
    };
    let id = match cmd.id() {
        Ok(i) => i,
        Err(_) => vstd::pervasive::unreached(),
    };
    match backlog.estimate_item(id, point) {
        Ok(()) => Ok(()),
        Err(e) => Err(ServiceError::BusinessLogic(BusinessLogicError::Backlog(e))),
    }
}

} // verus!
