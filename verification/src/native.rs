//! The administration calls that the timelock runs on itself: which
//! functions there are, and how their arguments are read.

use crate::config::{RoleLabel, TimeLockError};
use crate::types::{value_views, Address, Symbol, Value, ValueView};
use vstd::prelude::*;

verus! {

broadcast use vstd::array::group_array_axioms;

/// An administration function of the timelock, with its arguments.
#[derive(Copy, Clone, Debug, PartialEq, Eq)]
pub enum AdminCall {
    UpdateMinDelay(u64),
    GrantRole(Address, RoleLabel),
    RevokeRole(Address, RoleLabel),
    UpdateOwner(Address),
}

/// Whether `name` names an administration function of the timelock.
pub open spec fn is_admin_fn(name: Seq<char>) -> bool {
    name == "update_min_delay"@ || name == "grant_role"@ || name == "revoke_role"@ || name
        == "update_owner"@
}

/// The value that stands for a role: its number, as a 32-bit unsigned
/// value.
pub open spec fn role_value(role: RoleLabel) -> ValueView {
    ValueView::U32(role.spec_code())
}

/// The value that stands for `role`.
pub fn encode_role(role: &RoleLabel) -> (out: Value)
    ensures
        out@ == role_value(*role),
{
    Value::U32(role.code())
}

/// The role that a value stands for: 1, 2 and 3 as 32-bit unsigned values
/// are proposer, executor and canceller.
pub open spec fn role_of(value: ValueView) -> Option<RoleLabel> {
    match value {
        ValueView::U32(n) => if n == 1 {
            Some(RoleLabel::Proposer)
        } else if n == 2 {
            Some(RoleLabel::Executor)
        } else if n == 3 {
            Some(RoleLabel::Canceller)
        } else {
            None
        },
        _ => None,
    }
}

/// The delay that the arguments of `update_min_delay` give: the first
/// argument, which has to be a 64-bit unsigned value.
pub open spec fn min_delay_args(data: Seq<ValueView>) -> Option<u64> {
    if data.len() >= 1 && data[0] is U64 {
        Some(data[0]->U64_0)
    } else {
        None
    }
}

/// The account and role that the arguments of `grant_role` and `revoke_role`
/// give: the first argument, an address, and the second, a role.
pub open spec fn role_args(data: Seq<ValueView>) -> Option<(Address, RoleLabel)> {
    if data.len() >= 2 && data[0] is Address && role_of(data[1]).is_some() {
        Some((data[0]->Address_0, role_of(data[1]).unwrap()))
    } else {
        None
    }
}

/// The account that the arguments of `update_owner` give: the first
/// argument, which has to be an address.
pub open spec fn owner_args(data: Seq<ValueView>) -> Option<Address> {
    if data.len() >= 1 && data[0] is Address {
        Some(data[0]->Address_0)
    } else {
        None
    }
}

/// The administration call that a function name and arguments describe. A
/// name outside the list is `InvalidFuncName`; arguments that do not decode
/// are `InvalidParams`.
pub open spec fn admin_call(fn_name: Seq<char>, data: Seq<ValueView>) -> Result<
    AdminCall,
    TimeLockError,
> {
    if fn_name == "update_min_delay"@ {
        match min_delay_args(data) {
            Some(delay) => Ok(AdminCall::UpdateMinDelay(delay)),
            None => Err(TimeLockError::InvalidParams),
        }
    } else if fn_name == "grant_role"@ {
        match role_args(data) {
            Some((account, role)) => Ok(AdminCall::GrantRole(account, role)),
            None => Err(TimeLockError::InvalidParams),
        }
    } else if fn_name == "revoke_role"@ {
        match role_args(data) {
            Some((account, role)) => Ok(AdminCall::RevokeRole(account, role)),
            None => Err(TimeLockError::InvalidParams),
        }
    } else if fn_name == "update_owner"@ {
        match owner_args(data) {
            Some(account) => Ok(AdminCall::UpdateOwner(account)),
            None => Err(TimeLockError::InvalidParams),
        }
    } else {
        Err(TimeLockError::InvalidFuncName)
    }
}

/// Accepts the names of the administration functions, and no other.
pub fn check_fn_name(fn_name: &Symbol) -> (out: Result<(), TimeLockError>)
    ensures
        out == (if is_admin_fn(fn_name@) {
            Ok::<(), TimeLockError>(())
        } else {
            Err(TimeLockError::InvalidFuncName)
        }),
{
    if fn_name.is("update_min_delay") {
        Ok(())
    } else if fn_name.is("grant_role") {
        Ok(())
    } else if fn_name.is("revoke_role") {
        Ok(())
    } else if fn_name.is("update_owner") {
        Ok(())
    } else {
        Err(TimeLockError::InvalidFuncName)
    }
}

/// Reads a role from a value.
pub fn decode_role(value: &Value) -> (out: Option<RoleLabel>)
    ensures
        out == role_of(value@),
{
    match value {
        Value::U32(n) => {
            if *n == 1 {
                Some(RoleLabel::Proposer)
            } else if *n == 2 {
                Some(RoleLabel::Executor)
            } else if *n == 3 {
                Some(RoleLabel::Canceller)
            } else {
                None
            }
        },
        _ => None,
    }
}

/// Reads the arguments of `update_min_delay`.
pub fn decode_min_delay_args(data: &Vec<Value>) -> (out: Result<u64, TimeLockError>)
    ensures
        out == (match min_delay_args(value_views(data@)) {
            Some(delay) => Ok::<u64, TimeLockError>(delay),
            None => Err(TimeLockError::InvalidParams),
        }),
{
    if data.len() >= 1 {
        match &data[0] {
            Value::U64(delay) => Ok(*delay),
            _ => Err(TimeLockError::InvalidParams),
        }
    } else {
        Err(TimeLockError::InvalidParams)
    }
}

/// Reads the arguments of `grant_role` and `revoke_role`.
pub fn decode_role_args(data: &Vec<Value>) -> (out: Result<(Address, RoleLabel), TimeLockError>)
    ensures
        out == (match role_args(value_views(data@)) {
            Some(pair) => Ok::<(Address, RoleLabel), TimeLockError>(pair),
            None => Err(TimeLockError::InvalidParams),
        }),
{
    if data.len() >= 2 {
        match &data[0] {
            Value::Address(account) => {
                match decode_role(&data[1]) {
                    Some(role) => Ok((*account, role)),
                    None => Err(TimeLockError::InvalidParams),
                }
            },
            _ => Err(TimeLockError::InvalidParams),
        }
    } else {
        Err(TimeLockError::InvalidParams)
    }
}

/// Reads the arguments of `update_owner`.
pub fn decode_owner_args(data: &Vec<Value>) -> (out: Result<Address, TimeLockError>)
    ensures
        out == (match owner_args(value_views(data@)) {
            Some(account) => Ok::<Address, TimeLockError>(account),
            None => Err(TimeLockError::InvalidParams),
        }),
{
    if data.len() >= 1 {
        match &data[0] {
            Value::Address(account) => Ok(*account),
            _ => Err(TimeLockError::InvalidParams),
        }
    } else {
        Err(TimeLockError::InvalidParams)
    }
}

/// Reads an administration call from a function name and arguments.
pub fn decode_admin_call(fn_name: &Symbol, data: &Vec<Value>) -> (out: Result<
    AdminCall,
    TimeLockError,
>)
    ensures
        out == admin_call(fn_name@, value_views(data@)),
{
    if fn_name.is("update_min_delay") {
        match decode_min_delay_args(data) {
            Ok(delay) => Ok(AdminCall::UpdateMinDelay(delay)),
            Err(error) => Err(error),
        }
    } else if fn_name.is("grant_role") {
        match decode_role_args(data) {
            Ok((account, role)) => Ok(AdminCall::GrantRole(account, role)),
            Err(error) => Err(error),
        }
    } else if fn_name.is("revoke_role") {
        match decode_role_args(data) {
            Ok((account, role)) => Ok(AdminCall::RevokeRole(account, role)),
            Err(error) => Err(error),
        }
    } else if fn_name.is("update_owner") {
        match decode_owner_args(data) {
            Ok(account) => Ok(AdminCall::UpdateOwner(account)),
            Err(error) => Err(error),
        }
    } else {
        Err(TimeLockError::InvalidFuncName)
    }
}

} // verus!
