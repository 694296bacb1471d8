//! A small contract to put under a timelock: a counter with an owner.

use crate::types::{value_views, Address, Symbol, Value, ValueView};
use vstd::prelude::*;

verus! {

broadcast use vstd::array::group_array_axioms;

/// A counter that anyone may increment, with one entry that only its owner
/// may call.
#[derive(Debug)]
pub struct IncrementContract {
    owner: Option<Address>,
    count: u32,
}

/// What an `IncrementContract` holds.
pub struct IncrementView {
    pub owner: Option<Address>,
    pub count: u32,
}

impl View for IncrementContract {
    type V = IncrementView;

    closed spec fn view(&self) -> IncrementView {
        IncrementView { owner: self.owner, count: self.count }
    }
}

/// The number that the arguments of `increment` and `increment_owner` give:
/// the one argument, a 32-bit unsigned value.
pub open spec fn amount_args(data: Seq<ValueView>) -> Option<u32> {
    if data.len() == 1 && data[0] is U32 {
        Some(data[0]->U32_0)
    } else {
        None
    }
}

/// The account that the arguments of `initialize` give: the one argument,
/// an address.
pub open spec fn account_args(data: Seq<ValueView>) -> Option<Address> {
    if data.len() == 1 && data[0] is Address {
        Some(data[0]->Address_0)
    } else {
        None
    }
}

/// The counter after `amount` was added, with the new count; `None` where
/// the count would not fit.
pub open spec fn incremented(contract: IncrementView, amount: u32) -> Option<(IncrementView, u32)> {
    if contract.count + amount <= u32::MAX {
        Some(
            (
                IncrementView { count: (contract.count + amount) as u32, ..contract },
                (contract.count + amount) as u32,
            ),
        )
    } else {
        None
    }
}

/// What invoking `fn_name` with `data` on behalf of `invoker` does: the
/// contract afterwards and the number returned, or `None` where the call
/// fails. It fails for a name that the contract does not offer, for
/// arguments that do not fit the function, for a second `initialize`, for a
/// count that would not fit, and for `increment_owner` by anyone but the
/// owner.
pub open spec fn invoked(
    contract: IncrementView,
    invoker: Address,
    fn_name: Seq<char>,
    data: Seq<ValueView>,
) -> Option<(IncrementView, u32)> {
    if fn_name == "initialize"@ {
        if contract.owner.is_none() && account_args(data).is_some() {
            Some((IncrementView { owner: account_args(data), ..contract }, 0u32))
        } else {
            None
        }
    } else if fn_name == "increment"@ {
        if amount_args(data).is_some() {
            incremented(contract, amount_args(data).unwrap())
        } else {
            None
        }
    } else if fn_name == "increment_five"@ {
        if data.len() == 0 {
            incremented(contract, 5)
        } else {
            None
        }
    } else if fn_name == "increment_owner"@ {
        if contract.owner == Some(invoker) && amount_args(data).is_some() {
            incremented(contract, amount_args(data).unwrap())
        } else {
            None
        }
    } else if fn_name == "get_count"@ {
        if data.len() == 0 {
            Some((contract, contract.count))
        } else {
            None
        }
    } else {
        None
    }
}

impl IncrementContract {
    /// A counter at 0 without an owner.
    pub fn new() -> (out: IncrementContract)
        ensures
            out@ == (IncrementView { owner: None, count: 0 }),
    {
        IncrementContract { owner: None, count: 0 }
    }

    /// The contract with the given owner and count: a contract as it was
    /// stored.
    pub fn restore(owner: Option<Address>, count: u32) -> (out: IncrementContract)
        ensures
            out@ == (IncrementView { owner, count }),
    {
        IncrementContract { owner, count }
    }

    /// The owner; `None` where the contract has none.
    pub fn owner(&self) -> (out: Option<Address>)
        ensures
            out == self@.owner,
    {
        self.owner
    }

    /// Whether the contract has an owner.
    pub fn is_initialized(&self) -> (out: bool)
        ensures
            out == self@.owner.is_some(),
    {
        self.owner.is_some()
    }

    /// Whether `account` is the owner.
    pub fn is_owner(&self, account: &Address) -> (out: bool)
        ensures
            out == (self@.owner == Some(*account)),
    {
        match self.owner {
            Some(owner) => owner.same(account),
            None => false,
        }
    }

    /// Gives the contract its owner.
    pub fn initialize(&mut self, owner: Address)
        requires
            old(self)@.owner.is_none(),
        ensures
            final(self)@ == (IncrementView { owner: Some(owner), ..old(self)@ }),
    {
        self.owner = Some(owner);
    }

    /// Adds `num` to the counter and gives the new count.
    pub fn increment(&mut self, num: u32) -> (out: u32)
        requires
            old(self)@.count + num <= u32::MAX,
        ensures
            out == old(self)@.count + num,
            final(self)@ == (IncrementView { count: out, ..old(self)@ }),
    {
        self.count = self.count + num;
        self.count
    }

    /// Adds 5 to the counter and gives the new count.
    pub fn increment_five(&mut self) -> (out: u32)
        requires
            old(self)@.count + 5 <= u32::MAX,
        ensures
            out == old(self)@.count + 5,
            final(self)@ == (IncrementView { count: out, ..old(self)@ }),
    {
        self.increment(5)
    }

    /// Adds `num` to the counter, for the owner, and gives the new count.
    /// The host has authenticated the owner for this call.
    pub fn increment_owner(&mut self, num: u32) -> (out: u32)
        requires
            old(self)@.owner.is_some(),
            old(self)@.count + num <= u32::MAX,
        ensures
            out == old(self)@.count + num,
            final(self)@ == (IncrementView { count: out, ..old(self)@ }),
    {
        self.increment(num)
    }

    /// The count.
    pub fn get_count(&self) -> (out: u32)
        ensures
            out == self@.count,
    {
        self.count
    }

    /// Reads the one number that `increment` and `increment_owner` take.
    fn decode_amount(data: &Vec<Value>) -> (out: Option<u32>)
        ensures
            out == amount_args(value_views(data@)),
    {
        if data.len() == 1 {
            match &data[0] {
                Value::U32(amount) => Some(*amount),
                _ => None,
            }
        } else {
            None
        }
    }

    /// Adds `amount` where the count fits.
    fn try_increment(&mut self, amount: u32) -> (out: Option<u32>)
        ensures
            match out {
                Some(count) => incremented(old(self)@, amount) == Some((final(self)@, count)),
                None => incremented(old(self)@, amount).is_none() && final(self)@ == old(self)@,
            },
    {
        if amount <= u32::MAX - self.count {
            Some(self.increment(amount))
        } else {
            None
        }
    }

    /// Invokes the function `fn_name` with the arguments `data` for
    /// `invoker`, whom the host has authenticated. Gives the number that the
    /// function returns (0 for `initialize`), or `None` where the call
    /// fails; nothing changes then.
    pub fn invoke(&mut self, invoker: &Address, fn_name: &Symbol, data: &Vec<Value>) -> (out:
        Option<u32>)
        ensures
            match out {
                Some(number) => invoked(old(self)@, *invoker, fn_name@, value_views(data@))
                    == Some((final(self)@, number)),
                None => invoked(old(self)@, *invoker, fn_name@, value_views(data@)).is_none()
                    && final(self)@ == old(self)@,
            },
    {
        if fn_name.is("initialize") {
            if self.owner.is_none() && data.len() == 1 {
                match &data[0] {
                    Value::Address(owner) => {
                        self.initialize(*owner);
                        Some(0)
                    },
                    _ => None,
                }
            } else {
                None
            }
        } else if fn_name.is("increment") {
            match Self::decode_amount(data) {
                Some(amount) => self.try_increment(amount),
                None => None,
            }
        } else if fn_name.is("increment_five") {
            if data.len() == 0 {
                self.try_increment(5)
            } else {
                None
            }
        } else if fn_name.is("increment_owner") {
            if self.is_owner(invoker) {
                match Self::decode_amount(data) {
                    Some(amount) => self.try_increment(amount),
                    None => None,
                }
            } else {
                None
            }
        } else if fn_name.is("get_count") {
            if data.len() == 0 {
                Some(self.count)
            } else {
                None
            }
        } else {
            None
        }
    }
}

} // verus!
