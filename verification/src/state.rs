//! What the interactor remembers between runs.
use vstd::prelude::*;

use crate::address::Bech32Address;

verus! {

/// The interactor's persisted state: the address of the deployed contract
/// and the token collection it works with, each absent until known.
#[derive(Clone, Debug, PartialEq, Eq)]
pub struct State {
    pub contract_address: Option<Bech32Address>,
    pub collection: Option<String>,
}

impl State {
    /// The state right after `set_address(address)`.
    pub open spec fn with_address(self, address: Bech32Address) -> State {
        State { contract_address: Some(address), ..self }
    }

    /// The state right after `set_collection(collection)`.
    pub open spec fn with_collection(self, collection: String) -> State {
        State { collection: Some(collection), ..self }
    }

    /// The state with nothing known yet.
    pub open spec fn empty() -> State {
        State { contract_address: None, collection: None }
    }

    /// The state to start from: what was saved, if anything was, else the
    /// empty state. Reading and parsing the saved file is the caller's part.
    pub fn load_state(saved: Option<State>) -> (res: State)
        ensures
            saved matches Some(s) ==> res == s,
            saved is None ==> res == State::empty(),
    {
        match saved {
            Some(s) => s,
            None => State::default(),
        }
    }

    /// Records the address of the deployed contract.
    pub fn set_address(&mut self, address: Bech32Address)
        ensures
            *final(self) == old(self).with_address(address),
    {
        self.contract_address = Some(address);
    }

    /// The address of the deployed contract. Only defined once one was
    /// recorded (the interactor stops with "no known contract, deploy
    /// first" otherwise).
    pub fn current_address(&self) -> (res: &Bech32Address)
        requires
            self.contract_address is Some,
        ensures
            *res == self.contract_address->0,
    {
        self.contract_address.as_ref().unwrap()
    }

    /// Records the token collection.
    pub fn set_collection(&mut self, collection: String)
        ensures
            *final(self) == old(self).with_collection(collection),
    {
        self.collection = Some(collection);
    }

    /// The token collection. Only defined once one was recorded (the
    /// interactor stops with "no known collection, create first"
    /// otherwise).
    pub fn get_collection(&self) -> (res: &String)
        requires
            self.collection is Some,
        ensures
            *res == self.collection->0,
    {
        self.collection.as_ref().unwrap()
    }
}

impl Default for State {
    fn default() -> (res: State)
        ensures
            res == State::empty(),
    {
        State { contract_address: None, collection: None }
    }
}

/// Reading the address back gives what was recorded last, whatever the
/// state held before.
pub proof fn law_address_read_after_write(s: State, address: Bech32Address)
    ensures
        s.with_address(address).contract_address == Some(address),
        s.with_address(address).collection == s.collection,
{
}

/// Reading the collection back gives what was recorded last, and the
/// contract address is left as it was.
pub proof fn law_collection_read_after_write(s: State, collection: String)
    ensures
        s.with_collection(collection).collection == Some(collection),
        s.with_collection(collection).contract_address == s.contract_address,
{
}

/// A second recorded address replaces the first.
pub proof fn law_address_last_write_wins(s: State, first: Bech32Address, second: Bech32Address)
    ensures
        s.with_address(first).with_address(second) == s.with_address(second),
{
}

/// Recording the address and recording the collection do not interfere:
/// either order gives the same state.
pub proof fn law_setters_commute(s: State, address: Bech32Address, collection: String)
    ensures
        s.with_address(address).with_collection(collection) == s.with_collection(
            collection,
        ).with_address(address),
{
}

} // verus!
