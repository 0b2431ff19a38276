use crate::domain::amounts::{AvailableAmount, HeldAmount, TotalAmount};
use crate::domain::client::Client;
use crate::domain::client_id::ClientId;
use crate::domain::client_status::ClientStatus;
use crate::error::client_error::ClientError;
use std::collections::HashMap;
use vstd::prelude::*;
use vstd::std_specs::hash::{axiom_spec_keys_iter, spec_keys_iter};
use vstd::std_specs::iter::IteratorSpec;

verus! {

/// What a lookup of `id` in `accounts` gives.
pub open spec fn found_client(accounts: Map<ClientId, Client>, id: ClientId) -> Result<
    Client,
    ClientError,
> {
    if accounts.contains_key(id) {
        Ok(accounts[id])
    } else {
        Err(ClientError::NotFound { id })
    }
}

/// `listing` holds every account of `accounts` once, in some order.
pub open spec fn lists_accounts(accounts: Map<ClientId, Client>, listing: Seq<Client>) -> bool {
    &&& forall|i: int|
        0 <= i < listing.len() ==> accounts.contains_key((#[trigger] listing[i]).id)
            && accounts[listing[i].id] == listing[i]
    &&& forall|i: int, j: int|
        0 <= i < j < listing.len() ==> (#[trigger] listing[i]).id != (#[trigger] listing[j]).id
    &&& forall|id: ClientId| #[trigger]
        accounts.contains_key(id) ==> exists|i: int|
            0 <= i < listing.len() && (#[trigger] listing[i]).id == id
}

/// A key-value store of accounts. A write never fails and replaces what stood
/// under the client's identifier; nothing is ever removed.
pub trait ClientRepository {
    /// The accounts in the store, each under its client's identifier.
    spec fn accounts(&self) -> Map<ClientId, Client>;

    fn get_client(&self, id: &ClientId) -> (result: Result<Client, ClientError>)
        ensures
            result == found_client(self.accounts(), *id),
            result matches Ok(client) ==> client.id == *id,
    ;

    fn create_client(&mut self, client: &Client) -> (result: Result<Client, ClientError>)
        ensures
            result == Ok::<Client, ClientError>(*client),
            final(self).accounts() == old(self).accounts().insert(client.id, *client),
    ;

    fn update_client(&mut self, client: &Client) -> (result: Result<Client, ClientError>)
        ensures
            result == Ok::<Client, ClientError>(*client),
            final(self).accounts() == old(self).accounts().insert(client.id, *client),
    ;

    fn get_all_clients(&self) -> (result: Vec<Client>)
        ensures
            lists_accounts(self.accounts(), result@),
    ;
}

/// What the store keeps of an account. The client's identifier is the key
/// that it is kept under.
#[derive(Debug, Clone, Copy)]
struct Balances {
    available: AvailableAmount,
    held: HeldAmount,
    total: TotalAmount,
    status: ClientStatus,
}

impl Balances {
    spec fn account(self, id: ClientId) -> Client {
        Client {
            id,
            available: self.available,
            held: self.held,
            total: self.total,
            status: self.status,
        }
    }

    fn of(client: &Client) -> (result: Self)
        ensures
            result.account(client.id) == *client,
    {
        Self {
            available: client.available,
            held: client.held,
            total: client.total,
            status: client.status,
        }
    }

    fn to_client(&self, id: ClientId) -> (result: Client)
        ensures
            result == self.account(id),
    {
        Client {
            id,
            available: self.available,
            held: self.held,
            total: self.total,
            status: self.status,
        }
    }
}

/// The store in memory.
#[derive(Debug)]
pub struct ClientRepositoryImpl {
    clients: HashMap<u16, Balances>,
}

impl Clone for ClientRepositoryImpl {
    /// A second store with the same accounts.
    fn clone(&self) -> (result: Self)
        ensures
            result.accounts() == self.accounts(),
    {
        let result = Self { clients: self.clients.clone() };
        assert(result.accounts() =~= self.accounts());
        result
    }
}

impl ClientRepositoryImpl {
    pub fn new() -> (result: Self)
        ensures
            result.accounts() == Map::<ClientId, Client>::empty(),
    {
        let result = Self { clients: HashMap::new() };
        assert(result.accounts() =~= Map::<ClientId, Client>::empty());
        result
    }
}

impl ClientRepository for ClientRepositoryImpl {
    closed spec fn accounts(&self) -> Map<ClientId, Client> {
        Map::new(
            |id: ClientId| self.clients@.contains_key(id.0),
            |id: ClientId| self.clients@[id.0].account(id),
        )
    }

    fn get_client(&self, id: &ClientId) -> (result: Result<Client, ClientError>) {
        match self.clients.get(&id.0) {
            Some(balances) => Ok(balances.to_client(*id)),
            None => Err(ClientError::NotFound { id: *id }),
        }
    }

    fn create_client(&mut self, client: &Client) -> (result: Result<Client, ClientError>) {
        self.clients.insert(client.id.0, Balances::of(client));
        assert(self.accounts() =~= old(self).accounts().insert(client.id, *client));
        Ok(*client)
    }

    fn update_client(&mut self, client: &Client) -> (result: Result<Client, ClientError>) {
        self.clients.insert(client.id.0, Balances::of(client));
        assert(self.accounts() =~= old(self).accounts().insert(client.id, *client));
        Ok(*client)
    }

    fn get_all_clients(&self) -> (result: Vec<Client>) {
        let ghost keys = spec_keys_iter(&self.clients).remaining();
        proof {
            axiom_spec_keys_iter(&self.clients);
        }
        let mut listing: Vec<Client> = Vec::new();
        for key in iter: self.clients.keys()
            invariant
                iter.seq() == keys,
                keys.unref().to_set() == self.clients@.dom(),
                listing@.len() == iter.index(),
                forall|i: int|
                    0 <= i < listing@.len() ==> (#[trigger] listing@[i])
                        == self.clients@[*keys[i]].account(ClientId(*keys[i])),
        {
            assert(keys.unref().to_set().contains(keys.unref()[iter.index()]));
            match self.clients.get(key) {
                Some(balances) => listing.push(balances.to_client(ClientId(*key))),
                None => {},
            }
        }
        proof {
            let accounts = self.accounts();
            assert forall|i: int| 0 <= i < listing@.len() implies accounts.contains_key(
                (#[trigger] listing@[i]).id,
            ) && accounts[listing@[i].id] == listing@[i] by {
                assert(keys.unref().to_set().contains(keys.unref()[i]));
            }
            assert forall|id: ClientId| #[trigger] accounts.contains_key(id) implies exists|i: int|
                0 <= i < listing@.len() && (#[trigger] listing@[i]).id == id by {
                assert(keys.unref().to_set().contains(id.0));
                let i = choose|i: int| 0 <= i < keys.len() && keys.unref()[i] == id.0;
                assert(listing@[i].id == id);
            }
        }
        listing
    }
}

} // verus!
