use vstd::prelude::*;

use crate::auth_manager::ServiceCredentials;
use crate::error::HubError;
use crate::hub_thing::HubThingView;
use crate::message::PartialThingMessage;
use crate::model::ThingRequest;
use crate::state::{teardown_of, Teardown, ThingSyncState};
use crate::things_db::{unpaired, ThingDb};

verus! {

/// The agent's two stores, and the operations that local callers ask for.
///
/// Calls to the cloud are made by the caller; their results come in as
/// arguments.
pub struct HubSDK {
    pub credentials: ServiceCredentials,
    pub things: ThingDb,
}

impl HubSDK {
    pub open spec fn wf(&self) -> bool {
        self.things.wf()
    }

    /// The SDK over loaded stores.
    pub fn new(credentials: ServiceCredentials, things: ThingDb) -> (r: Self)
        requires
            things.wf(),
        ensures
            r.wf(),
            r.credentials == credentials,
            r.things == things,
    {
        HubSDK { credentials, things }
    }

    /// The user name, and whether the token is valid: there is one and the
    /// authorization service accepted it (`token_accepted`).
    pub fn check_token(&self, token_accepted: bool) -> (r: (String, bool))
        ensures
            r.0@ == self.credentials.username@,
            r.1 == (self.credentials.token is Some && token_accepted),
    {
        (self.credentials.username.clone(), self.credentials.token.is_some() && token_accepted)
    }

    /// Records a login. `granted` is the token that the authorization
    /// service returned, or `None` when it refused; a refusal changes
    /// nothing.
    pub fn login(&mut self, email: &str, granted: Option<String>) -> (r: Result<(), HubError>)
        requires
            old(self).wf(),
        ensures
            final(self).wf(),
            final(self).things == old(self).things,
            match granted {
                Some(t) => {
                    &&& r is Ok
                    &&& final(self).credentials.username@ == email@
                    &&& final(self).credentials.token == Some(t)
                },
                None => {
                    &&& r == Err::<(), HubError>(HubError::LoginFailed)
                    &&& final(self).credentials == old(self).credentials
                },
            },
    {
        match granted {
            Some(t) => {
                self.credentials.record_login(email, t);
                Ok(())
            },
            None => Err(HubError::LoginFailed),
        }
    }

    /// Forgets the credentials first, then unpairs every thing. Returns
    /// what to release for each thing.
    pub fn logout(&mut self) -> (r: Vec<Teardown>)
        requires
            old(self).wf(),
        ensures
            final(self).wf(),
            final(self).credentials.username@ == Seq::<char>::empty(),
            final(self).credentials.token is None,
            final(self).things@.primary == Map::<Seq<char>, HubThingView>::empty(),
            final(self).things@.secondary == Map::<u128, Seq<char>>::empty(),
            forall|k: Seq<char>|
                old(self).things@.primary.contains_key(k) <==> exists|i: int|
                    0 <= i < r@.len() && #[trigger] r@[i].serial@ == k,
            forall|i: int|
                0 <= i < r@.len() ==> teardown_of(
                    old(self).things@.primary[#[trigger] r@[i].serial@].state,
                    r@[i].serial,
                    r@[i],
                ),
    {
        self.credentials.clear();
        self.things.unpair_all()
    }

    /// Registers a new thing, unless its serial number is taken.
    pub fn create_thing(&mut self, request: ThingRequest) -> (r: Result<(), HubError>)
        requires
            old(self).wf(),
        ensures
            final(self).wf(),
            final(self).credentials == old(self).credentials,
            old(self).things@.primary.contains_key(request.serial_number@) ==> {
                &&& r == Err::<(), HubError>(HubError::DuplicateSerial)
                &&& final(self).things@ == old(self).things@
            },
            !old(self).things@.primary.contains_key(request.serial_number@) ==> {
                &&& r is Ok
                &&& final(self).things@.primary == old(self).things@.primary.insert(
                    request.serial_number@,
                    HubThingView {
                        state: ThingSyncState::Created(request),
                        outbox: Seq::empty(),
                        inbox: Seq::empty(),
                    },
                )
                &&& final(self).things@.secondary == old(self).things@.secondary
            },
    {
        self.things.add_thing(request)
    }

    /// Checks that a thing may be deleted from the cloud: it must be
    /// unpaired, and a user must be logged in. Returns the token for the
    /// cloud calls; the caller then looks the serial number up and deletes
    /// what it finds (nothing found counts as done).
    pub fn delete_thing_by_serial(&self, serial: &str) -> (r: Result<String, HubError>)
        requires
            self.wf(),
        ensures
            self.things@.primary.contains_key(serial@) ==> r == Err::<String, HubError>(
                HubError::StillPaired,
            ),
            !self.things@.primary.contains_key(serial@) ==> match self.credentials.token {
                Some(t) => r == Ok::<String, HubError>(t),
                None => r == Err::<String, HubError>(HubError::NotLoggedIn),
            },
    {
        if self.things.contains_serial(serial) {
            return Err(HubError::StillPaired);
        }
        match &self.credentials.token {
            Some(t) => Ok(t.clone()),
            None => Err(HubError::NotLoggedIn),
        }
    }

    /// Unpairs a thing. An unknown serial number is no error: the call
    /// always succeeds, and says what to release if there was a thing.
    pub fn unpair_thing_by_serial(&mut self, serial: &str) -> (r: Option<Teardown>)
        requires
            old(self).wf(),
        ensures
            final(self).wf(),
            final(self).credentials == old(self).credentials,
            final(self).things@ == unpaired(old(self).things@, serial@),
            old(self).things@.primary.contains_key(serial@) ==> {
                &&& r matches Some(t)
                &&& t.serial@ == serial@
                &&& teardown_of(old(self).things@.primary[serial@].state, t.serial, t)
            },
            !old(self).things@.primary.contains_key(serial@) ==> r is None,
    {
        match self.things.unpair(serial) {
            Ok(t) => Some(t),
            Err(_) => None,
        }
    }

    /// Queues messages for the cloud on behalf of a thing.
    pub fn send_messages(&mut self, serial: &str, messages: &[PartialThingMessage]) -> (r: Result<(), HubError>)
        requires
            old(self).wf(),
        ensures
            final(self).wf(),
            final(self).credentials == old(self).credentials,
            final(self).things@.secondary == old(self).things@.secondary,
            !old(self).things@.primary.contains_key(serial@) ==> {
                &&& r == Err::<(), HubError>(HubError::UnknownSerial)
                &&& final(self).things@ == old(self).things@
            },
            old(self).things@.primary.contains_key(serial@) ==> {
                let before = old(self).things@.primary[serial@];
                &&& r is Ok
                &&& final(self).things@.primary == old(self).things@.primary.insert(
                    serial@,
                    HubThingView { outbox: before.outbox + messages@, ..before },
                )
            },
    {
        self.things.hub_tx(serial, messages)
    }

    /// Takes the messages that the cloud sent to a thing, oldest first.
    pub fn receive_messages(&mut self, serial: &str) -> (r: Result<Vec<PartialThingMessage>, HubError>)
        requires
            old(self).wf(),
        ensures
            final(self).wf(),
            final(self).credentials == old(self).credentials,
            final(self).things@.secondary == old(self).things@.secondary,
            !old(self).things@.primary.contains_key(serial@) ==> {
                &&& r matches Err(e) && e == HubError::UnknownSerial
                &&& final(self).things@ == old(self).things@
            },
            old(self).things@.primary.contains_key(serial@) ==> {
                let before = old(self).things@.primary[serial@];
                &&& r matches Ok(msgs) && msgs@ == before.inbox
                &&& final(self).things@.primary == old(self).things@.primary.insert(
                    serial@,
                    HubThingView { inbox: Seq::empty(), ..before },
                )
            },
    {
        self.things.hub_rx(serial)
    }
}

} // verus!
