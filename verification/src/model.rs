//! The name-registration state machine, as mathematics.
//!
//! A `Service` is what one service instance has stored: the state of its gate
//! and its name records. Every entry point is a function from the service
//! before the call to the service after it and to a reply. The entry points
//! in `contract` and `ungated` are proved to compute exactly these functions;
//! the module `laws` proves what holds of every sequence of calls.

use crate::error::ContractErrorView;
use crate::gate::gate_of;
use crate::gate::valid_address;
use crate::gate::Gate;
use crate::response::AttributeView;
use crate::response::EventView;
use crate::response::ResponseView;
use crate::state::name_entries;
use cosmwasm_std::MemoryStorage;
use vstd::prelude::*;

verus! {

/// What a service instance has stored.
pub struct Service {
    /// The state of the authorization gate.
    pub gate: Gate,
    /// Every stored name, by its raw bytes, with its owner; `None` stands
    /// for a record that cannot be read.
    pub names: Map<Seq<u8>, Option<Seq<char>>>,
}

/// The service that a storage holds.
pub open spec fn service_of(storage: MemoryStorage) -> Service {
    Service { gate: gate_of(storage), names: name_entries(storage) }
}

/// The service without data: gate uninitialized, no name bound.
pub open spec fn fresh() -> Service {
    Service { gate: Gate::Uninitialized, names: Map::empty() }
}

/// The store key of a name: its bytes in UTF-8, as they are.
pub open spec fn name_key(name: Seq<char>) -> Seq<u8> {
    vstd::utf8::encode_utf8(name)
}

/// How a request to register a name ends.
pub enum Verdict {
    /// The name was free and is now bound.
    Registered,
    /// The name was bound already.
    NameTaken,
    /// The authorization gate did not let the caller pass.
    NotOwner,
}

impl Service {
    /// Every stored record can be read.
    pub open spec fn readable(self) -> bool {
        forall|name: Seq<u8>| #[trigger] self.names.contains_key(name) ==> self.names[name] is Some
    }

    /// Something is stored under the name that cannot be read.
    pub open spec fn unreadable_at(self, name: Seq<u8>) -> bool {
        self.names.contains_key(name) && self.names[name] is None
    }

    /// The owner of the name, or `None` where the name has no readable
    /// record.
    pub open spec fn resolve(self, name: Seq<u8>) -> Option<Seq<char>> {
        if self.names.contains_key(name) {
            self.names[name]
        } else {
            None
        }
    }

    /// The service with the name bound to the owner.
    pub open spec fn bind(self, name: Seq<u8>, owner: Seq<char>) -> Service {
        Service { gate: self.gate, names: self.names.insert(name, Some(owner)) }
    }

    /// The service with its gate set to the minter.
    pub open spec fn initialize(self, minter: Seq<char>) -> Service {
        Service { gate: Gate::Initialized { identity: minter }, names: self.names }
    }

    /// The service after a request to create it with the minter: its gate is
    /// set where the minter is a valid address, and nothing changes where it
    /// is not.
    pub open spec fn instantiate(self, minter: Seq<char>) -> Service {
        if valid_address(minter) {
            self.initialize(minter)
        } else {
            self
        }
    }

    /// How a gated request to register ends: the authorization gate is asked
    /// first, the name second.
    pub open spec fn verdict_gated(self, caller: Seq<char>, name: Seq<u8>) -> Verdict {
        if !self.gate.admits(caller) {
            Verdict::NotOwner
        } else if self.names.contains_key(name) {
            Verdict::NameTaken
        } else {
            Verdict::Registered
        }
    }

    /// How an ungated request to register ends: only the name is asked.
    pub open spec fn verdict_ungated(self, name: Seq<u8>) -> Verdict {
        if self.names.contains_key(name) {
            Verdict::NameTaken
        } else {
            Verdict::Registered
        }
    }

    /// The service after a gated request of `caller` to bind `name` to
    /// `owner`.
    pub open spec fn register(self, caller: Seq<char>, name: Seq<u8>, owner: Seq<char>) -> Service {
        if self.verdict_gated(caller, name) is Registered {
            self.bind(name, owner)
        } else {
            self
        }
    }

    /// The service after an ungated request of `caller` to bind `name` to
    /// itself.
    pub open spec fn register_self(self, caller: Seq<char>, name: Seq<u8>) -> Service {
        if self.verdict_ungated(name) is Registered {
            self.bind(name, caller)
        } else {
            self
        }
    }
}

/// The audit event of a registration: kind `name-register`, then the name
/// and the owner, in this order.
pub open spec fn registration_event(name: Seq<char>, owner: Seq<char>) -> EventView {
    EventView {
        ty: "name-register"@,
        attributes: seq![
            AttributeView { key: "name"@, value: name },
            AttributeView { key: "owner"@, value: owner },
        ],
    }
}

/// The response to a successful registration: the one audit event, no
/// attribute, no payload.
pub open spec fn registration_response(name: Seq<char>, owner: Seq<char>) -> ResponseView {
    ResponseView {
        attributes: Seq::empty(),
        events: seq![registration_event(name, owner)],
        data: None,
    }
}

/// The reply to a request to register `name` for `owner`, made by `caller`,
/// that ended in `verdict`.
pub open spec fn register_reply(
    verdict: Verdict,
    caller: Seq<char>,
    name: Seq<char>,
    owner: Seq<char>,
) -> Result<ResponseView, ContractErrorView> {
    match verdict {
        Verdict::Registered => Ok(registration_response(name, owner)),
        Verdict::NameTaken => Err(ContractErrorView::NameTaken { name }),
        Verdict::NotOwner => Err(ContractErrorView::NotOwner { caller }),
    }
}

/// One call, seen from outside: the service before it and after it. A call
/// leaves the service as it was (a query, or a call that failed), sets the
/// privileged identity, or is a request to register, gated or not.
pub open spec fn step(pre: Service, post: Service) -> bool {
    ||| post == pre
    ||| exists|minter: Seq<char>| post == #[trigger] pre.initialize(minter)
    ||| exists|caller: Seq<char>, name: Seq<u8>, owner: Seq<char>|
        post == #[trigger] pre.register(caller, name, owner)
    ||| exists|caller: Seq<char>, name: Seq<u8>| post == #[trigger] pre.register_self(caller, name)
}

/// The call that leads from the state at `at` to the next one is a step.
pub open spec fn steps_at(history: Seq<Service>, at: int) -> bool {
    step(history[at], history[at + 1])
}

/// The states that a service goes through, call after call.
pub open spec fn execution(history: Seq<Service>) -> bool {
    &&& history.len() > 0
    &&& forall|at: int| 0 <= at < history.len() - 1 ==> #[trigger] steps_at(history, at)
}

/// The call that leads from the state at `at` to the next one is a
/// successful registration of `name` for `owner`: the name was free before
/// and is bound to the owner after.
pub open spec fn registers_at(
    history: Seq<Service>,
    at: int,
    name: Seq<u8>,
    owner: Seq<char>,
) -> bool {
    &&& 0 <= at < history.len() - 1
    &&& !history[at].names.contains_key(name)
    &&& history[at + 1].names.contains_key(name)
    &&& history[at + 1].names[name] == Some(owner)
}

} // verus!
