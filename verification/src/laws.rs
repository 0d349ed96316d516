//! What holds of the service whatever is called, and in whatever order.
//!
//! The laws speak of `Service`, the functions of `model` on it, and of
//! executions: the states a service goes through, call after call. The entry
//! points are proved to compute those functions, so a law stated here holds
//! of every storage that the entry points have worked on.

use crate::error::ContractErrorView;
use crate::gate::Gate;
use crate::model::execution;
use crate::model::fresh;
use crate::model::name_key;
use crate::model::register_reply;
use crate::model::registers_at;
use crate::model::registration_event;
use crate::model::registration_response;
use crate::model::step;
use crate::model::steps_at;
use crate::model::Service;
use crate::model::Verdict;
use crate::response::AttributeView;
use vstd::prelude::*;

verus! {

/// Every call is a step: creating the service, a gated request to register,
/// an ungated one, and a call that changes nothing.
pub proof fn law_calls_are_steps(
    pre: Service,
    minter: Seq<char>,
    caller: Seq<char>,
    name: Seq<u8>,
    owner: Seq<char>,
)
    ensures
        step(pre, pre),
        step(pre, pre.initialize(minter)),
        step(pre, pre.instantiate(minter)),
        step(pre, pre.register(caller, name, owner)),
        step(pre, pre.register_self(caller, name)),
{
}

/// Names are told apart by their characters: two names with the same store
/// key are the same name. No normalization merges two names, and none is
/// needed to keep them apart.
pub proof fn law_names_are_told_apart(one: Seq<char>, other: Seq<char>)
    requires
        name_key(one) == name_key(other),
    ensures
        one == other,
{
    vstd::utf8::encode_utf8_decode_utf8(one);
    vstd::utf8::encode_utf8_decode_utf8(other);
}

/// A request that registers a name is a registration: the name was free
/// before it and is bound to the owner after it. And the other way round: a
/// step that brings a name into the store is a request, gated or not, that
/// registered the name.
pub proof fn law_registrations_are_successful_requests(
    pre: Service,
    post: Service,
    caller: Seq<char>,
    name: Seq<u8>,
    owner: Seq<char>,
)
    ensures
        pre.verdict_gated(caller, name) is Registered ==> !pre.names.contains_key(name)
            && pre.register(caller, name, owner).names[name] == Some(owner),
        pre.verdict_ungated(name) is Registered ==> !pre.names.contains_key(name)
            && pre.register_self(caller, name).names[name] == Some(caller),
        step(pre, post) && !pre.names.contains_key(name) && post.names.contains_key(name) ==> {
            ||| exists|who: Seq<char>, to: Seq<char>|
                pre.verdict_gated(who, name) is Registered && post == #[trigger] pre.register(
                    who,
                    name,
                    to,
                )
            ||| exists|who: Seq<char>|
                pre.verdict_ungated(name) is Registered && post == #[trigger] pre.register_self(
                    who,
                    name,
                )
        },
{
    if step(pre, post) && !pre.names.contains_key(name) && post.names.contains_key(name) {
        if exists|who: Seq<char>, other: Seq<u8>, to: Seq<char>|
            post == #[trigger] pre.register(who, other, to) {
            let (who, other, to) = choose|who: Seq<char>, other: Seq<u8>, to: Seq<char>|
                post == #[trigger] pre.register(who, other, to);
            assert(other == name);
            assert(pre.verdict_gated(who, name) is Registered);
            assert(post == pre.register(who, name, to));
        } else {
            let (who, other) = choose|who: Seq<char>, other: Seq<u8>|
                post == #[trigger] pre.register_self(who, other);
            assert(other == name);
            assert(pre.verdict_ungated(name) is Registered);
            assert(post == pre.register_self(who, name));
        }
    }
}

/// A step never removes or changes a binding: a name that is stored before
/// it is stored after it, with the same record.
pub proof fn lemma_step_keeps_bindings(pre: Service, post: Service, name: Seq<u8>)
    requires
        step(pre, post),
        pre.names.contains_key(name),
    ensures
        post.names.contains_key(name),
        post.names[name] == pre.names[name],
{
}

/// A step that brings a name into the store binds it to an owner.
pub proof fn lemma_step_binds_to_an_owner(pre: Service, post: Service, name: Seq<u8>)
    requires
        step(pre, post),
        !pre.names.contains_key(name),
        post.names.contains_key(name),
    ensures
        post.names[name] is Some,
{
}

/// A step keeps every record readable.
pub proof fn lemma_step_keeps_readable(pre: Service, post: Service)
    requires
        step(pre, post),
        pre.readable(),
    ensures
        post.readable(),
{
    assert forall|name: Seq<u8>| #[trigger] post.names.contains_key(name) implies post.names[name]
        is Some by {
        if pre.names.contains_key(name) {
            lemma_step_keeps_bindings(pre, post, name);
        } else {
            lemma_step_binds_to_an_owner(pre, post, name);
        }
    }
}

/// Bindings are permanent: a name that is stored at some point of an
/// execution is stored at every later point, with the same record.
pub proof fn law_bindings_are_permanent(
    history: Seq<Service>,
    earlier: int,
    later: int,
    name: Seq<u8>,
)
    requires
        execution(history),
        0 <= earlier <= later < history.len(),
        history[earlier].names.contains_key(name),
    ensures
        history[later].names.contains_key(name),
        history[later].names[name] == history[earlier].names[name],
    decreases later - earlier,
{
    if earlier < later {
        law_bindings_are_permanent(history, earlier, later - 1, name);
        assert(steps_at(history, later - 1));
        lemma_step_keeps_bindings(history[later - 1], history[later], name);
    }
}

/// An execution that starts with every record readable keeps every record
/// readable.
pub proof fn law_records_stay_readable(history: Seq<Service>, at: int)
    requires
        execution(history),
        history[0].readable(),
        0 <= at < history.len(),
    ensures
        history[at].readable(),
    decreases at,
{
    if 0 < at {
        law_records_stay_readable(history, at - 1);
        assert(steps_at(history, at - 1));
        lemma_step_keeps_readable(history[at - 1], history[at]);
    }
}

/// A name that is stored at some point of an execution, and was not at its
/// start, was registered by an earlier call, for the owner it has.
pub proof fn lemma_bound_names_were_registered(history: Seq<Service>, at: int, name: Seq<u8>)
    requires
        execution(history),
        !history[0].names.contains_key(name),
        0 <= at < history.len(),
        history[at].names.contains_key(name),
    ensures
        exists|call: int, owner: Seq<char>|
            call < at && #[trigger] registers_at(history, call, name, owner)
                && history[at].names[name] == Some(owner),
    decreases at,
{
    assert(at > 0);
    assert(steps_at(history, at - 1));
    if history[at - 1].names.contains_key(name) {
        lemma_bound_names_were_registered(history, at - 1, name);
        let (call, owner) = choose|call: int, owner: Seq<char>|
            call < at - 1 && #[trigger] registers_at(history, call, name, owner) && history[at
                - 1].names[name] == Some(owner);
        lemma_step_keeps_bindings(history[at - 1], history[at], name);
        assert(call < at && registers_at(history, call, name, owner) && history[at].names[name]
            == Some(owner));
    } else {
        lemma_step_binds_to_an_owner(history[at - 1], history[at], name);
        let owner = history[at].names[name]->Some_0;
        assert(at - 1 < at && registers_at(history, at - 1, name, owner)
            && history[at].names[name] == Some(owner));
    }
}

/// A name is registered at most once in an execution.
pub proof fn law_registered_once(
    history: Seq<Service>,
    name: Seq<u8>,
    one: int,
    owner: Seq<char>,
    other: int,
    other_owner: Seq<char>,
)
    requires
        execution(history),
        registers_at(history, one, name, owner),
        registers_at(history, other, name, other_owner),
    ensures
        one == other,
        owner == other_owner,
{
    if one < other {
        law_bindings_are_permanent(history, one + 1, other, name);
    }
    if other < one {
        law_bindings_are_permanent(history, other + 1, one, name);
    }
}

/// First writer wins. Once a call has registered a name for an owner, the
/// record stays as that call wrote it, and every later request to register
/// the name is refused and changes nothing: with `NameTaken` where it is
/// ungated or the authorization gate lets the caller pass, and with `NotOwner` where the
/// gate does not.
pub proof fn law_first_writer_wins(
    history: Seq<Service>,
    first: int,
    name: Seq<u8>,
    owner: Seq<char>,
    later: int,
    caller: Seq<char>,
    other_owner: Seq<char>,
)
    requires
        execution(history),
        registers_at(history, first, name, owner),
        first < later < history.len(),
    ensures
        history[later].names.contains_key(name),
        history[later].names[name] == Some(owner),
        history[later].verdict_ungated(name) is NameTaken,
        history[later].gate.admits(caller) ==> history[later].verdict_gated(caller, name)
            is NameTaken,
        !history[later].gate.admits(caller) ==> history[later].verdict_gated(caller, name)
            is NotOwner,
        history[later].register(caller, name, other_owner) == history[later],
        history[later].register_self(caller, name) == history[later],
{
    law_bindings_are_permanent(history, first + 1, later, name);
}

/// First writer wins, for two calls in a row: after a request that
/// registered the name, a second request for the same name is refused, the
/// service is as the first request left it, and the name resolves to the
/// owner of the first.
pub proof fn law_second_register_is_refused(
    pre: Service,
    caller: Seq<char>,
    name: Seq<u8>,
    owner: Seq<char>,
    second_caller: Seq<char>,
    second_owner: Seq<char>,
)
    requires
        pre.verdict_gated(caller, name) is Registered,
    ensures
        ({
            let post = pre.register(caller, name, owner);
            &&& post.gate.admits(second_caller) ==> post.verdict_gated(second_caller, name)
                is NameTaken
            &&& !post.gate.admits(second_caller) ==> post.verdict_gated(second_caller, name)
                is NotOwner
            &&& post.register(second_caller, name, second_owner) == post
            &&& post.resolve(name) == Some(owner)
        }),
{
}

/// First writer wins in the ungated service, for two calls in a row: the
/// second request for a name is refused with `NameTaken` and the name stays
/// with the first caller.
pub proof fn law_second_self_register_is_refused(
    pre: Service,
    caller: Seq<char>,
    name: Seq<u8>,
    second_caller: Seq<char>,
)
    requires
        pre.verdict_ungated(name) is Registered,
    ensures
        ({
            let post = pre.register_self(caller, name);
            &&& post.verdict_ungated(name) is NameTaken
            &&& post.register_self(second_caller, name) == post
            &&& post.resolve(name) == Some(caller)
        }),
{
}

/// Resolve is total. In an execution that starts from the service without
/// data, a name can be resolved at every point: nothing unreadable is ever
/// stored. It resolves to `None` exactly where no earlier call has registered
/// it, and otherwise to the owner that the call which registered it gave it.
/// By `law_registered_once` that call is the only one, hence the first.
pub proof fn law_resolve_is_total(history: Seq<Service>, at: int, name: Seq<u8>)
    requires
        execution(history),
        history[0] == fresh(),
        0 <= at < history.len(),
    ensures
        !history[at].unreadable_at(name),
        history[at].resolve(name) is None <==> forall|call: int, owner: Seq<char>|
            call < at ==> !#[trigger] registers_at(history, call, name, owner),
        forall|call: int, owner: Seq<char>|
            call < at && #[trigger] registers_at(history, call, name, owner)
                ==> history[at].resolve(name) == Some(owner),
{
    law_records_stay_readable(history, at);
    assert(history[at].names.contains_key(name) ==> history[at].names[name] is Some);
    if history[at].names.contains_key(name) {
        lemma_bound_names_were_registered(history, at, name);
    }
    assert forall|call: int, owner: Seq<char>|
        call < at && #[trigger] registers_at(
            history,
            call,
            name,
            owner,
        ) implies history[at].resolve(name) == Some(owner) by {
        law_bindings_are_permanent(history, call + 1, at, name);
    }
}

/// The authorization gate decides first. A caller whom the authorization gate does not let pass is
/// refused with `NotOwner`, carrying the caller, whether the name is free or
/// taken, and nothing is written.
pub proof fn law_gate_refuses_strangers(
    pre: Service,
    caller: Seq<char>,
    name: Seq<u8>,
    name_text: Seq<char>,
    owner: Seq<char>,
)
    requires
        !pre.gate.admits(caller),
    ensures
        pre.verdict_gated(caller, name) is NotOwner,
        pre.register(caller, name, owner) == pre,
        register_reply(pre.verdict_gated(caller, name), caller, name_text, owner) == Err::<
            crate::response::ResponseView,
            ContractErrorView,
        >(ContractErrorView::NotOwner { caller }),
{
}

/// The authorization gate lets exactly one identity pass: the one it was initialized with.
/// A gate that was never initialized lets nobody pass.
pub proof fn law_gate_admits_its_identity_only(gate: Gate, caller: Seq<char>)
    ensures
        gate is Uninitialized ==> !gate.admits(caller),
        gate matches Gate::Initialized { identity } ==> (gate.admits(caller) <==> caller
            == identity),
{
}

/// Only creating the service touches the privileged identity: no request to
/// register changes the state of the authorization gate, whether it binds a
/// name or is refused. And creating the service touches no name record.
pub proof fn law_gate_and_names_are_set_apart(
    pre: Service,
    minter: Seq<char>,
    caller: Seq<char>,
    name: Seq<u8>,
    owner: Seq<char>,
)
    ensures
        pre.register(caller, name, owner).gate == pre.gate,
        pre.register_self(caller, name).gate == pre.gate,
        pre.instantiate(minter).names == pre.names,
{
}

/// A request to register that is refused leaves the service as it was, and
/// replies with an error; one that is not refused replies with a success.
pub proof fn law_refused_register_writes_nothing(
    pre: Service,
    caller: Seq<char>,
    name: Seq<u8>,
    name_text: Seq<char>,
    owner: Seq<char>,
)
    ensures
        !(pre.verdict_gated(caller, name) is Registered) ==> pre.register(caller, name, owner)
            == pre,
        !(pre.verdict_ungated(name) is Registered) ==> pre.register_self(caller, name) == pre,
        register_reply(pre.verdict_gated(caller, name), caller, name_text, owner) is Err <==> !(
        pre.verdict_gated(caller, name) is Registered),
        register_reply(pre.verdict_ungated(name), caller, name_text, caller) is Err <==> !(
        pre.verdict_ungated(name) is Registered),
{
}

/// A successful registration emits exactly one audit event, of the kind
/// `name-register`, with the name and then the owner as its attributes; a
/// refused one emits none, its reply being an error.
pub proof fn law_registration_emits_one_event(
    verdict: Verdict,
    caller: Seq<char>,
    name_text: Seq<char>,
    owner: Seq<char>,
)
    ensures
        verdict is Registered ==> register_reply(verdict, caller, name_text, owner) == Ok::<
            crate::response::ResponseView,
            ContractErrorView,
        >(registration_response(name_text, owner)),
        !(verdict is Registered) ==> register_reply(verdict, caller, name_text, owner) is Err,
        registration_response(name_text, owner).events.len() == 1,
        registration_response(name_text, owner).events[0] == registration_event(name_text, owner),
        registration_response(name_text, owner).attributes.len() == 0,
        registration_response(name_text, owner).data is None,
        registration_event(name_text, owner).ty == "name-register"@,
        registration_event(name_text, owner).attributes.len() == 2,
        registration_event(name_text, owner).attributes[0] == (AttributeView {
            key: "name"@,
            value: name_text,
        }),
        registration_event(name_text, owner).attributes[1] == (AttributeView {
            key: "owner"@,
            value: owner,
        }),
{
}

} // verus!
