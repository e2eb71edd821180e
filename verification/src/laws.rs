//! What holds of every state and every call of the registry, proved from
//! the transition that the operations are stated against.

use vstd::prelude::*;
use crate::model::{CallView, Error, Kind, Outcome, State};
use crate::records::{AccountId, Config, ResourceSpecificationView};

verus! {

/// A fresh registry has no registered account, and all of its records, of
/// which there are none, respect the limits.
pub proof fn fresh_registry_is_empty(config: Config, who: AccountId)
    ensures
        !State::init(config).agents.contains(who),
        State::init(config).bounded(),
{
}

/// A rejected call changes nothing: no record, no counter, no event.
pub proof fn rejected_call_changes_nothing(state: State, who: AccountId, call: CallView)
    requires
        state.step(who, call).1 is Err,
    ensures
        state.step(who, call).0 == state,
{
}

/// An account is registered after a call exactly when it was registered
/// before, or the call was its own successful registration.
pub proof fn registration_comes_from_register_alone(
    state: State,
    who: AccountId,
    call: CallView,
    account: AccountId,
)
    ensures
        state.step(who, call).0.agents.contains(account) <==> {
            ||| state.agents.contains(account)
            ||| (who == account && call is RegisterAgent)
        },
        !state.agents.contains(account) && who == account && call is RegisterAgent
            ==> state.step(who, call).1 is Ok,
{
}

/// An account that is registered stays registered, whatever calls follow.
pub proof fn registered_forever(
    state: State,
    calls: Seq<(AccountId, CallView)>,
    account: AccountId,
)
    requires
        state.agents.contains(account),
    ensures
        state.run(calls).agents.contains(account),
    decreases calls.len(),
{
    if calls.len() > 0 {
        registered_forever(state.step(calls[0].0, calls[0].1).0, calls.drop_first(), account);
    }
}

/// An account that is not registered stays so as long as it makes no
/// registration call of its own.
pub proof fn unregistered_until_register(
    state: State,
    calls: Seq<(AccountId, CallView)>,
    account: AccountId,
)
    requires
        !state.agents.contains(account),
        forall|i: int|
            0 <= i < calls.len() ==> !((#[trigger] calls[i]).0 == account
                && calls[i].1 is RegisterAgent),
    ensures
        !state.run(calls).agents.contains(account),
    decreases calls.len(),
{
    if calls.len() > 0 {
        let rest = calls.drop_first();
        assert(forall|i: int| 0 <= i < rest.len() ==> #[trigger] rest[i] == calls[i + 1]);
        assert(!(calls[0].0 == account && calls[0].1 is RegisterAgent));
        unregistered_until_register(state.step(calls[0].0, calls[0].1).0, rest, account);
    }
}

/// Registering an account a second time, whatever happened in between, is
/// rejected as a duplicate and changes nothing.
pub proof fn second_registration_is_rejected(
    state: State,
    account: AccountId,
    between: Seq<(AccountId, CallView)>,
)
    ensures
        ({
            let later = state.step(account, CallView::RegisterAgent).0.run(between);
            later.step(account, CallView::RegisterAgent) == (
                later,
                Err::<Outcome, Error>(Error::AlreadyRegistered),
            )
        }),
{
    registered_forever(state.step(account, CallView::RegisterAgent).0, between, account);
}

/// A call that creates, overwrites or deletes a record, made by an account
/// that is not registered, is rejected for that reason and leaves every
/// store and every counter as it was.
pub proof fn unregistered_caller_is_rejected(state: State, who: AccountId, call: CallView)
    requires
        !state.agents.contains(who),
        call.is_mutation(),
    ensures
        state.step(who, call) == (state, Err::<Outcome, Error>(Error::NotRegistered)),
{
}

/// A call of a registered account that carries a text or a list over the
/// limit is rejected for that reason and leaves every store and every
/// counter as it was.
pub proof fn oversized_field_is_rejected(state: State, who: AccountId, call: CallView)
    requires
        state.agents.contains(who),
        !call.within(state.config),
    ensures
        state.step(who, call) == (state, Err::<Outcome, Error>(Error::FieldTooLarge)),
{
}

/// A call of a registered account whose fields respect the limits is
/// accepted, as long as it is not a registration.
pub proof fn fitting_call_is_accepted(state: State, who: AccountId, call: CallView)
    requires
        state.agents.contains(who),
        call.within(state.config),
        !(call is RegisterAgent),
    ensures
        state.step(who, call).1 == Ok::<Outcome, Error>(state.yields(call)),
{
}

/// No call ever lowers a counter, and only the creation of a record of its
/// kind moves it.
pub proof fn counter_never_decreases(state: State, who: AccountId, call: CallView, kind: Kind)
    ensures
        state.step(who, call).0.next_id(kind) >= state.next_id(kind),
        call.creates() != Some(kind) ==> state.step(who, call).0.next_id(kind) == state.next_id(
            kind,
        ),
{
}

/// No sequence of calls ever lowers a counter.
pub proof fn counter_never_decreases_over_calls(
    state: State,
    calls: Seq<(AccountId, CallView)>,
    kind: Kind,
)
    ensures
        state.run(calls).next_id(kind) >= state.next_id(kind),
    decreases calls.len(),
{
    if calls.len() > 0 {
        let next = state.step(calls[0].0, calls[0].1).0;
        counter_never_decreases(state, calls[0].0, calls[0].1, kind);
        counter_never_decreases_over_calls(next, calls.drop_first(), kind);
    }
}

/// Of two successful creations of records of one kind, the later one
/// returns the greater identifier, whatever calls were made in between,
/// deletions included.
pub proof fn created_ids_strictly_increase(
    state: State,
    first: (AccountId, CallView),
    between: Seq<(AccountId, CallView)>,
    second: (AccountId, CallView),
    kind: Kind,
    earlier: u32,
    later: u32,
)
    requires
        first.1.creates() == Some(kind),
        second.1.creates() == Some(kind),
        state.has_room(first.1),
        state.step(first.0, first.1).1 == Ok::<Outcome, Error>(Outcome::Created(earlier)),
        state.step(first.0, first.1).0.run(between).step(second.0, second.1).1 == Ok::<
            Outcome,
            Error,
        >(Outcome::Created(later)),
    ensures
        earlier < later,
{
    counter_never_decreases_over_calls(state.step(first.0, first.1).0, between, kind);
}

/// A created record is found under the identifier that its creation
/// returned, exactly as it was given.
pub proof fn created_record_is_stored(state: State, who: AccountId, call: CallView, id: u32)
    requires
        call.creates() is Some,
        state.step(who, call).1 == Ok::<Outcome, Error>(Outcome::Created(id)),
    ensures
        state.step(who, call).0.stores(id, call),
{
}

/// Whether a resource specification is accepted does not depend on which
/// units exist.
pub proof fn unit_references_are_not_checked(
    state: State,
    other: State,
    who: AccountId,
    spec: ResourceSpecificationView,
)
    requires
        other == (State { next_unit_id: other.next_unit_id, units: other.units, ..state }),
    ensures
        state.step(who, CallView::CreateResourceSpecification(spec)).1 == other.step(
            who,
            CallView::CreateResourceSpecification(spec),
        ).1,
{
}

/// Overwriting needs no record to be there: for a registered caller and
/// fields within the limits it succeeds, moves no counter, and the record is
/// found afterwards under the identifier that was named.
pub proof fn update_is_upsert(state: State, who: AccountId, call: CallView, id: u32, kind: Kind)
    requires
        state.agents.contains(who),
        call.within(state.config),
        call.overwrites() == Some(id),
    ensures
        state.step(who, call).1 == Ok::<Outcome, Error>(Outcome::Done),
        state.step(who, call).0.stores(id, call),
        state.step(who, call).0.next_id(kind) == state.next_id(kind),
{
}

/// Deleting under an identifier that holds no record succeeds for a
/// registered caller and changes nothing.
pub proof fn delete_of_absent_record_changes_nothing(state: State, who: AccountId, call: CallView)
    requires
        state.agents.contains(who),
        match call {
            CallView::DeleteUnit(id) => !state.units.contains_key(id),
            CallView::DeleteSpatialThing(id) => !state.spatial_things.contains_key(id),
            CallView::DeleteProcessSpecification(id) => !state.process_specifications.contains_key(
                id,
            ),
            CallView::DeleteResourceSpecification(id) => {
                !state.resource_specifications.contains_key(id)
            },
            _ => false,
        },
    ensures
        state.step(who, call) == (state, Ok::<Outcome, Error>(Outcome::Done)),
{
    let after = state.step(who, call).0;
    assert(after.units =~= state.units);
    assert(after.spatial_things =~= state.spatial_things);
    assert(after.process_specifications =~= state.process_specifications);
    assert(after.resource_specifications =~= state.resource_specifications);
}

/// A caller who deletes the same record twice leaves the state that
/// deleting it once left.
pub proof fn delete_is_idempotent(state: State, who: AccountId, call: CallView)
    requires
        call is DeleteUnit || call is DeleteSpatialThing || call is DeleteProcessSpecification
            || call is DeleteResourceSpecification,
    ensures
        state.step(who, call).0.step(who, call).0 == state.step(who, call).0,
{
    let once = state.step(who, call).0;
    let twice = once.step(who, call).0;
    assert(twice.units =~= once.units);
    assert(twice.spatial_things =~= once.spatial_things);
    assert(twice.process_specifications =~= once.process_specifications);
    assert(twice.resource_specifications =~= once.resource_specifications);
}

/// If every stored record respects the limits before a call, every stored
/// record respects them after it.
pub proof fn limits_hold_after_call(state: State, who: AccountId, call: CallView)
    requires
        state.bounded(),
    ensures
        state.step(who, call).0.bounded(),
{
}

/// Every record stored by a registry that started empty respects the
/// limits, whatever calls were made.
pub proof fn limits_hold_always(config: Config, calls: Seq<(AccountId, CallView)>)
    ensures
        State::init(config).run(calls).bounded(),
{
    limits_hold_over_calls(State::init(config), calls);
}

/// A sequence of calls keeps the limits as each single call does, and never
/// changes them.
pub proof fn limits_hold_over_calls(state: State, calls: Seq<(AccountId, CallView)>)
    requires
        state.bounded(),
    ensures
        state.run(calls).bounded(),
        state.run(calls).config == state.config,
    decreases calls.len(),
{
    if calls.len() > 0 {
        limits_hold_after_call(state, calls[0].0, calls[0].1);
        limits_hold_over_calls(state.step(calls[0].0, calls[0].1).0, calls.drop_first());
    }
}

} // verus!
