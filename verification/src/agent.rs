//! The registry itself: registration of accounts and the gated operations on
//! the four kinds of record.

use vstd::prelude::*;
use sp_runtime::FixedI64;
use std::collections::HashSet;
use crate::laws::limits_hold_after_call;
use crate::model::{created, done, gate, gate_registration, CallView, State};
use crate::records::{AccountId, ContentHash};
pub use crate::model::{Error, Event, Outcome};
pub use crate::records::{
    Config, ProcessSpecification, ResourceSpecification, SpatialThing, Unit,
};
use crate::store::Store;

verus! {

broadcast use vstd::std_specs::hash::group_hash_axioms;

/// A call together with its arguments.
#[derive(Clone, Debug, PartialEq, Eq)]
pub enum Call {
    GetMyAgentPubkey,
    RegisterAgent,
    CreateUnit(Unit),
    UpdateUnit(u32, Unit),
    DeleteUnit(u32),
    CreateSpatialThing(SpatialThing),
    UpdateSpatialThing(u32, SpatialThing),
    DeleteSpatialThing(u32),
    CreateProcessSpecification(ProcessSpecification),
    UpdateProcessSpecification(u32, ProcessSpecification),
    DeleteProcessSpecification(u32),
    CreateResourceSpecification(ResourceSpecification),
    UpdateResourceSpecification(u32, ResourceSpecification),
    DeleteResourceSpecification(u32),
}

impl View for Call {
    type V = CallView;

    open spec fn view(&self) -> CallView {
        match *self {
            Call::GetMyAgentPubkey => CallView::GetMyAgentPubkey,
            Call::RegisterAgent => CallView::RegisterAgent,
            Call::CreateUnit(unit) => CallView::CreateUnit(unit@),
            Call::UpdateUnit(id, unit) => CallView::UpdateUnit(id, unit@),
            Call::DeleteUnit(id) => CallView::DeleteUnit(id),
            Call::CreateSpatialThing(thing) => CallView::CreateSpatialThing(thing@),
            Call::UpdateSpatialThing(id, thing) => CallView::UpdateSpatialThing(id, thing@),
            Call::DeleteSpatialThing(id) => CallView::DeleteSpatialThing(id),
            Call::CreateProcessSpecification(spec) => CallView::CreateProcessSpecification(spec@),
            Call::UpdateProcessSpecification(id, spec) => CallView::UpdateProcessSpecification(
                id,
                spec@,
            ),
            Call::DeleteProcessSpecification(id) => CallView::DeleteProcessSpecification(id),
            Call::CreateResourceSpecification(spec) => CallView::CreateResourceSpecification(
                spec@,
            ),
            Call::UpdateResourceSpecification(id, spec) => CallView::UpdateResourceSpecification(
                id,
                spec@,
            ),
            Call::DeleteResourceSpecification(id) => CallView::DeleteResourceSpecification(id),
        }
    }
}

/// Decides on a registration asked for by a caller who is registered
/// already or not.
pub fn admit_registration(registered: bool) -> (verdict: Result<(), Error>)
    ensures
        verdict == gate_registration(registered),
{
    if registered {
        Err(Error::AlreadyRegistered)
    } else {
        Ok(())
    }
}

/// Decides on a call that changes a record, made by a caller who is
/// registered or not, with fields that fit or not. Registration is looked
/// at first.
pub fn authorize(registered: bool, fit: bool) -> (verdict: Result<(), Error>)
    ensures
        verdict == gate(registered, fit),
{
    if !registered {
        Err(Error::NotRegistered)
    } else if !fit {
        Err(Error::FieldTooLarge)
    } else {
        Ok(())
    }
}

/// The registry: who is registered, the four stores and the events
/// announced so far.
pub struct Pallet {
    config: Config,
    agents: HashSet<AccountId>,
    units: Store<Unit>,
    spatial_things: Store<SpatialThing>,
    process_specifications: Store<ProcessSpecification>,
    resource_specifications: Store<ResourceSpecification>,
    events: Vec<Event>,
}

impl View for Pallet {
    type V = State;

    closed spec fn view(&self) -> State {
        State {
            config: self.config,
            agents: self.agents@,
            next_unit_id: self.units.upcoming(),
            units: self.units.records(),
            next_spatial_thing_id: self.spatial_things.upcoming(),
            spatial_things: self.spatial_things.records(),
            next_process_specification_id: self.process_specifications.upcoming(),
            process_specifications: self.process_specifications.records(),
            next_resource_specification_id: self.resource_specifications.upcoming(),
            resource_specifications: self.resource_specifications.records(),
            events: self.events@,
        }
    }
}

impl Pallet {
    /// A registry with the given limits, no registered account, no record
    /// and every counter at 0.
    pub fn new(config: Config) -> (pallet: Pallet)
        ensures
            pallet@ == State::init(config),
            pallet@.bounded(),
    {
        Pallet {
            config,
            agents: HashSet::new(),
            units: Store::new(),
            spatial_things: Store::new(),
            process_specifications: Store::new(),
            resource_specifications: Store::new(),
            events: Vec::new(),
        }
    }

    /// The limits this registry enforces.
    pub fn config(&self) -> (config: Config)
        ensures
            config == self@.config,
    {
        self.config
    }

    /// Tells whether `who` is registered.
    pub fn is_registered(&self, who: AccountId) -> (registered: bool)
        ensures
            registered == self@.agents.contains(who),
    {
        self.agents.contains(&who)
    }

    /// The events announced so far, oldest first.
    pub fn events(&self) -> (events: &Vec<Event>)
        ensures
            events@ == self@.events,
    {
        &self.events
    }

    /// Accepts every caller and changes nothing.
    pub fn get_my_agent_pubkey(&self, who: AccountId) -> (result: Result<(), Error>)
        ensures
            (self@, done(result)) == self@.step(who, CallView::GetMyAgentPubkey),
    {
        Ok(())
    }

    /// Registers `who` and announces it; an account that is registered
    /// already is turned away and nothing changes.
    pub fn register_agent(&mut self, who: AccountId) -> (result: Result<(), Error>)
        ensures
            old(self)@.bounded() ==> final(self)@.bounded(),
            (final(self)@, done(result)) == old(self)@.step(who, CallView::RegisterAgent),
    {
        let ghost call = CallView::RegisterAgent;
        let result = match admit_registration(self.agents.contains(&who)) {
            Ok(()) => {
                self.agents.insert(who);
                self.events.push(Event::AgentRegistered(who));
                Ok(())
            },
            Err(error) => Err(error),
        };
        proof {
            if old(self)@.bounded() {
                limits_hold_after_call(old(self)@, who, call);
            }
        }
        result
    }

    /// Stores a new unit under the next unit identifier and returns it.
    pub fn create_unit(&mut self, who: AccountId, label: Vec<u8>, symbol: Vec<u8>) -> (result:
        Result<u32, Error>)
        requires
            old(self)@.ready(
                who,
                CallView::CreateUnit((Unit { label, symbol })@),
            ),
        ensures
            old(self)@.bounded() ==> final(self)@.bounded(),
            (final(self)@, created(result)) == old(self)@.step(
                who,
                CallView::CreateUnit((Unit { label, symbol })@),
            ),
    {
        let unit = Unit { label, symbol };
        let fit = unit.fits(&self.config);
        let ghost call = CallView::CreateUnit(unit@);
        let result = match authorize(self.agents.contains(&who), fit) {
            Ok(()) => Ok(self.units.create(unit)),
            Err(error) => Err(error),
        };
        proof {
            if old(self)@.bounded() {
                limits_hold_after_call(old(self)@, who, call);
            }
        }
        result
    }

    /// Stores a unit under `unit_id`, replacing the one there if any.
    pub fn update_unit(
        &mut self,
        who: AccountId,
        unit_id: u32,
        label: Vec<u8>,
        symbol: Vec<u8>,
    ) -> (result: Result<(), Error>)
        ensures
            old(self)@.bounded() ==> final(self)@.bounded(),
            (final(self)@, done(result)) == old(self)@.step(
                who,
                CallView::UpdateUnit(unit_id, (Unit { label, symbol })@),
            ),
    {
        let unit = Unit { label, symbol };
        let fit = unit.fits(&self.config);
        let ghost call = CallView::UpdateUnit(unit_id, unit@);
        let result = match authorize(self.agents.contains(&who), fit) {
            Ok(()) => {
                self.units.put(unit_id, unit);
                Ok(())
            },
            Err(error) => Err(error),
        };
        proof {
            if old(self)@.bounded() {
                limits_hold_after_call(old(self)@, who, call);
            }
        }
        result
    }

    /// Removes the unit under `unit_id`, if there is one.
    pub fn delete_unit(&mut self, who: AccountId, unit_id: u32) -> (result: Result<(), Error>)
        ensures
            old(self)@.bounded() ==> final(self)@.bounded(),
            (final(self)@, done(result)) == old(self)@.step(who, CallView::DeleteUnit(unit_id)),
    {
        let ghost call = CallView::DeleteUnit(unit_id);
        let result = match authorize(self.agents.contains(&who), true) {
            Ok(()) => {
                self.units.remove(unit_id);
                Ok(())
            },
            Err(error) => Err(error),
        };
        proof {
            if old(self)@.bounded() {
                limits_hold_after_call(old(self)@, who, call);
            }
        }
        result
    }

    /// The unit under `unit_id`, if there is one. Anyone may ask.
    pub fn get_unit(&self, unit_id: u32) -> (found: Option<&Unit>)
        ensures
            match found {
                Some(unit) => {
                    &&& self@.units.contains_key(unit_id)
                    &&& self@.units[unit_id] == unit@
                    &&& self@.bounded() ==> unit@.within(self@.config)
                },
                None => !self@.units.contains_key(unit_id),
            },
    {
        self.units.get(unit_id)
    }

    /// The identifier that the next created unit receives.
    pub fn next_unit_id(&self) -> (id: u32)
        ensures
            id == self@.next_unit_id,
    {
        self.units.peek()
    }

    /// Stores a new spatial thing under the next identifier of its kind and
    /// returns that identifier.
    pub fn create_spatial_thing(
        &mut self,
        who: AccountId,
        name: Vec<u8>,
        note: Option<Vec<u8>>,
        mappable_address: Option<Vec<u8>>,
        lat: Option<FixedI64>,
        long: Option<FixedI64>,
        alt: Option<FixedI64>,
    ) -> (result: Result<u32, Error>)
        requires
            old(self)@.ready(
                who,
                CallView::CreateSpatialThing(
                    (SpatialThing { name, note, mappable_address, lat, long, alt })@,
                ),
            ),
        ensures
            old(self)@.bounded() ==> final(self)@.bounded(),
            (final(self)@, created(result)) == old(self)@.step(
                who,
                CallView::CreateSpatialThing(
                    (SpatialThing { name, note, mappable_address, lat, long, alt })@,
                ),
            ),
    {
        let record = SpatialThing { name, note, mappable_address, lat, long, alt };
        let fit = record.fits(&self.config);
        let ghost call = CallView::CreateSpatialThing(record@);
        let result = match authorize(self.agents.contains(&who), fit) {
            Ok(()) => Ok(self.spatial_things.create(record)),
            Err(error) => Err(error),
        };
        proof {
            if old(self)@.bounded() {
                limits_hold_after_call(old(self)@, who, call);
            }
        }
        result
    }

    /// Stores a spatial thing under `spatial_thing_id`, replacing the one there
    /// if any.
    pub fn update_spatial_thing(
        &mut self,
        who: AccountId,
        spatial_thing_id: u32,
        name: Vec<u8>,
        note: Option<Vec<u8>>,
        mappable_address: Option<Vec<u8>>,
        lat: Option<FixedI64>,
        long: Option<FixedI64>,
        alt: Option<FixedI64>,
    ) -> (result: Result<(), Error>)
        ensures
            old(self)@.bounded() ==> final(self)@.bounded(),
            (final(self)@, done(result)) == old(self)@.step(
                who,
                CallView::UpdateSpatialThing(
                    spatial_thing_id,
                    (SpatialThing { name, note, mappable_address, lat, long, alt })@,
                ),
            ),
    {
        let record = SpatialThing { name, note, mappable_address, lat, long, alt };
        let fit = record.fits(&self.config);
        let ghost call = CallView::UpdateSpatialThing(spatial_thing_id, record@);
        let result = match authorize(self.agents.contains(&who), fit) {
            Ok(()) => {
                self.spatial_things.put(spatial_thing_id, record);
                Ok(())
            },
            Err(error) => Err(error),
        };
        proof {
            if old(self)@.bounded() {
                limits_hold_after_call(old(self)@, who, call);
            }
        }
        result
    }

    /// Removes the spatial thing under `spatial_thing_id`, if there is one.
    pub fn delete_spatial_thing(
        &mut self,
        who: AccountId,
        spatial_thing_id: u32,
    ) -> (result: Result<(), Error>)
        ensures
            old(self)@.bounded() ==> final(self)@.bounded(),
            (final(self)@, done(result)) == old(self)@.step(
                who,
                CallView::DeleteSpatialThing(spatial_thing_id),
            ),
    {
        let ghost call = CallView::DeleteSpatialThing(spatial_thing_id);
        let result = match authorize(self.agents.contains(&who), true) {
            Ok(()) => {
                self.spatial_things.remove(spatial_thing_id);
                Ok(())
            },
            Err(error) => Err(error),
        };
        proof {
            if old(self)@.bounded() {
                limits_hold_after_call(old(self)@, who, call);
            }
        }
        result
    }

    /// The spatial thing under `spatial_thing_id`, if there is one.
    /// Anyone may ask.
    pub fn get_spatial_thing(&self, spatial_thing_id: u32) -> (found: Option<
        &SpatialThing,
    >)
        ensures
            match found {
                Some(record) => {
                    &&& self@.spatial_things.contains_key(spatial_thing_id)
                    &&& self@.spatial_things[spatial_thing_id] == record@
                    &&& self@.bounded() ==> record@.within(self@.config)
                },
                None => !self@.spatial_things.contains_key(spatial_thing_id),
            },
    {
        self.spatial_things.get(spatial_thing_id)
    }

    /// The identifier that the next created spatial thing receives.
    pub fn next_spatial_thing_id(&self) -> (id: u32)
        ensures
            id == self@.next_spatial_thing_id,
    {
        self.spatial_things.peek()
    }

    /// Stores a new process specification under the next identifier of its kind and
    /// returns that identifier.
    pub fn create_process_specification(
        &mut self,
        who: AccountId,
        name: Vec<u8>,
        note: Option<Vec<u8>>,
    ) -> (result: Result<u32, Error>)
        requires
            old(self)@.ready(
                who,
                CallView::CreateProcessSpecification(
                    (ProcessSpecification { name, note })@,
                ),
            ),
        ensures
            old(self)@.bounded() ==> final(self)@.bounded(),
            (final(self)@, created(result)) == old(self)@.step(
                who,
                CallView::CreateProcessSpecification(
                    (ProcessSpecification { name, note })@,
                ),
            ),
    {
        let record = ProcessSpecification { name, note };
        let fit = record.fits(&self.config);
        let ghost call = CallView::CreateProcessSpecification(record@);
        let result = match authorize(self.agents.contains(&who), fit) {
            Ok(()) => Ok(self.process_specifications.create(record)),
            Err(error) => Err(error),
        };
        proof {
            if old(self)@.bounded() {
                limits_hold_after_call(old(self)@, who, call);
            }
        }
        result
    }

    /// Stores a process specification under `process_specification_id`, replacing the one there
    /// if any.
    pub fn update_process_specification(
        &mut self,
        who: AccountId,
        process_specification_id: u32,
        name: Vec<u8>,
        note: Option<Vec<u8>>,
    ) -> (result: Result<(), Error>)
        ensures
            old(self)@.bounded() ==> final(self)@.bounded(),
            (final(self)@, done(result)) == old(self)@.step(
                who,
                CallView::UpdateProcessSpecification(
                    process_specification_id,
                    (ProcessSpecification { name, note })@,
                ),
            ),
    {
        let record = ProcessSpecification { name, note };
        let fit = record.fits(&self.config);
        let ghost call = CallView::UpdateProcessSpecification(process_specification_id, record@);
        let result = match authorize(self.agents.contains(&who), fit) {
            Ok(()) => {
                self.process_specifications.put(process_specification_id, record);
                Ok(())
            },
            Err(error) => Err(error),
        };
        proof {
            if old(self)@.bounded() {
                limits_hold_after_call(old(self)@, who, call);
            }
        }
        result
    }

    /// Removes the process specification under `process_specification_id`, if there is one.
    pub fn delete_process_specification(
        &mut self,
        who: AccountId,
        process_specification_id: u32,
    ) -> (result: Result<(), Error>)
        ensures
            old(self)@.bounded() ==> final(self)@.bounded(),
            (final(self)@, done(result)) == old(self)@.step(
                who,
                CallView::DeleteProcessSpecification(process_specification_id),
            ),
    {
        let ghost call = CallView::DeleteProcessSpecification(process_specification_id);
        let result = match authorize(self.agents.contains(&who), true) {
            Ok(()) => {
                self.process_specifications.remove(process_specification_id);
                Ok(())
            },
            Err(error) => Err(error),
        };
        proof {
            if old(self)@.bounded() {
                limits_hold_after_call(old(self)@, who, call);
            }
        }
        result
    }

    /// The process specification under `process_specification_id`, if there is one.
    /// Anyone may ask.
    pub fn get_process_specification(&self, process_specification_id: u32) -> (found: Option<
        &ProcessSpecification,
    >)
        ensures
            match found {
                Some(record) => {
                    &&& self@.process_specifications.contains_key(process_specification_id)
                    &&& self@.process_specifications[process_specification_id] == record@
                    &&& self@.bounded() ==> record@.within(self@.config)
                },
                None => !self@.process_specifications.contains_key(process_specification_id),
            },
    {
        self.process_specifications.get(process_specification_id)
    }

    /// The identifier that the next created process specification receives.
    pub fn next_process_specification_id(&self) -> (id: u32)
        ensures
            id == self@.next_process_specification_id,
    {
        self.process_specifications.peek()
    }

    /// Stores a new resource specification under the next identifier of its kind and
    /// returns that identifier.
    pub fn create_resource_specification(
        &mut self,
        who: AccountId,
        name: Vec<u8>,
        images: Vec<ContentHash>,
        note: Option<Vec<u8>>,
        resource_classified_as: Vec<Vec<u8>>,
        default_unit_of_resource_id: Option<u32>,
        default_unit_of_effort_id: Option<u32>,
    ) -> (result: Result<u32, Error>)
        requires
            old(self)@.ready(
                who,
                CallView::CreateResourceSpecification(
                    (ResourceSpecification {
                        name,
                        images,
                        note,
                        resource_classified_as,
                        default_unit_of_resource_id,
                        default_unit_of_effort_id,
                    })@,
                ),
            ),
        ensures
            old(self)@.bounded() ==> final(self)@.bounded(),
            (final(self)@, created(result)) == old(self)@.step(
                who,
                CallView::CreateResourceSpecification(
                    (ResourceSpecification {
                        name,
                        images,
                        note,
                        resource_classified_as,
                        default_unit_of_resource_id,
                        default_unit_of_effort_id,
                    })@,
                ),
            ),
    {
        let record = ResourceSpecification {
            name,
            images,
            note,
            resource_classified_as,
            default_unit_of_resource_id,
            default_unit_of_effort_id,
        };
        let fit = record.fits(&self.config);
        let ghost call = CallView::CreateResourceSpecification(record@);
        let result = match authorize(self.agents.contains(&who), fit) {
            Ok(()) => Ok(self.resource_specifications.create(record)),
            Err(error) => Err(error),
        };
        proof {
            if old(self)@.bounded() {
                limits_hold_after_call(old(self)@, who, call);
            }
        }
        result
    }

    /// Stores a resource specification under `resource_specification_id`, replacing the one there
    /// if any.
    pub fn update_resource_specification(
        &mut self,
        who: AccountId,
        resource_specification_id: u32,
        name: Vec<u8>,
        images: Vec<ContentHash>,
        note: Option<Vec<u8>>,
        resource_classified_as: Vec<Vec<u8>>,
        default_unit_of_resource_id: Option<u32>,
        default_unit_of_effort_id: Option<u32>,
    ) -> (result: Result<(), Error>)
        ensures
            old(self)@.bounded() ==> final(self)@.bounded(),
            (final(self)@, done(result)) == old(self)@.step(
                who,
                CallView::UpdateResourceSpecification(
                    resource_specification_id,
                    (ResourceSpecification {
                        name,
                        images,
                        note,
                        resource_classified_as,
                        default_unit_of_resource_id,
                        default_unit_of_effort_id,
                    })@,
                ),
            ),
    {
        let record = ResourceSpecification {
            name,
            images,
            note,
            resource_classified_as,
            default_unit_of_resource_id,
            default_unit_of_effort_id,
        };
        let fit = record.fits(&self.config);
        let ghost call = CallView::UpdateResourceSpecification(resource_specification_id, record@);
        let result = match authorize(self.agents.contains(&who), fit) {
            Ok(()) => {
                self.resource_specifications.put(resource_specification_id, record);
                Ok(())
            },
            Err(error) => Err(error),
        };
        proof {
            if old(self)@.bounded() {
                limits_hold_after_call(old(self)@, who, call);
            }
        }
        result
    }

    /// Removes the resource specification under `resource_specification_id`, if there is one.
    pub fn delete_resource_specification(
        &mut self,
        who: AccountId,
        resource_specification_id: u32,
    ) -> (result: Result<(), Error>)
        ensures
            old(self)@.bounded() ==> final(self)@.bounded(),
            (final(self)@, done(result)) == old(self)@.step(
                who,
                CallView::DeleteResourceSpecification(resource_specification_id),
            ),
    {
        let ghost call = CallView::DeleteResourceSpecification(resource_specification_id);
        let result = match authorize(self.agents.contains(&who), true) {
            Ok(()) => {
                self.resource_specifications.remove(resource_specification_id);
                Ok(())
            },
            Err(error) => Err(error),
        };
        proof {
            if old(self)@.bounded() {
                limits_hold_after_call(old(self)@, who, call);
            }
        }
        result
    }

    /// The resource specification under `resource_specification_id`, if there is one.
    /// Anyone may ask.
    pub fn get_resource_specification(&self, resource_specification_id: u32) -> (found: Option<
        &ResourceSpecification,
    >)
        ensures
            match found {
                Some(record) => {
                    &&& self@.resource_specifications.contains_key(resource_specification_id)
                    &&& self@.resource_specifications[resource_specification_id] == record@
                    &&& self@.bounded() ==> record@.within(self@.config)
                },
                None => !self@.resource_specifications.contains_key(resource_specification_id),
            },
    {
        self.resource_specifications.get(resource_specification_id)
    }

    /// The identifier that the next created resource specification receives.
    pub fn next_resource_specification_id(&self) -> (id: u32)
        ensures
            id == self@.next_resource_specification_id,
    {
        self.resource_specifications.peek()
    }

    /// Routes `call` to the operation it names and hands its result on.
    pub fn dispatch(&mut self, who: AccountId, call: Call) -> (result: Result<Outcome, Error>)
        requires
            old(self)@.ready(who, call@),
        ensures
            old(self)@.bounded() ==> final(self)@.bounded(),
            (final(self)@, result) == old(self)@.step(who, call@),
    {
        match call {
            Call::GetMyAgentPubkey => reported(self.get_my_agent_pubkey(who)),
            Call::RegisterAgent => reported(self.register_agent(who)),
            Call::CreateUnit(unit) => stored(self.create_unit(who, unit.label, unit.symbol)),
            Call::UpdateUnit(id, unit) => reported(
                self.update_unit(who, id, unit.label, unit.symbol),
            ),
            Call::DeleteUnit(id) => reported(self.delete_unit(who, id)),
            Call::CreateSpatialThing(thing) => stored(
                self.create_spatial_thing(
                    who,
                    thing.name,
                    thing.note,
                    thing.mappable_address,
                    thing.lat,
                    thing.long,
                    thing.alt,
                ),
            ),
            Call::UpdateSpatialThing(id, thing) => reported(
                self.update_spatial_thing(
                    who,
                    id,
                    thing.name,
                    thing.note,
                    thing.mappable_address,
                    thing.lat,
                    thing.long,
                    thing.alt,
                ),
            ),
            Call::DeleteSpatialThing(id) => reported(self.delete_spatial_thing(who, id)),
            Call::CreateProcessSpecification(spec) => stored(
                self.create_process_specification(who, spec.name, spec.note),
            ),
            Call::UpdateProcessSpecification(id, spec) => reported(
                self.update_process_specification(who, id, spec.name, spec.note),
            ),
            Call::DeleteProcessSpecification(id) => reported(
                self.delete_process_specification(who, id),
            ),
            Call::CreateResourceSpecification(spec) => stored(
                self.create_resource_specification(
                    who,
                    spec.name,
                    spec.images,
                    spec.note,
                    spec.resource_classified_as,
                    spec.default_unit_of_resource_id,
                    spec.default_unit_of_effort_id,
                ),
            ),
            Call::UpdateResourceSpecification(id, spec) => reported(
                self.update_resource_specification(
                    who,
                    id,
                    spec.name,
                    spec.images,
                    spec.note,
                    spec.resource_classified_as,
                    spec.default_unit_of_resource_id,
                    spec.default_unit_of_effort_id,
                ),
            ),
            Call::DeleteResourceSpecification(id) => reported(
                self.delete_resource_specification(who, id),
            ),
        }
    }
}

/// Reports the result of a call that created a record.
fn stored(result: Result<u32, Error>) -> (outcome: Result<Outcome, Error>)
    ensures
        outcome == created(result),
{
    match result {
        Ok(id) => Ok(Outcome::Created(id)),
        Err(error) => Err(error),
    }
}

/// Reports the result of a call that has nothing to hand back.
fn reported(result: Result<(), Error>) -> (outcome: Result<Outcome, Error>)
    ensures
        outcome == done(result),
{
    match result {
        Ok(()) => Ok(Outcome::Done),
        Err(error) => Err(error),
    }
}

} // verus!
