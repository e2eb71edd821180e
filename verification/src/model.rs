//! The registry as an abstract state machine: a state, the calls it accepts
//! and the transition each call makes.

use vstd::prelude::*;
use crate::records::{
    AccountId, Config, ProcessSpecificationView, ResourceSpecificationView, SpatialThingView,
    UnitView,
};

verus! {

/// Why a call was rejected.
#[derive(Clone, Copy, Debug, PartialEq, Eq, Structural)]
pub enum Error {
    /// The caller tried to change a record without being registered.
    NotRegistered,
    /// The caller is registered already.
    AlreadyRegistered,
    /// A text or a list is longer than the configured limit.
    FieldTooLarge,
}

/// What the registry announces after a successful call.
#[derive(Clone, Copy, Debug, PartialEq, Eq, Structural)]
pub enum Event {
    /// The account has just been registered.
    AgentRegistered(AccountId),
}

/// What a successful call hands back.
#[derive(Clone, Copy, Debug, PartialEq, Eq, Structural)]
pub enum Outcome {
    /// The call changed the state and has nothing to report.
    Done,
    /// The call stored a new record under this identifier.
    Created(u32),
}

/// The four kinds of record, each with identifiers of its own.
#[derive(Clone, Copy, Debug, PartialEq, Eq, Structural)]
pub enum Kind {
    Unit,
    SpatialThing,
    ProcessSpecification,
    ResourceSpecification,
}

/// A call, with every argument taken by its view.
pub enum CallView {
    GetMyAgentPubkey,
    RegisterAgent,
    CreateUnit(UnitView),
    UpdateUnit(u32, UnitView),
    DeleteUnit(u32),
    CreateSpatialThing(SpatialThingView),
    UpdateSpatialThing(u32, SpatialThingView),
    DeleteSpatialThing(u32),
    CreateProcessSpecification(ProcessSpecificationView),
    UpdateProcessSpecification(u32, ProcessSpecificationView),
    DeleteProcessSpecification(u32),
    CreateResourceSpecification(ResourceSpecificationView),
    UpdateResourceSpecification(u32, ResourceSpecificationView),
    DeleteResourceSpecification(u32),
}

/// Everything the registry remembers.
pub struct State {
    pub config: Config,
    /// The registered accounts.
    pub agents: Set<AccountId>,
    /// The identifier that the next created unit receives.
    pub next_unit_id: u32,
    pub units: Map<u32, UnitView>,
    pub next_spatial_thing_id: u32,
    pub spatial_things: Map<u32, SpatialThingView>,
    pub next_process_specification_id: u32,
    pub process_specifications: Map<u32, ProcessSpecificationView>,
    pub next_resource_specification_id: u32,
    pub resource_specifications: Map<u32, ResourceSpecificationView>,
    /// The events announced so far, oldest first.
    pub events: Seq<Event>,
}

/// The result of a call that creates a record, as a transition reports it.
pub open spec fn created(result: Result<u32, Error>) -> Result<Outcome, Error> {
    match result {
        Ok(id) => Ok(Outcome::Created(id)),
        Err(error) => Err(error),
    }
}

/// The result of a call that reports nothing, as a transition reports it.
pub open spec fn done(result: Result<(), Error>) -> Result<Outcome, Error> {
    match result {
        Ok(()) => Ok(Outcome::Done),
        Err(error) => Err(error),
    }
}

/// The verdict on a registration: an account registers once.
pub open spec fn gate_registration(registered: bool) -> Result<(), Error> {
    if registered {
        Err(Error::AlreadyRegistered)
    } else {
        Ok(())
    }
}

/// The verdict on a call that changes a record: the caller must be
/// registered, and then the fields must fit.
pub open spec fn gate(registered: bool, fit: bool) -> Result<(), Error> {
    if !registered {
        Err(Error::NotRegistered)
    } else if !fit {
        Err(Error::FieldTooLarge)
    } else {
        Ok(())
    }
}

/// The identifier that follows `id`. The greatest identifier has none to
/// follow it and is given back as it is.
pub open spec fn succ(id: u32) -> u32 {
    if id < u32::MAX {
        (id + 1) as u32
    } else {
        id
    }
}

impl CallView {
    /// The call stores a record whose fields all respect the limits, or
    /// stores none.
    pub open spec fn within(self, config: Config) -> bool {
        match self {
            CallView::CreateUnit(unit) | CallView::UpdateUnit(_, unit) => unit.within(config),
            CallView::CreateSpatialThing(thing) | CallView::UpdateSpatialThing(_, thing) => {
                thing.within(config)
            },
            CallView::CreateProcessSpecification(spec)
            | CallView::UpdateProcessSpecification(_, spec) => spec.within(config),
            CallView::CreateResourceSpecification(spec)
            | CallView::UpdateResourceSpecification(_, spec) => spec.within(config),
            _ => true,
        }
    }

    /// The kind of record that the call creates, if it creates one.
    pub open spec fn creates(self) -> Option<Kind> {
        match self {
            CallView::CreateUnit(_) => Some(Kind::Unit),
            CallView::CreateSpatialThing(_) => Some(Kind::SpatialThing),
            CallView::CreateProcessSpecification(_) => Some(Kind::ProcessSpecification),
            CallView::CreateResourceSpecification(_) => Some(Kind::ResourceSpecification),
            _ => None,
        }
    }

    /// The identifier under which the call overwrites, if it overwrites.
    pub open spec fn overwrites(self) -> Option<u32> {
        match self {
            CallView::UpdateUnit(id, _) => Some(id),
            CallView::UpdateSpatialThing(id, _) => Some(id),
            CallView::UpdateProcessSpecification(id, _) => Some(id),
            CallView::UpdateResourceSpecification(id, _) => Some(id),
            _ => None,
        }
    }

    /// The call creates, overwrites or deletes a record.
    pub open spec fn is_mutation(self) -> bool {
        !(self is GetMyAgentPubkey) && !(self is RegisterAgent)
    }
}

impl State {
    /// The state of a registry that has seen no call.
    pub open spec fn init(config: Config) -> State {
        State {
            config,
            agents: Set::empty(),
            next_unit_id: 0,
            units: Map::empty(),
            next_spatial_thing_id: 0,
            spatial_things: Map::empty(),
            next_process_specification_id: 0,
            process_specifications: Map::empty(),
            next_resource_specification_id: 0,
            resource_specifications: Map::empty(),
            events: Seq::empty(),
        }
    }

    /// Every stored record respects the limits.
    pub open spec fn bounded(self) -> bool {
        &&& forall|id: u32| #[trigger]
            self.units.contains_key(id) ==> self.units[id].within(self.config)
        &&& forall|id: u32| #[trigger]
            self.spatial_things.contains_key(id) ==> self.spatial_things[id].within(self.config)
        &&& forall|id: u32| #[trigger]
            self.process_specifications.contains_key(id)
                ==> self.process_specifications[id].within(self.config)
        &&& forall|id: u32| #[trigger]
            self.resource_specifications.contains_key(id)
                ==> self.resource_specifications[id].within(self.config)
    }

    /// The record that `call` carries is the one found under `id`.
    pub open spec fn stores(self, id: u32, call: CallView) -> bool {
        match call {
            CallView::CreateUnit(unit) | CallView::UpdateUnit(_, unit) => {
                self.units.contains_key(id) && self.units[id] == unit
            },
            CallView::CreateSpatialThing(thing) | CallView::UpdateSpatialThing(_, thing) => {
                self.spatial_things.contains_key(id) && self.spatial_things[id] == thing
            },
            CallView::CreateProcessSpecification(spec)
            | CallView::UpdateProcessSpecification(_, spec) => {
                self.process_specifications.contains_key(id) && self.process_specifications[id]
                    == spec
            },
            CallView::CreateResourceSpecification(spec)
            | CallView::UpdateResourceSpecification(_, spec) => {
                self.resource_specifications.contains_key(id) && self.resource_specifications[id]
                    == spec
            },
            _ => false,
        }
    }

    /// Whether `call` made by `who` is accepted, and if not, why.
    pub open spec fn admits(self, who: AccountId, call: CallView) -> Result<(), Error> {
        match call {
            CallView::GetMyAgentPubkey => Ok(()),
            CallView::RegisterAgent => gate_registration(self.agents.contains(who)),
            _ => gate(self.agents.contains(who), call.within(self.config)),
        }
    }

    /// The state after an accepted `call` made by `who`.
    pub open spec fn apply(self, who: AccountId, call: CallView) -> State {
        match call {
            CallView::GetMyAgentPubkey => self,
            CallView::RegisterAgent => State {
                agents: self.agents.insert(who),
                events: self.events.push(Event::AgentRegistered(who)),
                ..self
            },
            CallView::CreateUnit(unit) => State {
                next_unit_id: succ(self.next_unit_id),
                units: self.units.insert(self.next_unit_id, unit),
                ..self
            },
            CallView::UpdateUnit(id, unit) => State { units: self.units.insert(id, unit), ..self },
            CallView::DeleteUnit(id) => State { units: self.units.remove(id), ..self },
            CallView::CreateSpatialThing(thing) => State {
                next_spatial_thing_id: succ(self.next_spatial_thing_id),
                spatial_things: self.spatial_things.insert(self.next_spatial_thing_id, thing),
                ..self
            },
            CallView::UpdateSpatialThing(id, thing) => State {
                spatial_things: self.spatial_things.insert(id, thing),
                ..self
            },
            CallView::DeleteSpatialThing(id) => State {
                spatial_things: self.spatial_things.remove(id),
                ..self
            },
            CallView::CreateProcessSpecification(spec) => State {
                next_process_specification_id: succ(self.next_process_specification_id),
                process_specifications: self.process_specifications.insert(
                    self.next_process_specification_id,
                    spec,
                ),
                ..self
            },
            CallView::UpdateProcessSpecification(id, spec) => State {
                process_specifications: self.process_specifications.insert(id, spec),
                ..self
            },
            CallView::DeleteProcessSpecification(id) => State {
                process_specifications: self.process_specifications.remove(id),
                ..self
            },
            CallView::CreateResourceSpecification(spec) => State {
                next_resource_specification_id: succ(self.next_resource_specification_id),
                resource_specifications: self.resource_specifications.insert(
                    self.next_resource_specification_id,
                    spec,
                ),
                ..self
            },
            CallView::UpdateResourceSpecification(id, spec) => State {
                resource_specifications: self.resource_specifications.insert(id, spec),
                ..self
            },
            CallView::DeleteResourceSpecification(id) => State {
                resource_specifications: self.resource_specifications.remove(id),
                ..self
            },
        }
    }

    /// The identifier that the next created record of `kind` receives.
    pub open spec fn next_id(self, kind: Kind) -> u32 {
        match kind {
            Kind::Unit => self.next_unit_id,
            Kind::SpatialThing => self.next_spatial_thing_id,
            Kind::ProcessSpecification => self.next_process_specification_id,
            Kind::ResourceSpecification => self.next_resource_specification_id,
        }
    }

    /// What an accepted `call` hands back.
    pub open spec fn yields(self, call: CallView) -> Outcome {
        match call.creates() {
            Some(kind) => Outcome::Created(self.next_id(kind)),
            None => Outcome::Done,
        }
    }

    /// One transition: a rejected call leaves the state as it was, an
    /// accepted one is applied whole.
    pub open spec fn step(self, who: AccountId, call: CallView) -> (State, Result<Outcome, Error>) {
        match self.admits(who, call) {
            Ok(()) => (self.apply(who, call), Ok(self.yields(call))),
            Err(error) => (self, Err(error)),
        }
    }

    /// The identifier that `call` would consume can still be followed by
    /// another one.
    pub open spec fn has_room(self, call: CallView) -> bool {
        call.creates() matches Some(kind) ==> self.next_id(kind) < u32::MAX
    }

    /// `call` made by `who` is rejected, or the identifier it would consume
    /// can still be followed by another one.
    pub open spec fn ready(self, who: AccountId, call: CallView) -> bool {
        self.admits(who, call) is Ok ==> self.has_room(call)
    }

    /// The state after the calls of `calls`, made in order.
    pub open spec fn run(self, calls: Seq<(AccountId, CallView)>) -> State
        decreases calls.len(),
    {
        if calls.len() == 0 {
            self
        } else {
            self.step(calls[0].0, calls[0].1).0.run(calls.drop_first())
        }
    }
}

} // verus!
