//! The fixed catalogue of economic actions: what each one does to a
//! resource, on which side of a process it stands and which action it is
//! paired with.

use vstd::prelude::*;
use vstd::string::{StrSliceExecFns, StringSliceAdditionalSpecFns};
use crate::model::Error;
use crate::records::AccountId;

verus! {

/// What an action does to the quantity of the resource it touches.
#[derive(Clone, Copy, Debug, PartialEq, Eq, Structural)]
pub enum ActionEffect {
    /// Leaves the quantity as it is.
    NoEffect,
    Increment,
    Decrement,
    /// Takes from one resource and adds to another, as a transfer does.
    DecrementIncrement,
}

/// The side of a process on which an action stands.
#[derive(Clone, Copy, Debug, PartialEq, Eq, Structural)]
pub enum ProcessType {
    NotApplicable,
    Input,
    Output,
}

/// One entry of the catalogue.
#[derive(Clone, Debug, PartialEq, Eq)]
pub struct Action {
    pub id: Vec<u8>,
    pub label: Vec<u8>,
    pub resource_effect: ActionEffect,
    pub input_output: ProcessType,
    pub pairs_with: Vec<u8>,
}

/// An entry as contracts see it.
pub struct ActionView {
    pub id: Seq<u8>,
    pub label: Seq<u8>,
    pub resource_effect: ActionEffect,
    pub input_output: ProcessType,
    pub pairs_with: Seq<u8>,
}

impl View for Action {
    type V = ActionView;

    open spec fn view(&self) -> ActionView {
        ActionView {
            id: self.id@,
            label: self.label@,
            resource_effect: self.resource_effect,
            input_output: self.input_output,
            pairs_with: self.pairs_with@,
        }
    }
}

/// The entry named `name`, which doubles as its label.
pub open spec fn entry(
    name: &str,
    resource_effect: ActionEffect,
    input_output: ProcessType,
    pairs_with: &str,
) -> ActionView {
    ActionView {
        id: name.spec_bytes(),
        label: name.spec_bytes(),
        resource_effect,
        input_output,
        pairs_with: pairs_with.spec_bytes(),
    }
}

/// The catalogue, in its fixed order.
pub open spec fn catalogue() -> Seq<ActionView> {
    seq![
        entry("dropoff", ActionEffect::Increment, ProcessType::Output, "pickup"),
        entry("pickup", ActionEffect::Decrement, ProcessType::Input, "dropoff"),
        entry("consume", ActionEffect::Decrement, ProcessType::Input, "notApplicable"),
        entry("use", ActionEffect::NoEffect, ProcessType::Input, "notApplicable"),
        entry("work", ActionEffect::NoEffect, ProcessType::Input, "notApplicable"),
        entry("cite", ActionEffect::NoEffect, ProcessType::Input, "notApplicable"),
        entry("produce", ActionEffect::Increment, ProcessType::Output, "notApplicable"),
        entry("accept", ActionEffect::NoEffect, ProcessType::Input, "modify"),
        entry("modify", ActionEffect::NoEffect, ProcessType::Output, "accept"),
        entry("pass", ActionEffect::NoEffect, ProcessType::Output, "accept"),
        entry("fail", ActionEffect::NoEffect, ProcessType::Output, "accept"),
        entry("deliver_service", ActionEffect::NoEffect, ProcessType::Output, "notApplicable"),
        entry(
            "transfer_all_rights",
            ActionEffect::DecrementIncrement,
            ProcessType::NotApplicable,
            "notApplicable",
        ),
        entry(
            "transfer_custody",
            ActionEffect::DecrementIncrement,
            ProcessType::NotApplicable,
            "notApplicable",
        ),
        entry(
            "transfer",
            ActionEffect::DecrementIncrement,
            ProcessType::NotApplicable,
            "notApplicable",
        ),
        entry(
            "move",
            ActionEffect::DecrementIncrement,
            ProcessType::NotApplicable,
            "notApplicable",
        ),
        entry("raise", ActionEffect::Increment, ProcessType::NotApplicable, "notApplicable"),
        entry("lower", ActionEffect::Decrement, ProcessType::NotApplicable, "notApplicable"),
    ]
}

/// The views of the entries of a list, in order.
pub open spec fn actions_view(actions: Vec<Action>) -> Seq<ActionView> {
    actions@.map_values(|action: Action| action@)
}

impl Action {
    /// The entry named `name`, which doubles as its label.
    pub fn named(
        name: &str,
        resource_effect: ActionEffect,
        input_output: ProcessType,
        pairs_with: &str,
    ) -> (action: Action)
        ensures
            action@ == entry(name, resource_effect, input_output, pairs_with),
    {
        Action {
            id: name.as_bytes_vec(),
            label: name.as_bytes_vec(),
            resource_effect,
            input_output,
            pairs_with: pairs_with.as_bytes_vec(),
        }
    }
}

/// The catalogue of actions. It keeps no state.
pub struct Pallet;

impl Pallet {
    /// Accepts every caller and changes nothing.
    pub fn get_action(_who: AccountId, _id: Vec<u8>) -> (result: Result<(), Error>)
        ensures
            result is Ok,
    {
        Ok(())
    }

    /// Accepts every caller and changes nothing.
    pub fn get_all_actions(_who: AccountId) -> (result: Result<(), Error>)
        ensures
            result is Ok,
    {
        Ok(())
    }

    /// The whole catalogue, in its fixed order.
    pub fn all_actions() -> (actions: Vec<Action>)
        ensures
            actions_view(actions) == catalogue(),
    {
        let mut actions: Vec<Action> = Vec::new();
        actions.push(
            Action::named("dropoff", ActionEffect::Increment, ProcessType::Output, "pickup"),
        );
        actions.push(
            Action::named("pickup", ActionEffect::Decrement, ProcessType::Input, "dropoff"),
        );
        actions.push(
            Action::named("consume", ActionEffect::Decrement, ProcessType::Input, "notApplicable"),
        );
        actions.push(
            Action::named("use", ActionEffect::NoEffect, ProcessType::Input, "notApplicable"),
        );
        actions.push(
            Action::named("work", ActionEffect::NoEffect, ProcessType::Input, "notApplicable"),
        );
        actions.push(
            Action::named("cite", ActionEffect::NoEffect, ProcessType::Input, "notApplicable"),
        );
        actions.push(
            Action::named("produce", ActionEffect::Increment, ProcessType::Output, "notApplicable"),
        );
        actions.push(Action::named("accept", ActionEffect::NoEffect, ProcessType::Input, "modify"));
        actions.push(
            Action::named("modify", ActionEffect::NoEffect, ProcessType::Output, "accept"),
        );
        actions.push(Action::named("pass", ActionEffect::NoEffect, ProcessType::Output, "accept"));
        actions.push(Action::named("fail", ActionEffect::NoEffect, ProcessType::Output, "accept"));
        actions.push(
            Action::named(
                "deliver_service",
                ActionEffect::NoEffect,
                ProcessType::Output,
                "notApplicable",
            ),
        );
        actions.push(
            Action::named(
                "transfer_all_rights",
                ActionEffect::DecrementIncrement,
                ProcessType::NotApplicable,
                "notApplicable",
            ),
        );
        actions.push(
            Action::named(
                "transfer_custody",
                ActionEffect::DecrementIncrement,
                ProcessType::NotApplicable,
                "notApplicable",
            ),
        );
        actions.push(
            Action::named(
                "transfer",
                ActionEffect::DecrementIncrement,
                ProcessType::NotApplicable,
                "notApplicable",
            ),
        );
        actions.push(
            Action::named(
                "move",
                ActionEffect::DecrementIncrement,
                ProcessType::NotApplicable,
                "notApplicable",
            ),
        );
        actions.push(
            Action::named(
                "raise",
                ActionEffect::Increment,
                ProcessType::NotApplicable,
                "notApplicable",
            ),
        );
        actions.push(
            Action::named(
                "lower",
                ActionEffect::Decrement,
                ProcessType::NotApplicable,
                "notApplicable",
            ),
        );
        assert(actions_view(actions) =~= catalogue());
        actions
    }
}

} // verus!
