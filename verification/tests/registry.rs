use sp_runtime::FixedI64;
use valueflows::agent::{admit_registration, authorize, Call, Pallet};
use valueflows::model::{Error, Event, Outcome};
use valueflows::records::{
    Config, ProcessSpecification, ResourceSpecification, SpatialThing, Unit,
};

const ALICE: u64 = 1;
const BOB: u64 = 2;

fn limits(max_string_length: u32, max_array_length: u32) -> Config {
    Config { max_string_length, max_array_length }
}

fn registry() -> Pallet {
    Pallet::new(limits(16, 4))
}

fn registry_with_alice() -> Pallet {
    let mut pallet = registry();
    assert_eq!(pallet.register_agent(ALICE), Ok(()));
    pallet
}

fn text(s: &str) -> Vec<u8> {
    s.as_bytes().to_vec()
}

#[test]
fn fresh_registry_has_nothing() {
    let pallet = registry();
    assert_eq!(pallet.config(), limits(16, 4));
    assert!(!pallet.is_registered(ALICE));
    assert!(pallet.events().is_empty());
    assert_eq!(pallet.next_unit_id(), 0);
    assert_eq!(pallet.next_spatial_thing_id(), 0);
    assert_eq!(pallet.next_process_specification_id(), 0);
    assert_eq!(pallet.next_resource_specification_id(), 0);
    assert_eq!(pallet.get_unit(0), None);
    assert_eq!(pallet.get_spatial_thing(0), None);
    assert_eq!(pallet.get_process_specification(0), None);
    assert_eq!(pallet.get_resource_specification(0), None);
}

#[test]
fn register_makes_registered_and_announces_it() {
    let mut pallet = registry();
    assert!(!pallet.is_registered(ALICE));
    assert_eq!(pallet.register_agent(ALICE), Ok(()));
    assert!(pallet.is_registered(ALICE));
    assert!(!pallet.is_registered(BOB));
    assert_eq!(pallet.events(), &vec![Event::AgentRegistered(ALICE)]);
}

#[test]
fn registration_survives_later_calls() {
    let mut pallet = registry_with_alice();
    assert_eq!(pallet.create_unit(ALICE, text("kg"), text("kg")), Ok(0));
    assert_eq!(pallet.delete_unit(ALICE, 0), Ok(()));
    assert_eq!(pallet.register_agent(BOB), Ok(()));
    assert_eq!(
        pallet.create_unit(BOB, text("toolongforthelimit"), text("kg")),
        Err(Error::FieldTooLarge)
    );
    assert!(pallet.is_registered(ALICE));
    assert!(pallet.is_registered(BOB));
    assert_eq!(
        pallet.events(),
        &vec![Event::AgentRegistered(ALICE), Event::AgentRegistered(BOB)]
    );
}

#[test]
fn second_registration_is_rejected_and_changes_nothing() {
    let mut pallet = registry_with_alice();
    assert_eq!(pallet.register_agent(ALICE), Err(Error::AlreadyRegistered));
    assert!(pallet.is_registered(ALICE));
    assert_eq!(pallet.events(), &vec![Event::AgentRegistered(ALICE)]);
    assert_eq!(pallet.next_unit_id(), 0);
}

#[test]
fn get_my_agent_pubkey_accepts_anyone() {
    let pallet = registry();
    assert_eq!(pallet.get_my_agent_pubkey(ALICE), Ok(()));
    assert!(!pallet.is_registered(ALICE));
}

#[test]
fn unregistered_caller_cannot_touch_units() {
    let mut pallet = registry_with_alice();
    assert_eq!(pallet.create_unit(ALICE, text("kg"), text("kg")), Ok(0));
    assert_eq!(pallet.create_unit(BOB, text("m"), text("m")), Err(Error::NotRegistered));
    assert_eq!(pallet.update_unit(BOB, 0, text("m"), text("m")), Err(Error::NotRegistered));
    assert_eq!(pallet.delete_unit(BOB, 0), Err(Error::NotRegistered));
    assert_eq!(pallet.next_unit_id(), 1);
    assert_eq!(pallet.get_unit(0), Some(&Unit { label: text("kg"), symbol: text("kg") }));
    assert_eq!(pallet.get_unit(1), None);
}

#[test]
fn unregistered_caller_cannot_touch_spatial_things() {
    let mut pallet = registry_with_alice();
    assert_eq!(
        pallet.create_spatial_thing(ALICE, text("barn"), None, None, None, None, None),
        Ok(0)
    );
    assert_eq!(
        pallet.create_spatial_thing(BOB, text("shed"), None, None, None, None, None),
        Err(Error::NotRegistered)
    );
    assert_eq!(
        pallet.update_spatial_thing(BOB, 0, text("shed"), None, None, None, None, None),
        Err(Error::NotRegistered)
    );
    assert_eq!(pallet.delete_spatial_thing(BOB, 0), Err(Error::NotRegistered));
    assert_eq!(pallet.next_spatial_thing_id(), 1);
    assert_eq!(pallet.get_spatial_thing(0).map(|thing| thing.name.clone()), Some(text("barn")));
}

#[test]
fn unregistered_caller_cannot_touch_process_specifications() {
    let mut pallet = registry_with_alice();
    assert_eq!(pallet.create_process_specification(ALICE, text("saw"), None), Ok(0));
    assert_eq!(
        pallet.create_process_specification(BOB, text("plane"), None),
        Err(Error::NotRegistered)
    );
    assert_eq!(
        pallet.update_process_specification(BOB, 0, text("plane"), None),
        Err(Error::NotRegistered)
    );
    assert_eq!(pallet.delete_process_specification(BOB, 0), Err(Error::NotRegistered));
    assert_eq!(pallet.next_process_specification_id(), 1);
    assert_eq!(
        pallet.get_process_specification(0),
        Some(&ProcessSpecification { name: text("saw"), note: None })
    );
}

#[test]
fn unregistered_caller_cannot_touch_resource_specifications() {
    let mut pallet = registry_with_alice();
    assert_eq!(
        pallet.create_resource_specification(ALICE, text("Wood"), vec![], None, vec![], None, None),
        Ok(0)
    );
    assert_eq!(
        pallet.create_resource_specification(BOB, text("Iron"), vec![], None, vec![], None, None),
        Err(Error::NotRegistered)
    );
    assert_eq!(
        pallet.update_resource_specification(
            BOB,
            0,
            text("Iron"),
            vec![],
            None,
            vec![],
            None,
            None,
        ),
        Err(Error::NotRegistered)
    );
    assert_eq!(pallet.delete_resource_specification(BOB, 0), Err(Error::NotRegistered));
    assert_eq!(pallet.next_resource_specification_id(), 1);
    assert_eq!(
        pallet.get_resource_specification(0).map(|spec| spec.name.clone()),
        Some(text("Wood"))
    );
}

#[test]
fn registration_is_checked_before_the_limits() {
    let mut pallet = Pallet::new(limits(4, 4));
    assert_eq!(pallet.create_unit(BOB, text("toolong"), text("kg")), Err(Error::NotRegistered));
}

#[test]
fn unit_ids_increase_across_deletes_and_callers() {
    let mut pallet = registry_with_alice();
    assert_eq!(pallet.register_agent(BOB), Ok(()));
    assert_eq!(pallet.create_unit(ALICE, text("kg"), text("kg")), Ok(0));
    assert_eq!(pallet.create_unit(BOB, text("m"), text("m")), Ok(1));
    assert_eq!(pallet.delete_unit(ALICE, 1), Ok(()));
    assert_eq!(pallet.delete_unit(ALICE, 0), Ok(()));
    assert_eq!(pallet.create_unit(ALICE, text("s"), text("s")), Ok(2));
    assert_eq!(pallet.get_unit(0), None);
    assert_eq!(pallet.get_unit(1), None);
    assert_eq!(pallet.get_unit(2), Some(&Unit { label: text("s"), symbol: text("s") }));
    assert_eq!(pallet.next_unit_id(), 3);
}

#[test]
fn each_kind_has_its_own_counter() {
    let mut pallet = registry_with_alice();
    assert_eq!(pallet.create_unit(ALICE, text("kg"), text("kg")), Ok(0));
    assert_eq!(pallet.create_unit(ALICE, text("m"), text("m")), Ok(1));
    assert_eq!(
        pallet.create_spatial_thing(ALICE, text("barn"), None, None, None, None, None),
        Ok(0)
    );
    assert_eq!(pallet.create_process_specification(ALICE, text("saw"), None), Ok(0));
    assert_eq!(pallet.create_process_specification(ALICE, text("plane"), None), Ok(1));
    assert_eq!(pallet.create_process_specification(ALICE, text("sand"), None), Ok(2));
    assert_eq!(
        pallet.create_resource_specification(ALICE, text("Wood"), vec![], None, vec![], None, None),
        Ok(0)
    );
    assert_eq!(pallet.next_unit_id(), 2);
    assert_eq!(pallet.next_spatial_thing_id(), 1);
    assert_eq!(pallet.next_process_specification_id(), 3);
    assert_eq!(pallet.next_resource_specification_id(), 1);
}

#[test]
fn created_unit_reads_back() {
    let mut pallet = registry_with_alice();
    let id = pallet.create_unit(ALICE, text("kg"), text("kg")).unwrap();
    assert_eq!(id, 0);
    assert_eq!(pallet.get_unit(id), Some(&Unit { label: text("kg"), symbol: text("kg") }));
}

#[test]
fn reading_needs_no_registration() {
    let mut pallet = registry_with_alice();
    assert_eq!(pallet.create_unit(ALICE, text("kilogram"), text("kg")), Ok(0));
    assert!(!pallet.is_registered(BOB));
    let unit = pallet.get_unit(0).unwrap();
    assert_eq!(unit.label, text("kilogram"));
    assert_eq!(unit.symbol, text("kg"));
}

#[test]
fn update_unit_inserts_where_nothing_was() {
    let mut pallet = registry_with_alice();
    assert_eq!(pallet.update_unit(ALICE, 999, text("x"), text("y")), Ok(()));
    assert_eq!(pallet.get_unit(999), Some(&Unit { label: text("x"), symbol: text("y") }));
    assert_eq!(pallet.next_unit_id(), 0);
}

#[test]
fn update_unit_replaces_what_was_there() {
    let mut pallet = registry_with_alice();
    assert_eq!(pallet.create_unit(ALICE, text("kg"), text("kg")), Ok(0));
    assert_eq!(pallet.update_unit(ALICE, 0, text("gram"), text("g")), Ok(()));
    assert_eq!(pallet.get_unit(0), Some(&Unit { label: text("gram"), symbol: text("g") }));
    assert_eq!(pallet.next_unit_id(), 1);
}

#[test]
fn create_overwrites_a_record_put_under_a_later_id() {
    let mut pallet = registry_with_alice();
    assert_eq!(pallet.update_unit(ALICE, 0, text("x"), text("y")), Ok(()));
    assert_eq!(pallet.create_unit(ALICE, text("kg"), text("kg")), Ok(0));
    assert_eq!(pallet.get_unit(0), Some(&Unit { label: text("kg"), symbol: text("kg") }));
}

#[test]
fn delete_of_missing_unit_succeeds_and_changes_nothing() {
    let mut pallet = registry_with_alice();
    assert_eq!(pallet.create_unit(ALICE, text("kg"), text("kg")), Ok(0));
    assert_eq!(pallet.delete_unit(ALICE, 999), Ok(()));
    assert_eq!(pallet.get_unit(999), None);
    assert_eq!(pallet.get_unit(0), Some(&Unit { label: text("kg"), symbol: text("kg") }));
    assert_eq!(pallet.next_unit_id(), 1);
}

#[test]
fn delete_twice_is_as_delete_once() {
    let mut pallet = registry_with_alice();
    assert_eq!(pallet.create_unit(ALICE, text("kg"), text("kg")), Ok(0));
    assert_eq!(pallet.delete_unit(ALICE, 0), Ok(()));
    assert_eq!(pallet.get_unit(0), None);
    assert_eq!(pallet.delete_unit(ALICE, 0), Ok(()));
    assert_eq!(pallet.get_unit(0), None);
    assert_eq!(pallet.next_unit_id(), 1);
}

#[test]
fn oversized_label_is_rejected_without_using_an_id() {
    let mut pallet = Pallet::new(limits(4, 4));
    assert_eq!(pallet.register_agent(ALICE), Ok(()));
    assert_eq!(pallet.create_unit(ALICE, text("toolong"), text("kg")), Err(Error::FieldTooLarge));
    assert_eq!(pallet.next_unit_id(), 0);
    assert_eq!(pallet.get_unit(0), None);
    assert_eq!(pallet.create_unit(ALICE, text("kg"), text("kg")), Ok(0));
}

#[test]
fn oversized_symbol_is_rejected() {
    let mut pallet = Pallet::new(limits(4, 4));
    assert_eq!(pallet.register_agent(ALICE), Ok(()));
    assert_eq!(pallet.create_unit(ALICE, text("kg"), text("toolong")), Err(Error::FieldTooLarge));
    assert_eq!(
        pallet.update_unit(ALICE, 3, text("kg"), text("toolong")),
        Err(Error::FieldTooLarge)
    );
    assert_eq!(
        pallet.update_unit(ALICE, 3, text("toolong"), text("kg")),
        Err(Error::FieldTooLarge)
    );
    assert_eq!(pallet.get_unit(3), None);
}

#[test]
fn text_of_exactly_the_limit_is_accepted() {
    let mut pallet = Pallet::new(limits(4, 4));
    assert_eq!(pallet.register_agent(ALICE), Ok(()));
    assert_eq!(pallet.create_unit(ALICE, text("gram"), text("g")), Ok(0));
    assert_eq!(pallet.create_unit(ALICE, text("grams"), text("g")), Err(Error::FieldTooLarge));
    assert_eq!(pallet.create_unit(ALICE, text(""), text("")), Ok(1));
}

#[test]
fn zero_limit_admits_only_empty_texts() {
    let mut pallet = Pallet::new(limits(0, 0));
    assert_eq!(pallet.register_agent(ALICE), Ok(()));
    assert_eq!(pallet.create_unit(ALICE, text("a"), text("")), Err(Error::FieldTooLarge));
    assert_eq!(pallet.create_unit(ALICE, text(""), text("")), Ok(0));
}

#[test]
fn failed_update_keeps_the_old_record() {
    let mut pallet = Pallet::new(limits(4, 4));
    assert_eq!(pallet.register_agent(ALICE), Ok(()));
    assert_eq!(pallet.create_unit(ALICE, text("kg"), text("kg")), Ok(0));
    assert_eq!(
        pallet.update_unit(ALICE, 0, text("kilogram"), text("kg")),
        Err(Error::FieldTooLarge)
    );
    assert_eq!(pallet.get_unit(0), Some(&Unit { label: text("kg"), symbol: text("kg") }));
}

#[test]
fn spatial_thing_round_trip_with_partial_coordinates() {
    let mut pallet = registry_with_alice();
    let id = pallet
        .create_spatial_thing(
            ALICE,
            text("barn"),
            Some(text("red")),
            None,
            Some(FixedI64::from_inner(48_858_370_000)),
            None,
            Some(FixedI64::from_inner(-12_000_000_000)),
        )
        .unwrap();
    assert_eq!(id, 0);
    assert_eq!(
        pallet.get_spatial_thing(0),
        Some(&SpatialThing {
            name: text("barn"),
            note: Some(text("red")),
            mappable_address: None,
            lat: Some(FixedI64::from_inner(48_858_370_000)),
            long: None,
            alt: Some(FixedI64::from_inner(-12_000_000_000)),
        })
    );
    assert_eq!(
        pallet.update_spatial_thing(
            ALICE,
            0,
            text("shed"),
            None,
            Some(text("1 Main St")),
            None,
            Some(FixedI64::from_inner(2_294_480_000)),
            None
        ),
        Ok(())
    );
    assert_eq!(
        pallet.get_spatial_thing(0),
        Some(&SpatialThing {
            name: text("shed"),
            note: None,
            mappable_address: Some(text("1 Main St")),
            lat: None,
            long: Some(FixedI64::from_inner(2_294_480_000)),
            alt: None,
        })
    );
    assert_eq!(pallet.delete_spatial_thing(ALICE, 0), Ok(()));
    assert_eq!(pallet.get_spatial_thing(0), None);
    assert_eq!(pallet.delete_spatial_thing(ALICE, 0), Ok(()));
    assert_eq!(pallet.next_spatial_thing_id(), 1);
}

#[test]
fn spatial_thing_limits_cover_every_text() {
    let mut pallet = Pallet::new(limits(4, 4));
    assert_eq!(pallet.register_agent(ALICE), Ok(()));
    assert_eq!(
        pallet.create_spatial_thing(ALICE, text("barns"), None, None, None, None, None),
        Err(Error::FieldTooLarge)
    );
    assert_eq!(
        pallet.create_spatial_thing(
            ALICE,
            text("barn"),
            Some(text("a red one")),
            None,
            None,
            None,
            None,
        ),
        Err(Error::FieldTooLarge)
    );
    assert_eq!(
        pallet.create_spatial_thing(
            ALICE,
            text("barn"),
            None,
            Some(text("1 Main St")),
            None,
            None,
            None,
        ),
        Err(Error::FieldTooLarge)
    );
    assert_eq!(
        pallet.update_spatial_thing(
            ALICE,
            7,
            text("barn"),
            None,
            Some(text("1 Main St")),
            None,
            None,
            None,
        ),
        Err(Error::FieldTooLarge)
    );
    assert_eq!(pallet.next_spatial_thing_id(), 0);
    assert_eq!(pallet.get_spatial_thing(7), None);
    assert_eq!(
        pallet.create_spatial_thing(
            ALICE,
            text("barn"),
            Some(text("red!")),
            Some(text("here")),
            None,
            None,
            None,
        ),
        Ok(0)
    );
}

#[test]
fn process_specification_round_trip() {
    let mut pallet = registry_with_alice();
    assert_eq!(
        pallet.create_process_specification(ALICE, text("saw"), Some(text("by hand"))),
        Ok(0)
    );
    assert_eq!(
        pallet.get_process_specification(0),
        Some(&ProcessSpecification { name: text("saw"), note: Some(text("by hand")) })
    );
    assert_eq!(pallet.update_process_specification(ALICE, 5, text("plane"), None), Ok(()));
    assert_eq!(
        pallet.get_process_specification(5),
        Some(&ProcessSpecification { name: text("plane"), note: None })
    );
    assert_eq!(pallet.delete_process_specification(ALICE, 0), Ok(()));
    assert_eq!(pallet.get_process_specification(0), None);
    assert_eq!(pallet.delete_process_specification(ALICE, 77), Ok(()));
    assert_eq!(pallet.create_process_specification(ALICE, text("sand"), None), Ok(1));
}

#[test]
fn process_specification_limits_cover_every_text() {
    let mut pallet = Pallet::new(limits(4, 4));
    assert_eq!(pallet.register_agent(ALICE), Ok(()));
    assert_eq!(
        pallet.create_process_specification(ALICE, text("plane"), None),
        Err(Error::FieldTooLarge)
    );
    assert_eq!(
        pallet.create_process_specification(ALICE, text("saw"), Some(text("by hand"))),
        Err(Error::FieldTooLarge)
    );
    assert_eq!(
        pallet.update_process_specification(ALICE, 0, text("saw"), Some(text("by hand"))),
        Err(Error::FieldTooLarge)
    );
    assert_eq!(pallet.next_process_specification_id(), 0);
    assert_eq!(pallet.get_process_specification(0), None);
}

#[test]
fn resource_specification_keeps_unit_ids_that_name_no_unit() {
    let mut pallet = registry_with_alice();
    assert_eq!(
        pallet.create_resource_specification(
            ALICE,
            text("Wood"),
            vec![],
            None,
            vec![],
            Some(5),
            None
        ),
        Ok(0)
    );
    assert_eq!(pallet.get_unit(5), None);
    assert_eq!(
        pallet.get_resource_specification(0),
        Some(&ResourceSpecification {
            name: text("Wood"),
            images: vec![],
            note: None,
            resource_classified_as: vec![],
            default_unit_of_resource_id: Some(5),
            default_unit_of_effort_id: None,
        })
    );
}

#[test]
fn resource_specification_round_trip_with_lists() {
    let mut pallet = registry_with_alice();
    let images = vec![vec![7u8; 32], vec![9u8; 32]];
    let classes = vec![text("timber"), text("oak")];
    assert_eq!(
        pallet.update_resource_specification(
            ALICE,
            3,
            text("Wood"),
            images.clone(),
            Some(text("dry")),
            classes.clone(),
            None,
            Some(1)
        ),
        Ok(())
    );
    assert_eq!(
        pallet.get_resource_specification(3),
        Some(&ResourceSpecification {
            name: text("Wood"),
            images,
            note: Some(text("dry")),
            resource_classified_as: classes,
            default_unit_of_resource_id: None,
            default_unit_of_effort_id: Some(1),
        })
    );
    assert_eq!(pallet.next_resource_specification_id(), 0);
    assert_eq!(pallet.delete_resource_specification(ALICE, 3), Ok(()));
    assert_eq!(pallet.get_resource_specification(3), None);
    assert_eq!(pallet.delete_resource_specification(ALICE, 3), Ok(()));
}

#[test]
fn resource_specification_limits_cover_texts_and_lists() {
    let mut pallet = Pallet::new(limits(4, 2));
    assert_eq!(pallet.register_agent(ALICE), Ok(()));
    let two_images = vec![vec![0u8; 32], vec![1u8; 32]];
    let three_images = vec![vec![0u8; 32], vec![1u8; 32], vec![2u8; 32]];
    assert_eq!(
        pallet.create_resource_specification(
            ALICE,
            text("Woods"),
            vec![],
            None,
            vec![],
            None,
            None,
        ),
        Err(Error::FieldTooLarge)
    );
    assert_eq!(
        pallet.create_resource_specification(
            ALICE,
            text("Wood"),
            three_images.clone(),
            None,
            vec![],
            None,
            None,
        ),
        Err(Error::FieldTooLarge)
    );
    assert_eq!(
        pallet.create_resource_specification(
            ALICE,
            text("Wood"),
            vec![],
            Some(text("rather dry")),
            vec![],
            None,
            None,
        ),
        Err(Error::FieldTooLarge)
    );
    assert_eq!(
        pallet.create_resource_specification(
            ALICE,
            text("Wood"),
            vec![],
            None,
            vec![text("a"), text("b"), text("c")],
            None,
            None
        ),
        Err(Error::FieldTooLarge)
    );
    assert_eq!(
        pallet.create_resource_specification(
            ALICE,
            text("Wood"),
            vec![],
            None,
            vec![text("oak"), text("timber")],
            None,
            None
        ),
        Err(Error::FieldTooLarge)
    );
    assert_eq!(
        pallet.update_resource_specification(
            ALICE,
            0,
            text("Wood"),
            three_images,
            None,
            vec![],
            None,
            None,
        ),
        Err(Error::FieldTooLarge)
    );
    assert_eq!(pallet.next_resource_specification_id(), 0);
    assert_eq!(pallet.get_resource_specification(0), None);
    assert_eq!(
        pallet.create_resource_specification(
            ALICE,
            text("Wood"),
            two_images,
            Some(text("dry!")),
            vec![text("oak"), text("pine")],
            None,
            None
        ),
        Ok(0)
    );
}

#[test]
fn record_checks_agree_with_the_limits() {
    let config = limits(3, 1);
    assert!(Unit { label: text("abc"), symbol: text("") }.fits(&config));
    assert!(!Unit { label: text("abcd"), symbol: text("") }.fits(&config));
    assert!(ProcessSpecification { name: text("abc"), note: Some(text("abc")) }.fits(&config));
    assert!(!ProcessSpecification { name: text("abc"), note: Some(text("abcd")) }.fits(&config));
    let thing = SpatialThing {
        name: text("abc"),
        note: None,
        mappable_address: Some(text("abcd")),
        lat: None,
        long: None,
        alt: None,
    };
    assert!(!thing.fits(&config));
    let spec = ResourceSpecification {
        name: text("abc"),
        images: vec![vec![0u8; 32]],
        note: None,
        resource_classified_as: vec![text("abc")],
        default_unit_of_resource_id: None,
        default_unit_of_effort_id: None,
    };
    assert!(spec.fits(&config));
    assert!(valueflows::records::texts_fit(&vec![text("ab"), text("abc")], 3));
    assert!(!valueflows::records::texts_fit(&vec![text("ab"), text("abcd")], 3));
    assert!(valueflows::records::texts_fit(&vec![], 0));
    assert!(valueflows::records::text_fits(&None, 0));
    assert!(!valueflows::records::text_fits(&Some(text("a")), 0));
    assert!(valueflows::records::bytes_fit(&text("abc"), 3));
    assert!(!valueflows::records::bytes_fit(&text("abc"), 2));
}

#[test]
fn dispatch_routes_each_call() {
    let mut pallet = registry();
    assert_eq!(pallet.dispatch(ALICE, Call::GetMyAgentPubkey), Ok(Outcome::Done));
    assert_eq!(
        pallet.dispatch(ALICE, Call::CreateUnit(Unit { label: text("kg"), symbol: text("kg") })),
        Err(Error::NotRegistered)
    );
    assert_eq!(pallet.dispatch(ALICE, Call::RegisterAgent), Ok(Outcome::Done));
    assert_eq!(pallet.dispatch(ALICE, Call::RegisterAgent), Err(Error::AlreadyRegistered));
    assert_eq!(
        pallet.dispatch(ALICE, Call::CreateUnit(Unit { label: text("kg"), symbol: text("kg") })),
        Ok(Outcome::Created(0))
    );
    assert_eq!(
        pallet.dispatch(ALICE, Call::CreateUnit(Unit { label: text("m"), symbol: text("m") })),
        Ok(Outcome::Created(1))
    );
    assert_eq!(
        pallet.dispatch(
            ALICE,
            Call::UpdateUnit(1, Unit { label: text("metre"), symbol: text("m") }),
        ),
        Ok(Outcome::Done)
    );
    assert_eq!(pallet.dispatch(ALICE, Call::DeleteUnit(0)), Ok(Outcome::Done));
    assert_eq!(pallet.get_unit(0), None);
    assert_eq!(pallet.get_unit(1), Some(&Unit { label: text("metre"), symbol: text("m") }));
    let saw = ProcessSpecification { name: text("saw"), note: None };
    assert_eq!(
        pallet.dispatch(ALICE, Call::CreateProcessSpecification(saw.clone())),
        Ok(Outcome::Created(0))
    );
    assert_eq!(pallet.get_process_specification(0), Some(&saw));
    assert_eq!(
        pallet.dispatch(ALICE, Call::UpdateProcessSpecification(4, saw.clone())),
        Ok(Outcome::Done)
    );
    assert_eq!(pallet.dispatch(ALICE, Call::DeleteProcessSpecification(0)), Ok(Outcome::Done));
    assert_eq!(pallet.get_process_specification(0), None);
    assert_eq!(pallet.get_process_specification(4), Some(&saw));
    let barn = SpatialThing {
        name: text("barn"),
        note: None,
        mappable_address: None,
        lat: Some(FixedI64::from_inner(1)),
        long: Some(FixedI64::from_inner(2)),
        alt: Some(FixedI64::from_inner(3)),
    };
    assert_eq!(
        pallet.dispatch(ALICE, Call::CreateSpatialThing(barn.clone())),
        Ok(Outcome::Created(0))
    );
    assert_eq!(pallet.get_spatial_thing(0), Some(&barn));
    assert_eq!(
        pallet.dispatch(ALICE, Call::UpdateSpatialThing(2, barn.clone())),
        Ok(Outcome::Done)
    );
    assert_eq!(pallet.dispatch(ALICE, Call::DeleteSpatialThing(0)), Ok(Outcome::Done));
    assert_eq!(pallet.get_spatial_thing(0), None);
    assert_eq!(pallet.get_spatial_thing(2), Some(&barn));
    let wood = ResourceSpecification {
        name: text("Wood"),
        images: vec![vec![3u8; 32]],
        note: None,
        resource_classified_as: vec![text("oak")],
        default_unit_of_resource_id: Some(1),
        default_unit_of_effort_id: Some(8),
    };
    assert_eq!(
        pallet.dispatch(ALICE, Call::CreateResourceSpecification(wood.clone())),
        Ok(Outcome::Created(0))
    );
    assert_eq!(pallet.get_resource_specification(0), Some(&wood));
    assert_eq!(
        pallet.dispatch(ALICE, Call::UpdateResourceSpecification(6, wood.clone())),
        Ok(Outcome::Done)
    );
    assert_eq!(pallet.dispatch(ALICE, Call::DeleteResourceSpecification(0)), Ok(Outcome::Done));
    assert_eq!(pallet.get_resource_specification(0), None);
    assert_eq!(pallet.get_resource_specification(6), Some(&wood));
    assert_eq!(pallet.dispatch(BOB, Call::DeleteUnit(1)), Err(Error::NotRegistered));
    assert_eq!(pallet.events(), &vec![Event::AgentRegistered(ALICE)]);
}

#[test]
fn dispatch_rejects_oversized_fields() {
    let mut pallet = Pallet::new(limits(4, 4));
    assert_eq!(pallet.dispatch(ALICE, Call::RegisterAgent), Ok(Outcome::Done));
    assert_eq!(
        pallet.dispatch(
            ALICE,
            Call::CreateUnit(Unit { label: text("toolong"), symbol: text("kg") }),
        ),
        Err(Error::FieldTooLarge)
    );
    assert_eq!(
        pallet.dispatch(ALICE, Call::CreateUnit(Unit { label: text("kg"), symbol: text("kg") })),
        Ok(Outcome::Created(0))
    );
}

#[test]
fn verdicts_look_at_registration_first() {
    assert_eq!(authorize(true, true), Ok(()));
    assert_eq!(authorize(true, false), Err(Error::FieldTooLarge));
    assert_eq!(authorize(false, true), Err(Error::NotRegistered));
    assert_eq!(authorize(false, false), Err(Error::NotRegistered));
    assert_eq!(admit_registration(false), Ok(()));
    assert_eq!(admit_registration(true), Err(Error::AlreadyRegistered));
}

#[test]
fn coordinates_come_back_as_the_numbers_they_were() {
    let mut pallet = registry_with_alice();
    let lat = FixedI64::from_rational(97_717, 2_000);
    let long = FixedI64::from_inner(-2_294_480_000);
    assert_eq!(
        pallet.create_spatial_thing(ALICE, text("tower"), None, None, Some(lat), Some(long), None),
        Ok(0)
    );
    let thing = pallet.get_spatial_thing(0).unwrap();
    assert_eq!(thing.lat.map(FixedI64::into_inner), Some(48_858_500_000));
    assert_eq!(thing.long, Some(long));
    assert_eq!(thing.alt, None);
}
