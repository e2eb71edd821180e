//! Record shapes kept by the registry, their mathematical views and the
//! size limits they are held to.

use vstd::prelude::*;
use sp_runtime::FixedI64;

verus! {

/// `sp_runtime::FixedI64`, a signed fixed-point number with nine decimal
/// digits. Nothing is claimed of it: the registry stores such numbers and
/// hands them back, and its contracts compare them only for equality.
#[verifier::external_type_specification]
#[verifier::external_body]
pub struct ExFixedI64(sp_runtime::FixedI64);

/// Identity of a caller. The registry only ever uses it as a key.
pub type AccountId = u64;

/// A content hash naming an image, as the bytes of the hash. The registry
/// stores it and never looks inside.
pub type ContentHash = Vec<u8>;

/// Size limits applied to every text and list field.
#[derive(Clone, Copy, Debug, PartialEq, Eq)]
pub struct Config {
    /// Largest number of bytes a text field may hold.
    pub max_string_length: u32,
    /// Largest number of entries a list field may hold.
    pub max_array_length: u32,
}

/// A unit of measure.
#[derive(Clone, Debug, PartialEq, Eq)]
pub struct Unit {
    pub label: Vec<u8>,
    pub symbol: Vec<u8>,
}

/// A place. Any of its coordinates may be absent.
#[derive(Clone, Debug, PartialEq, Eq)]
pub struct SpatialThing {
    pub name: Vec<u8>,
    pub note: Option<Vec<u8>>,
    pub mappable_address: Option<Vec<u8>>,
    pub lat: Option<FixedI64>,
    pub long: Option<FixedI64>,
    pub alt: Option<FixedI64>,
}

/// A kind of process.
#[derive(Clone, Debug, PartialEq, Eq)]
pub struct ProcessSpecification {
    pub name: Vec<u8>,
    pub note: Option<Vec<u8>>,
}

/// A kind of resource. The two unit identifiers are stored as given and are
/// never looked up among the units.
#[derive(Clone, Debug, PartialEq, Eq)]
pub struct ResourceSpecification {
    pub name: Vec<u8>,
    pub images: Vec<ContentHash>,
    pub note: Option<Vec<u8>>,
    pub resource_classified_as: Vec<Vec<u8>>,
    pub default_unit_of_resource_id: Option<u32>,
    pub default_unit_of_effort_id: Option<u32>,
}

/// A unit as contracts see it.
pub struct UnitView {
    pub label: Seq<u8>,
    pub symbol: Seq<u8>,
}

/// A spatial thing as contracts see it.
pub struct SpatialThingView {
    pub name: Seq<u8>,
    pub note: Option<Seq<u8>>,
    pub mappable_address: Option<Seq<u8>>,
    pub lat: Option<FixedI64>,
    pub long: Option<FixedI64>,
    pub alt: Option<FixedI64>,
}

/// A process specification as contracts see it.
pub struct ProcessSpecificationView {
    pub name: Seq<u8>,
    pub note: Option<Seq<u8>>,
}

/// A resource specification as contracts see it.
pub struct ResourceSpecificationView {
    pub name: Seq<u8>,
    pub images: Seq<Seq<u8>>,
    pub note: Option<Seq<u8>>,
    pub resource_classified_as: Seq<Seq<u8>>,
    pub default_unit_of_resource_id: Option<u32>,
    pub default_unit_of_effort_id: Option<u32>,
}

/// The bytes of an optional text.
pub open spec fn text_view(text: Option<Vec<u8>>) -> Option<Seq<u8>> {
    match text {
        Some(bytes) => Some(bytes@),
        None => None,
    }
}

/// The bytes of each entry of a list, in order.
pub open spec fn texts_view(texts: Vec<Vec<u8>>) -> Seq<Seq<u8>> {
    texts@.map_values(|text: Vec<u8>| text@)
}

impl View for Unit {
    type V = UnitView;

    open spec fn view(&self) -> UnitView {
        UnitView { label: self.label@, symbol: self.symbol@ }
    }
}

impl View for SpatialThing {
    type V = SpatialThingView;

    open spec fn view(&self) -> SpatialThingView {
        SpatialThingView {
            name: self.name@,
            note: text_view(self.note),
            mappable_address: text_view(self.mappable_address),
            lat: self.lat,
            long: self.long,
            alt: self.alt,
        }
    }
}

impl View for ProcessSpecification {
    type V = ProcessSpecificationView;

    open spec fn view(&self) -> ProcessSpecificationView {
        ProcessSpecificationView { name: self.name@, note: text_view(self.note) }
    }
}

impl View for ResourceSpecification {
    type V = ResourceSpecificationView;

    open spec fn view(&self) -> ResourceSpecificationView {
        ResourceSpecificationView {
            name: self.name@,
            images: texts_view(self.images),
            note: text_view(self.note),
            resource_classified_as: texts_view(self.resource_classified_as),
            default_unit_of_resource_id: self.default_unit_of_resource_id,
            default_unit_of_effort_id: self.default_unit_of_effort_id,
        }
    }
}

/// An optional text is within `max` when it is absent or no longer than `max`.
pub open spec fn text_within(text: Option<Seq<u8>>, max: u32) -> bool {
    text matches Some(bytes) ==> bytes.len() <= max
}

/// Every text of the list is no longer than `max`.
pub open spec fn texts_within(texts: Seq<Seq<u8>>, max: u32) -> bool {
    forall|i: int| 0 <= i < texts.len() ==> (#[trigger] texts[i]).len() <= max
}

impl UnitView {
    /// Every text and every list of the record respects the limits.
    pub open spec fn within(self, config: Config) -> bool {
        &&& self.label.len() <= config.max_string_length
        &&& self.symbol.len() <= config.max_string_length
    }
}

impl SpatialThingView {
    /// Every text and every list of the record respects the limits.
    pub open spec fn within(self, config: Config) -> bool {
        &&& self.name.len() <= config.max_string_length
        &&& text_within(self.note, config.max_string_length)
        &&& text_within(self.mappable_address, config.max_string_length)
    }
}

impl ProcessSpecificationView {
    /// Every text and every list of the record respects the limits.
    pub open spec fn within(self, config: Config) -> bool {
        &&& self.name.len() <= config.max_string_length
        &&& text_within(self.note, config.max_string_length)
    }
}

impl ResourceSpecificationView {
    /// Every text and every list of the record respects the limits.
    pub open spec fn within(self, config: Config) -> bool {
        &&& self.name.len() <= config.max_string_length
        &&& self.images.len() <= config.max_array_length
        &&& text_within(self.note, config.max_string_length)
        &&& self.resource_classified_as.len() <= config.max_array_length
        &&& texts_within(self.resource_classified_as, config.max_string_length)
    }
}

/// Tells whether `bytes` is no longer than `max`.
pub fn bytes_fit(bytes: &Vec<u8>, max: u32) -> (fit: bool)
    ensures
        fit == (bytes@.len() <= max),
{
    bytes.len() <= max as usize
}

/// Tells whether an optional text is absent or no longer than `max`.
pub fn text_fits(text: &Option<Vec<u8>>, max: u32) -> (fit: bool)
    ensures
        fit == text_within(text_view(*text), max),
{
    match text {
        Some(bytes) => bytes_fit(bytes, max),
        None => true,
    }
}

/// Tells whether every text of the list is no longer than `max`.
pub fn texts_fit(texts: &Vec<Vec<u8>>, max: u32) -> (fit: bool)
    ensures
        fit == texts_within(texts_view(*texts), max),
{
    let mut i: usize = 0;
    while i < texts.len()
        invariant
            i <= texts.len(),
            forall|j: int| 0 <= j < i ==> (#[trigger] texts_view(*texts)[j]).len() <= max,
        decreases texts.len() - i,
    {
        if !bytes_fit(&texts[i], max) {
            assert(texts_view(*texts)[i as int] == texts[i as int]@);
            return false;
        }
        assert(texts_view(*texts)[i as int] == texts[i as int]@);
        i += 1;
    }
    true
}

impl Unit {
    /// Tells whether both texts respect the limits.
    pub fn fits(&self, config: &Config) -> (fit: bool)
        ensures
            fit == self@.within(*config),
    {
        bytes_fit(&self.label, config.max_string_length) && bytes_fit(
            &self.symbol,
            config.max_string_length,
        )
    }
}

impl SpatialThing {
    /// Tells whether every text respects the limits.
    pub fn fits(&self, config: &Config) -> (fit: bool)
        ensures
            fit == self@.within(*config),
    {
        bytes_fit(&self.name, config.max_string_length) && text_fits(
            &self.note,
            config.max_string_length,
        ) && text_fits(&self.mappable_address, config.max_string_length)
    }
}

impl ProcessSpecification {
    /// Tells whether every text respects the limits.
    pub fn fits(&self, config: &Config) -> (fit: bool)
        ensures
            fit == self@.within(*config),
    {
        bytes_fit(&self.name, config.max_string_length) && text_fits(
            &self.note,
            config.max_string_length,
        )
    }
}

impl ResourceSpecification {
    /// Tells whether every text and every list respects the limits.
    pub fn fits(&self, config: &Config) -> (fit: bool)
        ensures
            fit == self@.within(*config),
    {
        bytes_fit(&self.name, config.max_string_length)
            && self.images.len() <= config.max_array_length as usize
            && text_fits(&self.note, config.max_string_length)
            && self.resource_classified_as.len() <= config.max_array_length as usize
            && texts_fit(&self.resource_classified_as, config.max_string_length)
    }
}

} // verus!
