//! The services and characteristics of one device: as discovered, as resolved against the
//! registry, and as printed.

use crate::bleuuid::Uuid;
use crate::characteristics::FitnessCharacteristic;
use crate::services::FitnessService;
use vstd::prelude::*;
use vstd::string::StringExecFns;

verus! {

/// A characteristic as the device reports it.
#[derive(Clone, Debug, PartialEq, Eq)]
pub struct Characteristic {
    pub uuid: Uuid,
    /// The set of property flags, as the adapter library prints it.
    pub properties: String,
}

/// A service as the device reports it, with its characteristics in the adapter's order.
#[derive(Clone, Debug, PartialEq, Eq)]
pub struct Service {
    pub uuid: Uuid,
    pub characteristics: Vec<Characteristic>,
}

/// The model of a `Characteristic`.
pub struct CharacteristicModel {
    pub uuid: Uuid,
    pub properties: Seq<char>,
}

/// The model of a `Service`.
pub struct ServiceModel {
    pub uuid: Uuid,
    pub characteristics: Seq<CharacteristicModel>,
}

/// What a service UUID resolved to: a service of the registry, or the UUID itself.
#[derive(Clone, Copy, Debug, PartialEq, Eq)]
pub enum ServiceLabel {
    Known(FitnessService),
    Unknown(Uuid),
}

/// What a characteristic UUID resolved to: a characteristic of the registry, or the UUID
/// itself.
#[derive(Clone, Copy, Debug, PartialEq, Eq)]
pub enum CharacteristicLabel {
    Known(FitnessCharacteristic),
    Unknown(Uuid),
}

/// A characteristic of the snapshot.
#[derive(Clone, Debug, PartialEq, Eq)]
pub struct CharacteristicEntry {
    pub label: CharacteristicLabel,
    pub properties: String,
}

/// A service of the snapshot.
#[derive(Clone, Debug, PartialEq, Eq)]
pub struct ServiceEntry {
    pub label: ServiceLabel,
    pub characteristics: Vec<CharacteristicEntry>,
}

/// The resolved tree of one device, taken once after its services were discovered.
#[derive(Clone, Debug, PartialEq, Eq)]
pub struct GattTreeSnapshot {
    pub services: Vec<ServiceEntry>,
}

/// The model of a `CharacteristicEntry`.
pub struct CharacteristicEntryModel {
    pub label: CharacteristicLabel,
    pub properties: Seq<char>,
}

/// The model of a `ServiceEntry`.
pub struct ServiceEntryModel {
    pub label: ServiceLabel,
    pub characteristics: Seq<CharacteristicEntryModel>,
}

impl View for Characteristic {
    type V = CharacteristicModel;

    open spec fn view(&self) -> CharacteristicModel {
        CharacteristicModel { uuid: self.uuid, properties: self.properties@ }
    }
}

impl View for Service {
    type V = ServiceModel;

    open spec fn view(&self) -> ServiceModel {
        ServiceModel {
            uuid: self.uuid,
            characteristics: self.characteristics@.map_values(|c: Characteristic| c@),
        }
    }
}

impl View for CharacteristicEntry {
    type V = CharacteristicEntryModel;

    open spec fn view(&self) -> CharacteristicEntryModel {
        CharacteristicEntryModel { label: self.label, properties: self.properties@ }
    }
}

impl View for ServiceEntry {
    type V = ServiceEntryModel;

    open spec fn view(&self) -> ServiceEntryModel {
        ServiceEntryModel {
            label: self.label,
            characteristics: self.characteristics@.map_values(|c: CharacteristicEntry| c@),
        }
    }
}

impl View for GattTreeSnapshot {
    type V = Seq<ServiceEntryModel>;

    open spec fn view(&self) -> Seq<ServiceEntryModel> {
        self.services@.map_values(|s: ServiceEntry| s@)
    }
}

/// The models of the services of a tree as discovered.
pub open spec fn tree_model(services: Seq<Service>) -> Seq<ServiceModel> {
    services.map_values(|s: Service| s@)
}

impl ServiceLabel {
    /// The label of a service UUID: the service it names in the registry, else the UUID.
    pub open spec fn resolved(uuid: Uuid) -> ServiceLabel {
        match FitnessService::resolve(uuid) {
            Some(service) => ServiceLabel::Known(service),
            None => ServiceLabel::Unknown(uuid),
        }
    }

    /// The heading of a service in the report.
    pub open spec fn heading(self) -> Seq<char> {
        match self {
            ServiceLabel::Known(service) => service.spec_name() + " Service"@,
            ServiceLabel::Unknown(uuid) => "Unknown Service: "@ + uuid.text(),
        }
    }

    /// Resolves a service UUID. A UUID that the registry does not hold is no error: it is
    /// kept, to be shown as it is.
    pub fn of(uuid: Uuid) -> (label: ServiceLabel)
        ensures
            label == ServiceLabel::resolved(uuid),
    {
        match FitnessService::from_uuid(uuid) {
            Ok(service) => ServiceLabel::Known(service),
            Err(_) => ServiceLabel::Unknown(uuid),
        }
    }

    /// The heading of the service in the report: `Fitness Machine Service`, or
    /// `Unknown Service: ` and the UUID.
    pub fn to_heading(&self) -> (line: String)
        ensures
            line@ == self.heading(),
    {
        match self {
            ServiceLabel::Known(service) => {
                let mut line = String::from_str(service.name());
                line.append(" Service");
                line
            },
            ServiceLabel::Unknown(uuid) => {
                let mut line = String::from_str("Unknown Service: ");
                let text = uuid.hyphenated();
                line.append(text.as_str());
                line
            },
        }
    }
}

impl CharacteristicLabel {
    /// The label of a characteristic UUID: the characteristic it names in the registry, else
    /// the UUID.
    pub open spec fn resolved(uuid: Uuid) -> CharacteristicLabel {
        match FitnessCharacteristic::resolve(uuid) {
            Some(characteristic) => CharacteristicLabel::Known(characteristic),
            None => CharacteristicLabel::Unknown(uuid),
        }
    }

    /// The line of a characteristic in the report.
    pub open spec fn item(self) -> Seq<char> {
        match self {
            CharacteristicLabel::Known(characteristic) => "  - "@ + characteristic.spec_name(),
            CharacteristicLabel::Unknown(uuid) => "  - Unknown Characteristic: "@ + uuid.text(),
        }
    }

    /// Resolves a characteristic UUID. A UUID that the registry does not hold is no error: it
    /// is kept, to be shown as it is.
    pub fn of(uuid: Uuid) -> (label: CharacteristicLabel)
        ensures
            label == CharacteristicLabel::resolved(uuid),
    {
        match FitnessCharacteristic::from_uuid(uuid) {
            Ok(characteristic) => CharacteristicLabel::Known(characteristic),
            Err(_) => CharacteristicLabel::Unknown(uuid),
        }
    }

    /// The line of the characteristic in the report: `  - Indoor Bike Data`, or
    /// `  - Unknown Characteristic: ` and the UUID.
    pub fn to_item(&self) -> (line: String)
        ensures
            line@ == self.item(),
    {
        match self {
            CharacteristicLabel::Known(characteristic) => {
                let mut line = String::from_str("  - ");
                line.append(characteristic.name());
                line
            },
            CharacteristicLabel::Unknown(uuid) => {
                let mut line = String::from_str("  - Unknown Characteristic: ");
                let text = uuid.hyphenated();
                line.append(text.as_str());
                line
            },
        }
    }
}

/// A characteristic as discovered, resolved.
pub open spec fn resolved_characteristic(characteristic: CharacteristicModel)
    -> CharacteristicEntryModel {
    CharacteristicEntryModel {
        label: CharacteristicLabel::resolved(characteristic.uuid),
        properties: characteristic.properties,
    }
}

/// A service as discovered, resolved, its characteristics in their order.
pub open spec fn resolved_service(service: ServiceModel) -> ServiceEntryModel {
    ServiceEntryModel {
        label: ServiceLabel::resolved(service.uuid),
        characteristics: service.characteristics.map_values(
            |c: CharacteristicModel| resolved_characteristic(c),
        ),
    }
}

/// A tree as discovered, resolved, its services in their order.
pub open spec fn resolved_tree(services: Seq<ServiceModel>) -> Seq<ServiceEntryModel> {
    services.map_values(|s: ServiceModel| resolved_service(s))
}

/// The two lines of a characteristic: what it is, and its property flags in brackets.
pub open spec fn characteristic_lines(entry: CharacteristicEntryModel) -> Seq<Seq<char>> {
    seq![entry.label.item(), "    ["@ + entry.properties + "]"@]
}

/// The lines of some characteristics, in their order.
pub open spec fn characteristics_lines(entries: Seq<CharacteristicEntryModel>) -> Seq<Seq<char>>
    decreases entries.len(),
{
    if entries.len() == 0 {
        Seq::empty()
    } else {
        characteristics_lines(entries.drop_last()) + characteristic_lines(entries.last())
    }
}

/// The lines of a service: an empty line, the heading, and the lines of its
/// characteristics.
pub open spec fn service_lines(entry: ServiceEntryModel) -> Seq<Seq<char>> {
    seq![Seq::<char>::empty(), entry.label.heading()] + characteristics_lines(
        entry.characteristics,
    )
}

/// The report of a snapshot: the lines of its services, in their order.
pub open spec fn report_lines(services: Seq<ServiceEntryModel>) -> Seq<Seq<char>>
    decreases services.len(),
{
    if services.len() == 0 {
        Seq::empty()
    } else {
        report_lines(services.drop_last()) + service_lines(services.last())
    }
}

impl CharacteristicEntry {
    /// Resolves a characteristic as discovered.
    pub fn resolve(characteristic: &Characteristic) -> (entry: CharacteristicEntry)
        ensures
            entry@ == resolved_characteristic(characteristic@),
    {
        CharacteristicEntry {
            label: CharacteristicLabel::of(characteristic.uuid),
            properties: characteristic.properties.clone(),
        }
    }

    /// The lines of the characteristic, added to `lines`.
    pub fn render_into(&self, lines: &mut Vec<String>)
        ensures
            final(lines).deep_view() == old(lines).deep_view() + characteristic_lines(self@),
    {
        lines.push(self.label.to_item());
        let mut flags = String::from_str("    [");
        flags.append(self.properties.as_str());
        flags.append("]");
        lines.push(flags);
        assert(lines.deep_view() =~= old(lines).deep_view() + characteristic_lines(self@));
    }
}

impl ServiceEntry {
    /// Resolves a service as discovered, and each of its characteristics.
    pub fn resolve(service: &Service) -> (entry: ServiceEntry)
        ensures
            entry@ == resolved_service(service@),
    {
        let mut characteristics: Vec<CharacteristicEntry> = Vec::new();
        let mut i: usize = 0;
        while i < service.characteristics.len()
            invariant
                i <= service.characteristics.len(),
                characteristics.len() == i,
                forall|k: int|
                    0 <= k < i ==> characteristics@[k]@ == resolved_characteristic(
                        service.characteristics@[k]@,
                    ),
            decreases service.characteristics.len() - i,
        {
            characteristics.push(CharacteristicEntry::resolve(&service.characteristics[i]));
            i += 1;
        }
        let entry = ServiceEntry { label: ServiceLabel::of(service.uuid), characteristics };
        assert(entry@.characteristics =~= resolved_service(service@).characteristics);
        entry
    }

    /// The lines of the service, added to `lines`.
    pub fn render_into(&self, lines: &mut Vec<String>)
        ensures
            final(lines).deep_view() == old(lines).deep_view() + service_lines(self@),
    {
        lines.push(String::new());
        lines.push(self.label.to_heading());
        assert(lines.deep_view() =~= old(lines).deep_view() + seq![
            Seq::<char>::empty(),
            self@.label.heading(),
        ]);
        let mut i: usize = 0;
        while i < self.characteristics.len()
            invariant
                i <= self.characteristics.len(),
                lines.deep_view() == old(lines).deep_view() + seq![
                    Seq::<char>::empty(),
                    self@.label.heading(),
                ] + characteristics_lines(self@.characteristics.take(i as int)),
            decreases self.characteristics.len() - i,
        {
            self.characteristics[i].render_into(lines);
            proof {
                let entries = self@.characteristics;
                assert(entries.take(i + 1).drop_last() =~= entries.take(i as int));
                assert(entries.take(i + 1).last() == self.characteristics@[i as int]@);
            }
            i += 1;
        }
        assert(self@.characteristics.take(i as int) =~= self@.characteristics);
    }
}

impl GattTreeSnapshot {
    /// Resolves every UUID of a discovered tree against the registry, keeping the order.
    pub fn resolve(services: &Vec<Service>) -> (snapshot: GattTreeSnapshot)
        ensures
            snapshot@ == resolved_tree(tree_model(services@)),
    {
        let mut entries: Vec<ServiceEntry> = Vec::new();
        let mut i: usize = 0;
        while i < services.len()
            invariant
                i <= services.len(),
                entries.len() == i,
                forall|k: int| 0 <= k < i ==> entries@[k]@ == resolved_service(services@[k]@),
            decreases services.len() - i,
        {
            entries.push(ServiceEntry::resolve(&services[i]));
            i += 1;
        }
        let snapshot = GattTreeSnapshot { services: entries };
        assert(snapshot@ =~= resolved_tree(tree_model(services@)));
        snapshot
    }

    /// The report of the tree, line by line.
    pub fn render(&self) -> (lines: Vec<String>)
        ensures
            lines.deep_view() == report_lines(self@),
    {
        let mut lines: Vec<String> = Vec::new();
        let mut i: usize = 0;
        assert(lines.deep_view() =~= report_lines(self@.take(0)));
        while i < self.services.len()
            invariant
                i <= self.services.len(),
                lines.deep_view() == report_lines(self@.take(i as int)),
            decreases self.services.len() - i,
        {
            self.services[i].render_into(&mut lines);
            proof {
                assert(self@.take(i + 1).drop_last() =~= self@.take(i as int));
                assert(self@.take(i + 1).last() == self.services@[i as int]@);
            }
            i += 1;
        }
        assert(self@.take(i as int) =~= self@);
        lines
    }
}

} // verus!
