//! The GATT characteristics that the tool knows by name.

use crate::bleuuid::uuid_from_u16;
use crate::bleuuid::Uuid;
use crate::services::FitnessService;
use vstd::prelude::*;

verus! {

/// A GATT characteristic with an assigned 16-bit number.
#[derive(Clone, Copy, Debug, PartialEq, Eq, Hash, Structural)]
pub enum FitnessCharacteristic {
    ServiceChanged,
    SerialNumberString,
    FirmwareRevisionString,
    HardwareRevisionString,
    SoftwareRevisionString,
    ManufacturerNameString,
    SensorLocation,
    CSCMeasurement,
    CSCFeature,
    CyclingPowerMeasurement,
    CylcingPowerFeature,
    CyclingPowerControlPoint,
    FitnessMachineFeature,
    IndoorBikeData,
    TrainingStatus,
    SupportedResistanceLevelRange,
    SupportedPowerRange,
    FitnessMachineControlPoint,
    FitnessMachineStatus,
}

impl FitnessCharacteristic {
    /// The assigned number of the characteristic.
    pub open spec fn spec_code(self) -> u16 {
        match self {
            FitnessCharacteristic::ServiceChanged => 0x2A05,
            FitnessCharacteristic::SerialNumberString => 0x2A25,
            FitnessCharacteristic::FirmwareRevisionString => 0x2A26,
            FitnessCharacteristic::HardwareRevisionString => 0x2A27,
            FitnessCharacteristic::SoftwareRevisionString => 0x2A28,
            FitnessCharacteristic::ManufacturerNameString => 0x2A29,
            FitnessCharacteristic::SensorLocation => 0x2A5D,
            FitnessCharacteristic::CSCMeasurement => 0x2A5B,
            FitnessCharacteristic::CSCFeature => 0x2A5C,
            FitnessCharacteristic::CyclingPowerMeasurement => 0x2A63,
            FitnessCharacteristic::CylcingPowerFeature => 0x2A65,
            FitnessCharacteristic::CyclingPowerControlPoint => 0x2A66,
            FitnessCharacteristic::FitnessMachineFeature => 0x2ACC,
            FitnessCharacteristic::IndoorBikeData => 0x2AD2,
            FitnessCharacteristic::TrainingStatus => 0x2AD3,
            FitnessCharacteristic::SupportedResistanceLevelRange => 0x2AD6,
            FitnessCharacteristic::SupportedPowerRange => 0x2AD8,
            FitnessCharacteristic::FitnessMachineControlPoint => 0x2AD9,
            FitnessCharacteristic::FitnessMachineStatus => 0x2ADA,
        }
    }

    /// The display name of the characteristic.
    pub open spec fn spec_name(self) -> Seq<char> {
        match self {
            FitnessCharacteristic::ServiceChanged => "Service Changed"@,
            FitnessCharacteristic::SerialNumberString => "Serial Number String"@,
            FitnessCharacteristic::FirmwareRevisionString => "Firmware Revision String"@,
            FitnessCharacteristic::HardwareRevisionString => "Hardware Revision String"@,
            FitnessCharacteristic::SoftwareRevisionString => "Software Revision String"@,
            FitnessCharacteristic::ManufacturerNameString => "Manufacturer Name String"@,
            FitnessCharacteristic::SensorLocation => "Sensor Location"@,
            FitnessCharacteristic::CSCMeasurement => "CSC Measurement"@,
            FitnessCharacteristic::CSCFeature => "CSC Feature"@,
            FitnessCharacteristic::CyclingPowerMeasurement => "Cycling Power Measurement"@,
            FitnessCharacteristic::CylcingPowerFeature => "Cycling Power Feature"@,
            FitnessCharacteristic::CyclingPowerControlPoint => "Cycling Power Control Point"@,
            FitnessCharacteristic::FitnessMachineFeature => "Fitness Machine Feature"@,
            FitnessCharacteristic::IndoorBikeData => "Indoor Bike Data"@,
            FitnessCharacteristic::TrainingStatus => "Training Status"@,
            FitnessCharacteristic::SupportedResistanceLevelRange => "Supported Resistance Level Range"@,
            FitnessCharacteristic::SupportedPowerRange => "Supported Power Range"@,
            FitnessCharacteristic::FitnessMachineControlPoint => "Fitness Machine Control Point"@,
            FitnessCharacteristic::FitnessMachineStatus => "Fitness Machine Status"@,
        }
    }

    /// The characteristic that carries the number `code`, if one does.
    pub open spec fn spec_from_code(code: u16) -> Option<FitnessCharacteristic> {
        if exists|characteristic: FitnessCharacteristic| characteristic.spec_code() == code {
            Some(choose|characteristic: FitnessCharacteristic| characteristic.spec_code() == code)
        } else {
            None
        }
    }

    /// The UUID under which a device announces the characteristic.
    pub open spec fn spec_uuid(self) -> Uuid {
        Uuid::short(self.spec_code())
    }

    /// The characteristic that `uuid` names: the one whose number the UUID stands for.
    pub open spec fn resolve(uuid: Uuid) -> Option<FitnessCharacteristic> {
        match uuid.short_code() {
            Some(code) => Self::spec_from_code(code),
            None => None,
        }
    }

    /// The message with which `from_uuid` turns down a UUID that names no characteristic.
    pub open spec fn rejection(uuid: Uuid) -> Seq<char> {
        if uuid.short_code() is Some {
            "No matching Service"@
        } else {
            "uuid is not a valid BleUuid"@
        }
    }

    /// Every characteristic, each once.
    pub fn all() -> (characteristics: Vec<FitnessCharacteristic>)
        ensures
            characteristics@.no_duplicates(),
            forall|characteristic: FitnessCharacteristic| characteristics@.contains(characteristic),
    {
        let characteristics = vec![
            FitnessCharacteristic::ServiceChanged,
            FitnessCharacteristic::SerialNumberString,
            FitnessCharacteristic::FirmwareRevisionString,
            FitnessCharacteristic::HardwareRevisionString,
            FitnessCharacteristic::SoftwareRevisionString,
            FitnessCharacteristic::ManufacturerNameString,
            FitnessCharacteristic::SensorLocation,
            FitnessCharacteristic::CSCMeasurement,
            FitnessCharacteristic::CSCFeature,
            FitnessCharacteristic::CyclingPowerMeasurement,
            FitnessCharacteristic::CylcingPowerFeature,
            FitnessCharacteristic::CyclingPowerControlPoint,
            FitnessCharacteristic::FitnessMachineFeature,
            FitnessCharacteristic::IndoorBikeData,
            FitnessCharacteristic::TrainingStatus,
            FitnessCharacteristic::SupportedResistanceLevelRange,
            FitnessCharacteristic::SupportedPowerRange,
            FitnessCharacteristic::FitnessMachineControlPoint,
            FitnessCharacteristic::FitnessMachineStatus,
        ];
        assert forall|characteristic: FitnessCharacteristic|
            characteristics@.contains(characteristic) by {
            let i: int = match characteristic {
                FitnessCharacteristic::ServiceChanged => 0,
                FitnessCharacteristic::SerialNumberString => 1,
                FitnessCharacteristic::FirmwareRevisionString => 2,
                FitnessCharacteristic::HardwareRevisionString => 3,
                FitnessCharacteristic::SoftwareRevisionString => 4,
                FitnessCharacteristic::ManufacturerNameString => 5,
                FitnessCharacteristic::SensorLocation => 6,
                FitnessCharacteristic::CSCMeasurement => 7,
                FitnessCharacteristic::CSCFeature => 8,
                FitnessCharacteristic::CyclingPowerMeasurement => 9,
                FitnessCharacteristic::CylcingPowerFeature => 10,
                FitnessCharacteristic::CyclingPowerControlPoint => 11,
                FitnessCharacteristic::FitnessMachineFeature => 12,
                FitnessCharacteristic::IndoorBikeData => 13,
                FitnessCharacteristic::TrainingStatus => 14,
                FitnessCharacteristic::SupportedResistanceLevelRange => 15,
                FitnessCharacteristic::SupportedPowerRange => 16,
                FitnessCharacteristic::FitnessMachineControlPoint => 17,
                FitnessCharacteristic::FitnessMachineStatus => 18,
            };
            assert(characteristics@[i] == characteristic);
        }
        characteristics
    }

    /// The assigned number of the characteristic.
    pub fn code(self) -> (code: u16)
        ensures
            code == self.spec_code(),
    {
        match self {
            FitnessCharacteristic::ServiceChanged => 0x2A05,
            FitnessCharacteristic::SerialNumberString => 0x2A25,
            FitnessCharacteristic::FirmwareRevisionString => 0x2A26,
            FitnessCharacteristic::HardwareRevisionString => 0x2A27,
            FitnessCharacteristic::SoftwareRevisionString => 0x2A28,
            FitnessCharacteristic::ManufacturerNameString => 0x2A29,
            FitnessCharacteristic::SensorLocation => 0x2A5D,
            FitnessCharacteristic::CSCMeasurement => 0x2A5B,
            FitnessCharacteristic::CSCFeature => 0x2A5C,
            FitnessCharacteristic::CyclingPowerMeasurement => 0x2A63,
            FitnessCharacteristic::CylcingPowerFeature => 0x2A65,
            FitnessCharacteristic::CyclingPowerControlPoint => 0x2A66,
            FitnessCharacteristic::FitnessMachineFeature => 0x2ACC,
            FitnessCharacteristic::IndoorBikeData => 0x2AD2,
            FitnessCharacteristic::TrainingStatus => 0x2AD3,
            FitnessCharacteristic::SupportedResistanceLevelRange => 0x2AD6,
            FitnessCharacteristic::SupportedPowerRange => 0x2AD8,
            FitnessCharacteristic::FitnessMachineControlPoint => 0x2AD9,
            FitnessCharacteristic::FitnessMachineStatus => 0x2ADA,
        }
    }

    /// Looks the number up in the registry.
    pub fn from_code(code: u16) -> (found: Option<FitnessCharacteristic>)
        ensures
            found == Self::spec_from_code(code),
            found matches Some(characteristic) ==> characteristic.spec_code() == code,
            found is None ==> forall|characteristic: FitnessCharacteristic|
                characteristic.spec_code() != code,
    {
        let characteristics = Self::all();
        let mut i: usize = 0;
        while i < characteristics.len()
            invariant
                i <= characteristics.len(),
                forall|characteristic: FitnessCharacteristic|
                    characteristics@.contains(characteristic),
                forall|k: int| 0 <= k < i ==> characteristics@[k].spec_code() != code,
            decreases characteristics.len() - i,
        {
            let characteristic = characteristics[i];
            if characteristic.code() == code {
                proof {
                    lemma_characteristic_codes_unique(
                        characteristic,
                        choose|other: FitnessCharacteristic| other.spec_code() == code,
                    );
                }
                return Some(characteristic);
            }
            i += 1;
        }
        assert forall|characteristic: FitnessCharacteristic| characteristic.spec_code() != code by {
            assert(characteristics@.contains(characteristic));
            let k: int = choose|k: int|
                0 <= k < characteristics@.len() && characteristics@[k] == characteristic;
            assert(characteristics@[k].spec_code() != code);
        }
        None
    }

    /// The display name of the characteristic.
    pub fn name(&self) -> (name: &'static str)
        ensures
            name@ == self.spec_name(),
    {
        match self {
            FitnessCharacteristic::ServiceChanged => "Service Changed",
            FitnessCharacteristic::SerialNumberString => "Serial Number String",
            FitnessCharacteristic::FirmwareRevisionString => "Firmware Revision String",
            FitnessCharacteristic::HardwareRevisionString => "Hardware Revision String",
            FitnessCharacteristic::SoftwareRevisionString => "Software Revision String",
            FitnessCharacteristic::ManufacturerNameString => "Manufacturer Name String",
            FitnessCharacteristic::SensorLocation => "Sensor Location",
            FitnessCharacteristic::CSCMeasurement => "CSC Measurement",
            FitnessCharacteristic::CSCFeature => "CSC Feature",
            FitnessCharacteristic::CyclingPowerMeasurement => "Cycling Power Measurement",
            FitnessCharacteristic::CylcingPowerFeature => "Cycling Power Feature",
            FitnessCharacteristic::CyclingPowerControlPoint => "Cycling Power Control Point",
            FitnessCharacteristic::FitnessMachineFeature => "Fitness Machine Feature",
            FitnessCharacteristic::IndoorBikeData => "Indoor Bike Data",
            FitnessCharacteristic::TrainingStatus => "Training Status",
            FitnessCharacteristic::SupportedResistanceLevelRange => "Supported Resistance Level Range",
            FitnessCharacteristic::SupportedPowerRange => "Supported Power Range",
            FitnessCharacteristic::FitnessMachineControlPoint => "Fitness Machine Control Point",
            FitnessCharacteristic::FitnessMachineStatus => "Fitness Machine Status",
        }
    }

    /// The UUID of the characteristic, which resolves to it again.
    pub fn uuid(self) -> (uuid: Uuid)
        ensures
            uuid == self.spec_uuid(),
            Self::resolve(uuid) == Some(self),
    {
        proof {
            lemma_characteristic_round_trip(self);
        }
        uuid_from_u16(self.code())
    }

    /// Resolves a UUID against the registry.
    ///
    /// A UUID that is not the base UUID with a 16-bit identifier filled in is turned down as
    /// no BLE UUID; one whose identifier the registry does not hold, as matching nothing.
    pub fn from_uuid(uuid: Uuid) -> (resolved: Result<FitnessCharacteristic, &'static str>)
        ensures
            match resolved {
                Ok(characteristic) => Self::resolve(uuid) == Some(characteristic),
                Err(message) => Self::resolve(uuid) is None && message@ == Self::rejection(uuid),
            },
    {
        match uuid.to_ble_u16() {
            Some(id) => match FitnessCharacteristic::from_code(id) {
                Some(characteristic) => Ok(characteristic),
                None => Err("No matching Service"),
            },
            None => Err("uuid is not a valid BleUuid"),
        }
    }
}

/// No two characteristics carry the same number.
pub proof fn lemma_characteristic_codes_unique(a: FitnessCharacteristic, b: FitnessCharacteristic)
    requires
        a.spec_code() == b.spec_code(),
    ensures
        a == b,
{
}

/// No two characteristics are announced under the same UUID.
pub proof fn lemma_characteristic_uuids_unique(a: FitnessCharacteristic, b: FitnessCharacteristic)
    requires
        a.spec_uuid() == b.spec_uuid(),
    ensures
        a == b,
{
}

/// Every characteristic is found again under its own number and under its own UUID.
pub proof fn lemma_characteristic_round_trip(characteristic: FitnessCharacteristic)
    ensures
        FitnessCharacteristic::spec_from_code(characteristic.spec_code()) == Some(characteristic),
        characteristic.spec_uuid().short_code() == Some(characteristic.spec_code()),
        FitnessCharacteristic::resolve(characteristic.spec_uuid()) == Some(characteristic),
{
    let found = choose|other: FitnessCharacteristic| other.spec_code() == characteristic.spec_code();
    lemma_characteristic_codes_unique(found, characteristic);
}

/// A UUID resolves to a characteristic exactly when it is that characteristic's UUID.
pub proof fn lemma_characteristic_resolves_own_uuid_only(uuid: Uuid, characteristic: FitnessCharacteristic)
    ensures
        FitnessCharacteristic::resolve(uuid) == Some(characteristic) <==> uuid == characteristic.spec_uuid(),
{
    lemma_characteristic_round_trip(characteristic);
    if FitnessCharacteristic::resolve(uuid) == Some(characteristic) {
        let code: u16 = uuid.short_code().unwrap();
        assert(characteristic.spec_code() == code);
    }
}

/// Services and characteristics are numbered apart: no number, and so no UUID, names one of
/// each.
pub proof fn lemma_service_and_characteristic_codes_disjoint(
    service: FitnessService,
    characteristic: FitnessCharacteristic,
)
    ensures
        service.spec_code() != characteristic.spec_code(),
        service.spec_uuid() != characteristic.spec_uuid(),
{
}

} // verus!
