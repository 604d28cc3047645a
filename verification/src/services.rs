//! The GATT services that the tool knows by name.

use crate::bleuuid::uuid_from_u16;
use crate::bleuuid::Uuid;
use vstd::prelude::*;

verus! {

/// A GATT service with an assigned 16-bit number.
#[derive(Clone, Copy, Debug, PartialEq, Eq, Hash, Structural)]
pub enum FitnessService {
    GenericAttribute,
    DeviceInformation,
    FitnessMachine,
    RunningSpeedCadence,
    CyclingSpeedCadence,
    CyclingPower,
}

impl FitnessService {
    /// The assigned number of the service.
    pub open spec fn spec_code(self) -> u16 {
        match self {
            FitnessService::GenericAttribute => 0x1801,
            FitnessService::DeviceInformation => 0x180A,
            FitnessService::FitnessMachine => 0x1826,
            FitnessService::RunningSpeedCadence => 0x1814,
            FitnessService::CyclingSpeedCadence => 0x1816,
            FitnessService::CyclingPower => 0x1818,
        }
    }

    /// The display name of the service.
    pub open spec fn spec_name(self) -> Seq<char> {
        match self {
            FitnessService::GenericAttribute => "Generic Attribute"@,
            FitnessService::DeviceInformation => "Device Information"@,
            FitnessService::FitnessMachine => "Fitness Machine"@,
            FitnessService::RunningSpeedCadence => "Running Speed and Cadence"@,
            FitnessService::CyclingSpeedCadence => "Cycling Speed and Cadence"@,
            FitnessService::CyclingPower => "Cycling Power"@,
        }
    }

    /// The service that carries the number `code`, if one does.
    pub open spec fn spec_from_code(code: u16) -> Option<FitnessService> {
        if exists|service: FitnessService| service.spec_code() == code {
            Some(choose|service: FitnessService| service.spec_code() == code)
        } else {
            None
        }
    }

    /// The UUID under which a device announces the service.
    pub open spec fn spec_uuid(self) -> Uuid {
        Uuid::short(self.spec_code())
    }

    /// The service that `uuid` names: the one whose number the UUID stands for.
    pub open spec fn resolve(uuid: Uuid) -> Option<FitnessService> {
        match uuid.short_code() {
            Some(code) => Self::spec_from_code(code),
            None => None,
        }
    }

    /// The message with which `from_uuid` turns down a UUID that names no service.
    pub open spec fn rejection(uuid: Uuid) -> Seq<char> {
        if uuid.short_code() is Some {
            "No matching Service"@
        } else {
            "uuid is not a valid BleUuid"@
        }
    }

    /// Every service, each once.
    pub fn all() -> (services: Vec<FitnessService>)
        ensures
            services@.no_duplicates(),
            forall|service: FitnessService| services@.contains(service),
    {
        let services = vec![
            FitnessService::GenericAttribute,
            FitnessService::DeviceInformation,
            FitnessService::FitnessMachine,
            FitnessService::RunningSpeedCadence,
            FitnessService::CyclingSpeedCadence,
            FitnessService::CyclingPower,
        ];
        assert forall|service: FitnessService| services@.contains(service) by {
            let i: int = match service {
                FitnessService::GenericAttribute => 0,
                FitnessService::DeviceInformation => 1,
                FitnessService::FitnessMachine => 2,
                FitnessService::RunningSpeedCadence => 3,
                FitnessService::CyclingSpeedCadence => 4,
                FitnessService::CyclingPower => 5,
            };
            assert(services@[i] == service);
        }
        services
    }

    /// The assigned number of the service.
    pub fn code(self) -> (code: u16)
        ensures
            code == self.spec_code(),
    {
        match self {
            FitnessService::GenericAttribute => 0x1801,
            FitnessService::DeviceInformation => 0x180A,
            FitnessService::FitnessMachine => 0x1826,
            FitnessService::RunningSpeedCadence => 0x1814,
            FitnessService::CyclingSpeedCadence => 0x1816,
            FitnessService::CyclingPower => 0x1818,
        }
    }

    /// Looks the number up in the registry.
    pub fn from_code(code: u16) -> (found: Option<FitnessService>)
        ensures
            found == Self::spec_from_code(code),
            found matches Some(service) ==> service.spec_code() == code,
            found is None ==> forall|service: FitnessService| service.spec_code() != code,
    {
        let services = Self::all();
        let mut i: usize = 0;
        while i < services.len()
            invariant
                i <= services.len(),
                forall|service: FitnessService| services@.contains(service),
                forall|k: int| 0 <= k < i ==> services@[k].spec_code() != code,
            decreases services.len() - i,
        {
            let service = services[i];
            if service.code() == code {
                proof {
                    lemma_service_codes_unique(
                        service,
                        choose|other: FitnessService| other.spec_code() == code,
                    );
                }
                return Some(service);
            }
            i += 1;
        }
        assert forall|service: FitnessService| service.spec_code() != code by {
            assert(services@.contains(service));
            let k: int = choose|k: int| 0 <= k < services@.len() && services@[k] == service;
            assert(services@[k].spec_code() != code);
        }
        None
    }

    /// The display name of the service.
    pub fn name(&self) -> (name: &'static str)
        ensures
            name@ == self.spec_name(),
    {
        match self {
            FitnessService::GenericAttribute => "Generic Attribute",
            FitnessService::DeviceInformation => "Device Information",
            FitnessService::FitnessMachine => "Fitness Machine",
            FitnessService::RunningSpeedCadence => "Running Speed and Cadence",
            FitnessService::CyclingSpeedCadence => "Cycling Speed and Cadence",
            FitnessService::CyclingPower => "Cycling Power",
        }
    }

    /// The UUID of the service, which resolves to it again.
    pub fn uuid(self) -> (uuid: Uuid)
        ensures
            uuid == self.spec_uuid(),
            Self::resolve(uuid) == Some(self),
    {
        proof {
            lemma_service_round_trip(self);
        }
        uuid_from_u16(self.code())
    }

    /// Resolves a UUID against the registry.
    ///
    /// A UUID that is not the base UUID with a 16-bit identifier filled in is turned down as
    /// no BLE UUID; one whose identifier the registry does not hold, as matching no service.
    pub fn from_uuid(uuid: Uuid) -> (resolved: Result<FitnessService, &'static str>)
        ensures
            match resolved {
                Ok(service) => Self::resolve(uuid) == Some(service),
                Err(message) => Self::resolve(uuid) is None && message@ == Self::rejection(uuid),
            },
    {
        match uuid.to_ble_u16() {
            Some(id) => match FitnessService::from_code(id) {
                Some(service) => Ok(service),
                None => Err("No matching Service"),
            },
            None => Err("uuid is not a valid BleUuid"),
        }
    }
}

/// No two services carry the same number.
pub proof fn lemma_service_codes_unique(a: FitnessService, b: FitnessService)
    requires
        a.spec_code() == b.spec_code(),
    ensures
        a == b,
{
}

/// No two services are announced under the same UUID.
pub proof fn lemma_service_uuids_unique(a: FitnessService, b: FitnessService)
    requires
        a.spec_uuid() == b.spec_uuid(),
    ensures
        a == b,
{
}

/// Every service is found again under its own number and under its own UUID.
pub proof fn lemma_service_round_trip(service: FitnessService)
    ensures
        FitnessService::spec_from_code(service.spec_code()) == Some(service),
        service.spec_uuid().short_code() == Some(service.spec_code()),
        FitnessService::resolve(service.spec_uuid()) == Some(service),
{
    let found = choose|other: FitnessService| other.spec_code() == service.spec_code();
    lemma_service_codes_unique(found, service);
}

/// A UUID resolves to a service exactly when it is that service's UUID.
pub proof fn lemma_service_resolves_own_uuid_only(uuid: Uuid, service: FitnessService)
    ensures
        FitnessService::resolve(uuid) == Some(service) <==> uuid == service.spec_uuid(),
{
    lemma_service_round_trip(service);
    if FitnessService::resolve(uuid) == Some(service) {
        let code: u16 = uuid.short_code().unwrap();
        assert(service.spec_code() == code);
    }
}

} // verus!
