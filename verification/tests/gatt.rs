use rusty_bicycle::bleuuid::uuid_from_u16;
use rusty_bicycle::bleuuid::Uuid;
use rusty_bicycle::characteristics::FitnessCharacteristic;
use rusty_bicycle::gatt::Characteristic;
use rusty_bicycle::gatt::CharacteristicEntry;
use rusty_bicycle::gatt::CharacteristicLabel;
use rusty_bicycle::gatt::GattTreeSnapshot;
use rusty_bicycle::gatt::Service;
use rusty_bicycle::gatt::ServiceEntry;
use rusty_bicycle::gatt::ServiceLabel;
use rusty_bicycle::services::FitnessService;

fn characteristic(code: u16, properties: &str) -> Characteristic {
    Characteristic { uuid: uuid_from_u16(code), properties: String::from(properties) }
}

#[test]
fn known_service_uuid_resolves_to_the_service() {
    assert_eq!(
        ServiceLabel::of(uuid_from_u16(0x1826)),
        ServiceLabel::Known(FitnessService::FitnessMachine)
    );
    assert_eq!(
        ServiceLabel::of(uuid_from_u16(0x1818)),
        ServiceLabel::Known(FitnessService::CyclingPower)
    );
}

#[test]
fn unknown_service_uuid_is_kept() {
    let uuid = uuid_from_u16(0xFFFF);
    assert_eq!(ServiceLabel::of(uuid), ServiceLabel::Unknown(uuid));
    let long = Uuid::from_u128(0xa1a2a3a4_b1b2_c1c2_d1d2_d3d4d5d6d7d8);
    assert_eq!(ServiceLabel::of(long), ServiceLabel::Unknown(long));
    let of_a_characteristic = uuid_from_u16(0x2AD2);
    assert_eq!(ServiceLabel::of(of_a_characteristic), ServiceLabel::Unknown(of_a_characteristic));
}

#[test]
fn service_headings() {
    assert_eq!(
        ServiceLabel::Known(FitnessService::FitnessMachine).to_heading(),
        "Fitness Machine Service"
    );
    assert_eq!(
        ServiceLabel::Known(FitnessService::CyclingPower).to_heading(),
        "Cycling Power Service"
    );
    assert_eq!(
        ServiceLabel::of(uuid_from_u16(0xFFFF)).to_heading(),
        "Unknown Service: 0000ffff-0000-1000-8000-00805f9b34fb"
    );
}

#[test]
fn characteristic_labels_and_items() {
    assert_eq!(
        CharacteristicLabel::of(uuid_from_u16(0x2AD2)),
        CharacteristicLabel::Known(FitnessCharacteristic::IndoorBikeData)
    );
    assert_eq!(
        CharacteristicLabel::of(uuid_from_u16(0x2AD2)).to_item(),
        "  - Indoor Bike Data"
    );
    let unknown = uuid_from_u16(0x2A00);
    assert_eq!(CharacteristicLabel::of(unknown), CharacteristicLabel::Unknown(unknown));
    assert_eq!(
        CharacteristicLabel::of(unknown).to_item(),
        "  - Unknown Characteristic: 00002a00-0000-1000-8000-00805f9b34fb"
    );
    let of_a_service = uuid_from_u16(0x1826);
    assert_eq!(CharacteristicLabel::of(of_a_service), CharacteristicLabel::Unknown(of_a_service));
}

#[test]
fn snapshot_keeps_order_and_properties() {
    let tree = vec![
        Service {
            uuid: uuid_from_u16(0x1826),
            characteristics: vec![
                characteristic(0x2AD9, "WRITE | INDICATE"),
                characteristic(0x2AD2, "NOTIFY"),
            ],
        },
        Service { uuid: uuid_from_u16(0x1234), characteristics: vec![] },
    ];
    let snapshot = GattTreeSnapshot::resolve(&tree);
    assert_eq!(
        snapshot,
        GattTreeSnapshot {
            services: vec![
                ServiceEntry {
                    label: ServiceLabel::Known(FitnessService::FitnessMachine),
                    characteristics: vec![
                        CharacteristicEntry {
                            label: CharacteristicLabel::Known(
                                FitnessCharacteristic::FitnessMachineControlPoint
                            ),
                            properties: String::from("WRITE | INDICATE"),
                        },
                        CharacteristicEntry {
                            label: CharacteristicLabel::Known(
                                FitnessCharacteristic::IndoorBikeData
                            ),
                            properties: String::from("NOTIFY"),
                        },
                    ],
                },
                ServiceEntry {
                    label: ServiceLabel::Unknown(uuid_from_u16(0x1234)),
                    characteristics: vec![],
                },
            ],
        }
    );
}

#[test]
fn report_of_a_fitness_machine() {
    let tree = vec![Service {
        uuid: uuid_from_u16(0x1826),
        characteristics: vec![
            characteristic(0x2AD2, "NOTIFY"),
            characteristic(0x2AD9, "WRITE | INDICATE"),
        ],
    }];
    assert_eq!(
        GattTreeSnapshot::resolve(&tree).render(),
        vec![
            "",
            "Fitness Machine Service",
            "  - Indoor Bike Data",
            "    [NOTIFY]",
            "  - Fitness Machine Control Point",
            "    [WRITE | INDICATE]",
        ]
    );
}

#[test]
fn report_shows_unknown_uuids_as_they_are() {
    let tree = vec![
        Service {
            uuid: uuid_from_u16(0xFFFF),
            characteristics: vec![Characteristic {
                uuid: Uuid::from_u128(0xa1a2a3a4_b1b2_c1c2_d1d2_d3d4d5d6d7d8),
                properties: String::from("READ"),
            }],
        },
        Service {
            uuid: uuid_from_u16(0x180A),
            characteristics: vec![characteristic(0x2A29, "READ"), characteristic(0x2A50, "")],
        },
    ];
    assert_eq!(
        GattTreeSnapshot::resolve(&tree).render(),
        vec![
            "",
            "Unknown Service: 0000ffff-0000-1000-8000-00805f9b34fb",
            "  - Unknown Characteristic: a1a2a3a4-b1b2-c1c2-d1d2-d3d4d5d6d7d8",
            "    [READ]",
            "",
            "Device Information Service",
            "  - Manufacturer Name String",
            "    [READ]",
            "  - Unknown Characteristic: 00002a50-0000-1000-8000-00805f9b34fb",
            "    []",
        ]
    );
}

#[test]
fn report_of_an_empty_tree_is_empty() {
    let snapshot = GattTreeSnapshot::resolve(&Vec::new());
    assert_eq!(snapshot, GattTreeSnapshot { services: vec![] });
    assert_eq!(snapshot.render(), Vec::<String>::new());
}

#[test]
fn lines_are_added_after_those_that_are_there() {
    let mut lines = vec![String::from("first")];
    let entry = CharacteristicEntry::resolve(&characteristic(0x2ACC, "READ"));
    entry.render_into(&mut lines);
    assert_eq!(lines, vec!["first", "  - Fitness Machine Feature", "    [READ]"]);
    let service = ServiceEntry::resolve(&Service {
        uuid: uuid_from_u16(0x1816),
        characteristics: vec![characteristic(0x2A5B, "NOTIFY")],
    });
    service.render_into(&mut lines);
    assert_eq!(
        lines,
        vec![
            "first",
            "  - Fitness Machine Feature",
            "    [READ]",
            "",
            "Cycling Speed and Cadence Service",
            "  - CSC Measurement",
            "    [NOTIFY]",
        ]
    );
}
