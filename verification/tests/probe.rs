use arachno_pilot::config::LegConfig;
use arachno_pilot::probe::{
    detect_legs_port_index, expected_leg_servo_ids, format_servo_ids, serial_bus_label, servo_id_probe_from_replies,
    DeviceProbe, SerialBusProbe, ServoIdProbe,
};

fn leg(name: &str, coxa: u8, femur: u8, tibia: u8) -> LegConfig {
    LegConfig {
        name: name.to_owned(),
        coxa_servo_id: coxa,
        femur_servo_id: femur,
        tibia_servo_id: tibia,
        coxa_forward_sign: 1,
        femur_lift_sign: 1,
        tibia_lift_sign: 1,
        coxa_zero_reference_ticks: 2048,
        femur_zero_reference_ticks: 2048,
        tibia_zero_reference_ticks: 2048,
        tripod_a: true,
    }
}

fn serial_bus_probe(responding_ids: Vec<u8>, missing_ids: Vec<u8>) -> SerialBusProbe {
    SerialBusProbe {
        device: DeviceProbe {
            label: "test".to_owned(),
            configured_path: "/dev/null".to_owned(),
            resolved_path: None,
            kind: "char-device".to_owned(),
            mode: 0o660,
            owner_uid: 0,
            owner_gid: 0,
            open_error: None,
            hint: None,
        },
        leg_servo_probe: ServoIdProbe::Complete {
            expected_ids: responding_ids.iter().chain(missing_ids.iter()).copied().collect(),
            responding_ids,
            missing_ids,
        },
    }
}

#[test]
fn detect_legs_port_prefers_unique_highest_match_count() {
    let probes = vec![
        serial_bus_probe(vec![11, 12], vec![13]),
        serial_bus_probe(vec![11, 12, 13], Vec::new()),
        serial_bus_probe(Vec::new(), vec![11, 12, 13]),
    ];

    assert_eq!(detect_legs_port_index(&probes), Some(1));
}

#[test]
fn detect_legs_port_is_inconclusive_on_tie() {
    let probes = vec![serial_bus_probe(vec![11, 12], vec![13]), serial_bus_probe(vec![21, 22], vec![23])];

    assert_eq!(detect_legs_port_index(&probes), None);
}

#[test]
fn detect_legs_port_needs_some_reply() {
    let probes = vec![serial_bus_probe(Vec::new(), vec![11]), serial_bus_probe(Vec::new(), vec![11])];
    assert_eq!(detect_legs_port_index(&probes), None);
    assert_eq!(detect_legs_port_index(&[]), None);
    let failed = SerialBusProbe {
        leg_servo_probe: ServoIdProbe::Failed { expected_ids: vec![11], error: "timeout".to_owned() },
        ..serial_bus_probe(Vec::new(), Vec::new())
    };
    assert_eq!(detect_legs_port_index(&[failed, serial_bus_probe(vec![11], Vec::new())]), Some(1));
}

#[test]
fn expected_leg_servo_ids_are_sorted_and_unique() {
    let legs = vec![leg("front_left", 21, 22, 23), leg("front_right", 21, 12, 13)];

    assert_eq!(expected_leg_servo_ids(&legs), vec![12, 13, 21, 22, 23]);
}

#[test]
fn servo_ids_are_listed_with_commas() {
    assert_eq!(format_servo_ids(&[]), "<none>");
    assert_eq!(format_servo_ids(&[7]), "7");
    assert_eq!(format_servo_ids(&[11, 12, 130]), "11, 12, 130");
}

#[test]
fn serial_bus_labels_name_the_legs_port_first() {
    assert_eq!(serial_bus_label(0), "servo bridge (configured legs port)");
    assert_eq!(serial_bus_label(2), "servo bridge (configured auxiliary port #2)");
}

#[test]
fn servo_id_probe_splits_replies() {
    match servo_id_probe_from_replies(&[11, 12, 13], &[true, false, true]) {
        ServoIdProbe::Complete { expected_ids, responding_ids, missing_ids } => {
            assert_eq!(expected_ids, vec![11, 12, 13]);
            assert_eq!(responding_ids, vec![11, 13]);
            assert_eq!(missing_ids, vec![12]);
        }
        ServoIdProbe::Failed { .. } => panic!("a complete probe was expected"),
    }
}
