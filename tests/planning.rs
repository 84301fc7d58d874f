use chip_tester::chip::{get_chip_type, get_soft_type, same_text, ChipTypes, PingTopology, SoftTypes};
use chip_tester::cli::{check_options, OptionsError, RunOptions};
use chip_tester::flashing::{
    extract_for_atmelice, flash_command, usb_port_from_matches, get_avr_device, get_programmer_device, get_proper_port,
    FlashError,
};
use chip_tester::registry::{chip_registration, ChipRegistration};
use chip_tester::report::{lookup, position_of, report_layout};
use chip_tester::session::{parse_id, plan_test, PlanError, Probe, TestOutcome, RSSI_ROUNDS};

fn s(t: &str) -> String {
    t.to_string()
}

fn entries(o: TestOutcome) -> Vec<(String, String)> {
    o.entries()
}

#[test]
fn unflashed_run_records_only_flashed_false() {
    for role in [SoftTypes::Master, SoftTypes::Relay1, SoftTypes::Relay1_5] {
        assert_eq!(plan_test(role, Some(3), Some("10"), false, true), Ok(None));
        assert_eq!(plan_test(role, None, None, false, false), Ok(None));
    }
    let outcome = TestOutcome::new(false, Some(-42));
    assert_eq!(outcome, TestOutcome::Unflashed);
    assert_eq!(entries(outcome), vec![(s("flashed"), s("false"))]);
}

#[test]
fn silent_master_records_n_a() {
    let outcome = TestOutcome::new(true, None);
    assert_eq!(entries(outcome), vec![(s("flashed"), s("true")), (s("rssi"), s("n/a"))]);
}

#[test]
fn measured_run_records_average() {
    let outcome = TestOutcome::new(true, Some(-42));
    assert_eq!(entries(outcome), vec![(s("flashed"), s("true")), (s("rssi"), s("-42"))]);
}

#[test]
fn master_plan_pings_target_directly() {
    assert_eq!(
        plan_test(SoftTypes::Master, None, Some("10"), true, false),
        Ok(Some(Probe { topology: PingTopology::Direct, target: 10, rounds: RSSI_ROUNDS }))
    );
    assert_eq!(RSSI_ROUNDS, 4);
    let probe = plan_test(SoftTypes::Master, None, Some("10"), true, false).unwrap().unwrap();
    let sampler = probe.sampler();
    assert_eq!(sampler.rounds_started(), 0);
    assert!(!sampler.is_done());
}

#[test]
fn relay_plan_uses_companion_against_own_id() {
    assert_eq!(
        plan_test(SoftTypes::Relay1_5, Some(12), None, true, true),
        Ok(Some(Probe { topology: PingTopology::ViaCompanion, target: 12, rounds: RSSI_ROUNDS }))
    );
}

#[test]
fn plan_errors() {
    assert_eq!(plan_test(SoftTypes::Master, None, None, true, false), Err(PlanError::MissingPingTarget));
    assert_eq!(
        plan_test(SoftTypes::Master, None, Some("ten"), true, false),
        Err(PlanError::InvalidPingTarget)
    );
    assert_eq!(plan_test(SoftTypes::Relay1, None, None, true, true), Err(PlanError::MissingOwnId));
    assert_eq!(
        plan_test(SoftTypes::Relay1, Some(3), None, true, false),
        Err(PlanError::MissingCompanionPort)
    );
}

#[test]
fn identifiers_parse_as_i32() {
    assert_eq!(parse_id("42"), Some(42));
    assert_eq!(parse_id("-7"), Some(-7));
    assert_eq!(parse_id("4x"), None);
}

#[test]
fn role_capabilities() {
    assert!(SoftTypes::Master.needs_handshake());
    assert!(!SoftTypes::Relay1.needs_handshake());
    assert_eq!(SoftTypes::Master.ping_topology(), PingTopology::Direct);
    assert_eq!(SoftTypes::Relay1_5.ping_topology(), PingTopology::ViaCompanion);
    assert_eq!(SoftTypes::Relay1_5.name(), "Relay1_5");
    assert_eq!(ChipTypes::BlueNonShiny.name(), "BlueNonShiny");
}

#[test]
fn command_line_kinds() {
    assert_eq!(get_chip_type("green"), Ok(ChipTypes::Green));
    assert_eq!(get_chip_type("blue-shiny"), Ok(ChipTypes::BlueShiny));
    assert_eq!(get_chip_type("blue-non-shiny"), Ok(ChipTypes::BlueNonShiny));
    assert_eq!(get_chip_type("red"), Err(s("Unsupported chip type")));
    assert_eq!(get_soft_type("rel-mk1"), Ok(SoftTypes::Relay1));
    assert_eq!(get_soft_type("rel-mk1.5"), Ok(SoftTypes::Relay1_5));
    assert_eq!(get_soft_type("master"), Ok(SoftTypes::Master));
    assert_eq!(get_soft_type("slave"), Err(s("Unsupported software")));
    assert!(same_text("abc", "abc"));
    assert!(!same_text("abc", "abd"));
}

fn options(chip: ChipTypes, soft: SoftTypes) -> RunOptions {
    RunOptions {
        chip,
        soft,
        has_port_to_simulate: false,
        has_id_to_ping: true,
        has_id_to_flash: false,
        has_factory_number: true,
    }
}

#[test]
fn option_rules() {
    assert_eq!(check_options(&options(ChipTypes::Green, SoftTypes::Master)), Ok(()));
    let mut o = options(ChipTypes::BlueShiny, SoftTypes::Master);
    o.has_port_to_simulate = true;
    assert_eq!(check_options(&o), Err(OptionsError::SimulatedPortForMaster));
    let mut o = options(ChipTypes::BlueShiny, SoftTypes::Master);
    o.has_id_to_ping = false;
    assert_eq!(check_options(&o), Err(OptionsError::MissingPingTarget));
    let mut o = options(ChipTypes::BlueShiny, SoftTypes::Master);
    o.has_id_to_flash = true;
    assert_eq!(check_options(&o), Err(OptionsError::IdForMaster));
    let mut o = options(ChipTypes::Green, SoftTypes::Relay1);
    o.has_factory_number = false;
    assert_eq!(check_options(&o), Err(OptionsError::MissingFactoryNumber));
    assert_eq!(OptionsError::MissingPingTarget.message(), "Master needs an ID to ping!");
}

#[test]
fn programmer_devices() {
    assert_eq!(get_avr_device(&ChipTypes::Green), "x16e5");
    assert_eq!(get_avr_device(&ChipTypes::BlueShiny), "m328p");
    assert_eq!(get_programmer_device(&ChipTypes::Green), "atmelice_pdi");
    assert_eq!(get_programmer_device(&ChipTypes::BlueNonShiny), "arduino");
}

#[test]
fn atmelice_port_from_first_match() {
    assert_eq!(extract_for_atmelice("/dev/ttyd"), Some(s("usbd")));
    assert_eq!(extract_for_atmelice("ddx"), Some(s("usbdd")));
    assert_eq!(extract_for_atmelice("/tty/USB0"), None);
    assert_eq!(get_proper_port(&ChipTypes::Green, "/dev/tty"), Some(s("usbd")));
    assert_eq!(get_proper_port(&ChipTypes::BlueShiny, "/dev/ttyUSB0"), Some(s("/dev/ttyUSB0")));
}

#[test]
fn master_flash_command() {
    let args = flash_command(&ChipTypes::BlueShiny, &SoftTypes::Master, "/dev/ttyUSB0", None).unwrap();
    let expected: Vec<String> = [
        "avrdude", "-p", "m328p", "-P", "/dev/ttyUSB0", "-c", "arduino", "-b", "57600", "-U",
        "flash:w:hex/blue/shiny/master.m328p.hex",
    ]
    .iter()
    .map(|a| s(a))
    .collect();
    assert_eq!(args, expected);
}

#[test]
fn relay_flash_command() {
    let args = flash_command(&ChipTypes::Green, &SoftTypes::Relay1_5, "/dev/ttyd0", Some("12")).unwrap();
    let expected: Vec<String> = [
        "avrdude", "-p", "x16e5", "-c", "atmelice_pdi", "-U",
        "flash:w:hex/green/relay_mk1_5.x16e5.hex", "-U", "eeprom:w:hex/eeproms/eeprom_12.hex",
        "-P", "usbd",
    ]
    .iter()
    .map(|a| s(a))
    .collect();
    assert_eq!(args, expected);
}

#[test]
fn flash_command_errors() {
    assert_eq!(
        flash_command(&ChipTypes::BlueNonShiny, &SoftTypes::Relay1, "/dev/ttyUSB0", None),
        Err(FlashError::MissingId)
    );
    assert_eq!(
        flash_command(&ChipTypes::Green, &SoftTypes::Master, "/tty/USB0", None),
        Err(FlashError::NoProgrammerPort)
    );
}

#[test]
fn chip_registration_reuses_single_match() {
    assert_eq!(chip_registration(&vec![7]), ChipRegistration::Update(7));
    assert_eq!(chip_registration(&vec![]), ChipRegistration::Insert);
    assert_eq!(chip_registration(&vec![1, 2]), ChipRegistration::Insert);
}

#[test]
fn report_lookups() {
    let list = vec![s("a"), s("rssi"), s("rssi")];
    assert_eq!(position_of(&list, "rssi"), Some(1));
    assert_eq!(position_of(&list, "b"), None);
    let record = vec![(s("flashed"), s("true")), (s("rssi"), s("-40"))];
    assert_eq!(lookup(&record, &s("rssi")), Some(s("-40")));
    assert_eq!(lookup(&record, &s("x")), None);
}

#[test]
fn report_with_rssi_column() {
    let headers = vec![s("flashed"), s("rssi")];
    let records = vec![
        vec![(s("flashed"), s("true")), (s("rssi"), s("-40"))],
        vec![(s("chip_number"), s("N1")), (s("flashed"), s("false"))],
    ];
    let rows = report_layout(&headers, &records);
    let row = |cells: &[&str]| cells.iter().map(|c| s(c)).collect::<Vec<String>>();
    assert_eq!(rows.len(), 1 + 2 + 3 + 1);
    assert_eq!(
        rows[0],
        row(&[
            "chip_number", "software", "chip_type", "flashed_id", "flashed_time", "flashed", "rssi",
            "db_vs_best", "PASS",
        ])
    );
    assert_eq!(
        rows[1],
        row(&[
            "", "", "", "", "", "true", "-40", "=ROUNDDOWN(G2-$B$7, -1)",
            "=IF(AND(C2<>\"\",,H2>=-10,), \"PASS\", \"NO PASS\")",
        ])
    );
    assert_eq!(
        rows[2],
        row(&[
            "N1", "", "", "", "", "false", "", "=ROUNDDOWN(G3-$B$7, -1)",
            "=IF(AND(C3<>\"\",,H3>=-10,), \"PASS\", \"NO PASS\")",
        ])
    );
    assert!(rows[3].is_empty() && rows[4].is_empty() && rows[5].is_empty());
    assert_eq!(
        rows[6],
        row(&["Top 5dB average:", "=AVERAGEIF(G2:G3,CONCAT(\">\",MAX(G2:G3)-5))"])
    );
}

#[test]
fn report_without_rssi_column() {
    let headers = vec![s("flashed")];
    let records = vec![vec![(s("flashed"), s("true"))]];
    let rows = report_layout(&headers, &records);
    assert_eq!(rows.len(), 1 + 1 + 3);
    assert_eq!(rows[1], vec![s(""), s(""), s(""), s(""), s(""), s("true")]);
    assert!(rows[4].is_empty());
}

#[test]
fn usb_port_from_first_match() {
    assert_eq!(usb_port_from_matches(&vec![b"ddd".to_vec(), b"d".to_vec()]), Some(s("usbddd")));
    assert_eq!(usb_port_from_matches(&vec![]), None);
    assert_eq!(usb_port_from_matches(&vec![vec![0xff]]), None);
}
