use tiny4linux::command02;
use tiny4linux::AIMode;
use tiny4linux::AIModeCommand;
use tiny4linux::Command02;
use tiny4linux::ExposureMode;
use tiny4linux::ExposureModeCommand;
use tiny4linux::ExposureModeTypeCommand;
use tiny4linux::GotoPresetPositionCommand;
use tiny4linux::HdrModeCommand;
use tiny4linux::SleepCommand;
use tiny4linux::SleepMode;
use tiny4linux::T4lError;
use tiny4linux::TrackingSpeed;
use tiny4linux::TrackingSpeedCommand;

#[test]
fn full_builder() {
    let command = command02(
        [0x01, 0x02, 0x03, 0x04, 0x05, 0x06],
        [0x10, 0x11],
        [0x20, 0x21],
        [0x30, 0x31, 0x32, 0x33, 0x34, 0x35],
        Some([
            0x40, 0x41, 0x42, 0x43, 0x44, 0x45, 0x46, 0x47, 0x48, 0x49, 0x4a, 0x4b, 0x4c, 0x4d,
            0x4e, 0x4f,
        ]),
    );

    assert_eq!(
        command[0..2],
        [0xaa, 0x25],
        "Command should start with frame id"
    );
    assert_eq!(command[2..4], [0x10, 0x11], "Sequence number should be set");
    assert_eq!(command[4..6], [0x0c, 0x00], "Segment size should be fix");
    assert_eq!(command[6..8], [0x20, 0x21], "Checksum should be set");
    assert_eq!(
        command[8..14],
        [0x01, 0x02, 0x03, 0x04, 0x05, 0x06],
        "Function group should be set"
    );
    assert_eq!(
        command[14..20],
        [0x30, 0x31, 0x32, 0x33, 0x34, 0x35],
        "Command should be set"
    );
    assert_eq!(
        command[20..36],
        [
            0x40, 0x41, 0x42, 0x43, 0x44, 0x45, 0x46, 0x47, 0x48, 0x49, 0x4a, 0x4b, 0x4c, 0x4d,
            0x4e, 0x4f
        ],
        "Appendix should be set"
    );
}

#[test]
fn minimal_builder() {
    let command = command02(
        [0xa0, 0xa1, 0xa2, 0xa3, 0xa4, 0xa5],
        [0xb0, 0xb1],
        [0xc0, 0xc1],
        [0xd0, 0xd1, 0xd2, 0xd3, 0xd4, 0xd5],
        None,
    );

    assert_eq!(
        command[0..2],
        [0xaa, 0x25],
        "Command should start with frame id"
    );
    assert_eq!(command[2..4], [0xb0, 0xb1], "Sequence number should be set");
    assert_eq!(command[4..6], [0x0c, 0x00], "Segment size should be fix");
    assert_eq!(command[6..8], [0xc0, 0xc1], "Checksum should be set");
    assert_eq!(
        command[8..14],
        [0xa0, 0xa1, 0xa2, 0xa3, 0xa4, 0xa5],
        "Function group should be set"
    );
    assert_eq!(
        command[14..20],
        [0xd0, 0xd1, 0xd2, 0xd3, 0xd4, 0xd5],
        "Command should be set"
    );
    assert_eq!(
        command[20..36],
        [
            0x00, 0x00, 0x00, 0x00, 0x00, 0x00, 0x00, 0x00, 0x00, 0x00, 0x00, 0x00, 0x00, 0x00,
            0x00, 0x00
        ],
        "Appendix should be empty"
    );
}

#[test]
fn staged_builder_matches_one_shot_form() {
    let staged = Command02::new()
        .function_group([0x01, 0x02, 0x03, 0x04, 0x05, 0x06])
        .sequence_nr([0x10, 0x11])
        .checksum([0x20, 0x21])
        .command([0x30, 0x31, 0x32, 0x33, 0x34, 0x35])
        .build();
    let one_shot = command02(
        [0x01, 0x02, 0x03, 0x04, 0x05, 0x06],
        [0x10, 0x11],
        [0x20, 0x21],
        [0x30, 0x31, 0x32, 0x33, 0x34, 0x35],
        None,
    );
    assert_eq!(staged, one_shot);
    assert_eq!(staged.len(), 36);
}

fn ai_mode_case(mode: AIMode, expected: [u8; 4]) {
    assert_eq!(AIModeCommand::build(mode).unwrap(), expected)
}

#[test]
fn ai_mode_command_table() {
    ai_mode_case(AIMode::NoTracking, [0x16, 0x02, 0x00, 0x00]);
    ai_mode_case(AIMode::NormalTracking, [0x16, 0x02, 0x02, 0x00]);
    ai_mode_case(AIMode::UpperBody, [0x16, 0x02, 0x02, 0x01]);
    ai_mode_case(AIMode::DeskMode, [0x16, 0x02, 0x05, 0x00]);
    ai_mode_case(AIMode::Whiteboard, [0x16, 0x02, 0x04, 0x00]);
    ai_mode_case(AIMode::Group, [0x16, 0x02, 0x01, 0x00]);
    ai_mode_case(AIMode::Hand, [0x16, 0x02, 0x03, 0x00]);
    ai_mode_case(AIMode::CloseUp, [0x16, 0x02, 0x02, 0x02]);
    ai_mode_case(AIMode::Headless, [0x16, 0x02, 0x02, 0x03]);
    ai_mode_case(AIMode::LowerBody, [0x16, 0x02, 0x02, 0x04]);
    ai_mode_case(AIMode::Unknown, [0x16, 0x02, 0x00, 0x00]);
}

#[test]
fn hdr_mode_command_table() {
    assert_eq!(HdrModeCommand::build(true), [0x01, 0x01, 0x01]);
    assert_eq!(HdrModeCommand::build(false), [0x01, 0x01, 0x00]);
}

#[test]
fn exposure_mode_manual_exposure_mode() {
    let exposure_command = ExposureModeCommand::build(ExposureMode::Manual);

    assert!(
        exposure_command.is_none(),
        "manual exposure mode should not set a exposure mode command"
    );
}

#[test]
fn automatic_exposure_modes() {
    let global = ExposureModeCommand::build(ExposureMode::Global);
    assert!(
        global.is_some(),
        "automatic exposure mode should set a exposure mode command"
    );
    assert_eq!(
        global.unwrap(),
        [0x03, 0x01, 0x00],
        "correct command is expected"
    );

    let face = ExposureModeCommand::build(ExposureMode::Face);
    assert!(
        face.is_some(),
        "automatic exposure mode should set a exposure mode command"
    );
    assert_eq!(
        face.unwrap(),
        [0x03, 0x01, 0x01],
        "correct command is expected"
    );
}

#[test]
fn exposure_mode_type_manual_exposure_mode() {
    let exposure_command = ExposureModeTypeCommand::build(ExposureMode::Manual);

    assert_eq!(
        exposure_command[8..14],
        [0x0a, 0x02, 0x82, 0x29, 0x05, 0x00],
        "Function group should be set for exposure mode type"
    );
    assert_eq!(
        exposure_command[2..4],
        [0x16, 0x00],
        "Sequence number should be set"
    );
    assert_eq!(
        exposure_command[6..8],
        [0x58, 0x91],
        "Checksum should be set"
    );
    assert_eq!(
        exposure_command[14..20],
        [0xb2, 0xaf, 0x02, 0x04, 0x00, 0x00],
        "Command should be set"
    );
}

fn automatic_exposure_mode_type_case(mode: ExposureMode) {
    let exposure_command = ExposureModeTypeCommand::build(mode);

    assert_eq!(
        exposure_command[8..14],
        [0x0a, 0x02, 0x82, 0x29, 0x05, 0x00],
        "Function group should be set for exposure mode type"
    );
    assert_eq!(
        exposure_command[2..4],
        [0x15, 0x00],
        "Sequence number should be set"
    );
    assert_eq!(
        exposure_command[6..8],
        [0xa8, 0x9e],
        "Checksum should be set"
    );
    assert_eq!(
        exposure_command[14..20],
        [0xf9, 0x27, 0x01, 0x32, 0x00, 0x00],
        "Command should be set"
    );
}

#[test]
fn automatic_exposure_mode_types() {
    automatic_exposure_mode_type_case(ExposureMode::Global);
    automatic_exposure_mode_type_case(ExposureMode::Face);
}

fn sleep_mode_case(mode: SleepMode, sequence_nr: [u8; 2], checksum: [u8; 2], command: [u8; 6]) {
    let sleep_command_option = SleepCommand::build(mode);

    assert!(
        sleep_command_option.is_ok(),
        "sleep mode command should be built"
    );

    let sleep_command = sleep_command_option.unwrap();
    assert_eq!(
        sleep_command[8..14],
        [0x0a, 0x02, 0xc2, 0xa0, 0x04, 0x00],
        "Function group should be set for sleep mode"
    );
    assert_eq!(
        sleep_command[2..4],
        sequence_nr,
        "Sequence number should be set"
    );
    assert_eq!(sleep_command[6..8], checksum, "Checksum should be set");
    assert_eq!(sleep_command[14..20], command, "Command should be set");
}

#[test]
fn sleep_mode_command_table() {
    sleep_mode_case(
        SleepMode::Awake,
        [0xa5, 0x00],
        [0x5f, 0xef],
        [0xbe, 0x07, 0x00, 0x00, 0x00, 0x00],
    );
    sleep_mode_case(
        SleepMode::Sleep,
        [0x42, 0x00],
        [0xea, 0x63],
        [0xbf, 0xfb, 0x01, 0x00, 0x00, 0x00],
    );
}

#[test]
fn unknown_sleep_mode() {
    let sleep_command = SleepCommand::build(SleepMode::Unknown);
    assert!(
        matches!(sleep_command, Err(T4lError::InvalidSetting)),
        "unknown sleep mode should be rejected"
    );
}

fn speed_mode_case(
    mode: TrackingSpeed,
    sequence_nr: [u8; 2],
    checksum: [u8; 2],
    command: [u8; 6],
) {
    let speed_command_option = TrackingSpeedCommand::build(mode);

    assert!(
        speed_command_option.is_ok(),
        "tracking speed command should be built"
    );

    let speed_command = speed_command_option.unwrap();
    assert_eq!(
        speed_command[8..14],
        [0x0a, 0x04, 0xc4, 0x0c, 0x01, 0x00],
        "Function group should be set for sleep mode"
    );
    assert_eq!(
        speed_command[2..4],
        sequence_nr,
        "Sequence number should be set"
    );
    assert_eq!(speed_command[6..8], checksum, "Checksum should be set");
    assert_eq!(speed_command[14..20], command, "Command should be set");
}

#[test]
fn speed_mode_command_table() {
    speed_mode_case(
        TrackingSpeed::Standard,
        [0x20, 0x00],
        [0xab, 0xcb],
        [0xe6, 0x3f, 0x00, 0x00, 0x00, 0x00],
    );
    speed_mode_case(
        TrackingSpeed::Sport,
        [0x21, 0x00],
        [0xfa, 0x0e],
        [0x67, 0xfe, 0x02, 0x00, 0x00, 0x00],
    );
}

fn valid_preset_position_case(
    position: i8,
    sequence_nr: [u8; 2],
    checksum: [u8; 2],
    command: [u8; 6],
) {
    let position_command_option = GotoPresetPositionCommand::build(position);

    assert!(
        position_command_option.is_ok(),
        "preset position command should be built"
    );

    let position_command = position_command_option.unwrap();
    assert_eq!(
        position_command[8..14],
        [0x0a, 0x04, 0xc4, 0x39, 0x14, 0x00],
        "Function group should be set for preset position"
    );
    assert_eq!(
        position_command[2..4],
        sequence_nr,
        "Sequence number should be set"
    );
    assert_eq!(position_command[6..8], checksum, "Checksum should be set");
    assert_eq!(position_command[14..20], command, "Command should be set");
    assert_eq!(
        position_command[20..36],
        [
            0x00, 0x00, 0x80, 0x3f, 0x00, 0x00, 0x80, 0x3f, 0x00, 0x00, 0x80, 0x3f, 0x00, 0x00,
            0x80, 0x3f
        ],
        "Appendix should hold the per-axis weight pattern"
    );
}

#[test]
fn valid_preset_position() {
    valid_preset_position_case(
        0,
        [0x20, 0x00],
        [0x6b, 0xdc],
        [0xd6, 0xfb, 0x00, 0x00, 0x00, 0x00],
    );
    valid_preset_position_case(
        1,
        [0x1a, 0x00],
        [0x4b, 0x03],
        [0xeb, 0x2a, 0x01, 0x00, 0x00, 0x00],
    );
    valid_preset_position_case(
        2,
        [0x26, 0x00],
        [0x8b, 0xc3],
        [0xaf, 0x19, 0x02, 0x00, 0x00, 0x00],
    );
}

#[test]
fn invalid_preset_position() {
    for invalid_position in [-1, 3, i8::MIN, i8::MAX - 1] {
        let position_command_option = GotoPresetPositionCommand::build(invalid_position);

        assert!(
            matches!(position_command_option, Err(T4lError::InvalidSetting)),
            "invalid position should return an error"
        );
    }
}
