use krakenctl::codec::{encode, COMMAND_LEN};
use krakenctl::params::{validate, DeviceParam};

fn expected_command(opcode: u8, speed: u8) -> Vec<u8> {
    let mut buf = vec![0u8; 24];
    buf[0] = 2;
    buf[1] = 77;
    buf[2] = opcode;
    buf[4] = speed;
    buf
}

#[test]
fn fan_command_layout() {
    for v in [10u8, 42, 100] {
        let buf = encode(&DeviceParam::FanSpeed(v));
        assert_eq!(buf.len(), COMMAND_LEN);
        assert_eq!(buf, expected_command(0, v));
    }
}

#[test]
fn pump_command_layout() {
    for v in [10u8, 60, 100] {
        let buf = encode(&DeviceParam::PumpSpeed(v));
        assert_eq!(buf.len(), COMMAND_LEN);
        assert_eq!(buf, expected_command(64, v));
    }
}

#[test]
fn fan_speed_42_scenario() {
    let params = validate(Some("42"), None).unwrap();
    assert_eq!(params, vec![DeviceParam::FanSpeed(42)]);
    let buf = encode(&params[0]);
    assert_eq!(
        buf,
        vec![
            2, 77, 0, 0, 42, 0, 0, 0, 0, 0, 0, 0, 0, 0, 0, 0, 0, 0, 0, 0, 0, 0, 0, 0
        ]
    );
}
