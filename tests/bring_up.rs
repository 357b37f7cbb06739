use bob_firmware::board::{handshake_fault, BoardPeripherals, BringUpError};
use bob_firmware::sensor::{Channel, Handshake, Osr};

#[test]
fn register_block_already_handed_out() {
    let r = BoardPeripherals::take(None, Osr::Osr1024, Channel::Temperature);
    assert_eq!(r.err(), Some(BringUpError::AlreadyClaimed));
}

#[test]
fn register_block_gone_for_every_setting_pair() {
    let osrs = [Osr::Osr4096, Osr::Osr2048, Osr::Osr1024, Osr::Osr512, Osr::Osr256, Osr::Osr128];
    let channels = [Channel::SensorPressureTemperature, Channel::Temperature];
    for osr in osrs {
        for ch in channels {
            let r = BoardPeripherals::take(None, osr, ch);
            assert_eq!(r.err(), Some(BringUpError::AlreadyClaimed));
        }
    }
}

#[test]
fn acknowledged_handshake_is_no_fault() {
    assert_eq!(handshake_fault(Handshake::Acknowledged), None);
}

#[test]
fn silent_sensor_is_a_fault() {
    assert_eq!(
        handshake_fault(Handshake::NotAcknowledged),
        Some(BringUpError::SensorNotAcknowledged)
    );
}

#[test]
fn bus_fault_during_handshake() {
    assert_eq!(handshake_fault(Handshake::BusFault), Some(BringUpError::SensorBusFault));
}

#[test]
fn abort_source_names_the_fault() {
    assert_eq!(Handshake::from_abort_source(0x1), Handshake::NotAcknowledged);
    assert_eq!(Handshake::from_abort_source(0x8000_0001), Handshake::NotAcknowledged);
    assert_eq!(Handshake::from_abort_source(0x0), Handshake::BusFault);
    assert_eq!(Handshake::from_abort_source(0x1000), Handshake::BusFault);
}

#[test]
fn silent_sensor_from_abort_source_is_a_fault() {
    assert_eq!(
        handshake_fault(Handshake::from_abort_source(0x1)),
        Some(BringUpError::SensorNotAcknowledged)
    );
}
