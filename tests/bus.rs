use bob_firmware::bus::{BusError, BusEvent, SharedBus};
use bob_firmware::pins::PinBank;

fn bus_on(rate_khz: u32) -> SharedBus {
    let mut bank = PinBank::new();
    let sda = bank.take(16).unwrap();
    let scl = bank.take(17).unwrap();
    SharedBus::new(sda, scl, rate_khz)
}

#[test]
fn rate_is_given_in_hertz() {
    assert_eq!(bus_on(400).rate_hz(), 400_000);
    assert_eq!(bus_on(100).rate_hz(), 100_000);
    assert_eq!(bus_on(0).rate_hz(), 0);
    assert_eq!(bus_on(4_294_967).rate_hz(), 4_294_967_000);
}

#[test]
fn new_bus_is_idle() {
    let bus = bus_on(400);
    assert_eq!(bus.sda_id(), 16);
    assert_eq!(bus.scl_id(), 17);
    assert_eq!(bus.holder(), None);
    assert!(bus.log().is_empty());
}

#[test]
fn one_driver_per_address() {
    let mut bus = bus_on(400);
    let a = bus.acquire(0x76).unwrap();
    assert_eq!(a.index(), 0);
    assert_eq!(a.address(), 0x76);
    assert_eq!(bus.acquire(0x76).err(), Some(BusError::AddressInUse));
    let b = bus.acquire(0x1e).unwrap();
    assert_eq!(b.index(), 1);
    assert_eq!(b.address(), 0x1e);
}

#[test]
fn second_borrower_waits_for_the_first() {
    let mut bus = bus_on(400);
    let a = bus.acquire(0x76).unwrap();
    let b = bus.acquire(0x68).unwrap();
    assert_eq!(bus.begin(&a), Ok(()));
    assert_eq!(bus.holder(), Some(0));
    assert_eq!(bus.begin(&b), Err(BusError::Busy));
    assert_eq!(bus.begin(&a), Err(BusError::Busy));
    assert_eq!(bus.end(&b), Err(BusError::NotHolder));
    assert_eq!(bus.end(&a), Ok(()));
    assert_eq!(bus.holder(), None);
    assert_eq!(bus.begin(&b), Ok(()));
    assert_eq!(bus.end(&b), Ok(()));
    assert_eq!(
        bus.log().clone(),
        vec![BusEvent::Begin(0), BusEvent::End(0), BusEvent::Begin(1), BusEvent::End(1)]
    );
}

#[test]
fn end_without_begin_is_refused() {
    let mut bus = bus_on(400);
    let a = bus.acquire(0x76).unwrap();
    assert_eq!(bus.end(&a), Err(BusError::NotHolder));
    assert!(bus.log().is_empty());
}

#[test]
fn foreign_handle_is_refused() {
    let mut other = bus_on(400);
    let _ = other.acquire(0x10).unwrap();
    let foreign = other.acquire(0x11).unwrap();
    let mut bus = bus_on(400);
    let _ = bus.acquire(0x76).unwrap();
    assert_eq!(bus.begin(&foreign), Err(BusError::UnknownHandle));
    assert_eq!(bus.end(&foreign), Err(BusError::NotHolder));
    assert_eq!(bus.holder(), None);
}

#[test]
fn altimeter_address_transactions() {
    let mut bus = bus_on(400);
    let alt = bus.acquire(0x76).unwrap();
    let other = bus.acquire(0x68).unwrap();
    assert_eq!(bus.begin(&alt), Ok(()));
    assert_eq!(bus.begin(&other), Err(BusError::Busy));
    assert_eq!(bus.log().clone(), vec![BusEvent::Begin(0)]);
    assert_eq!(bus.end(&alt), Ok(()));
    assert_eq!(bus.log().clone(), vec![BusEvent::Begin(0), BusEvent::End(0)]);
}
