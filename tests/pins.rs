use bob_firmware::pins::PinBank;

#[test]
fn each_pin_comes_out_once() {
    let mut bank = PinBank::new();
    let p = bank.take(5).unwrap();
    assert_eq!(p.id(), 5);
    assert!(bank.take(5).is_none());
    assert_eq!(bank.take(6).unwrap().id(), 6);
}

#[test]
fn bank_ends_at_gpio29() {
    let mut bank = PinBank::new();
    assert_eq!(bank.take(29).unwrap().id(), 29);
    assert!(bank.take(30).is_none());
    assert!(bank.take(255).is_none());
    assert_eq!(bank.take(0).unwrap().id(), 0);
}
