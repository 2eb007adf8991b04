use gamecore::ram::{Interrupts, Ram};

#[test]
fn set_ie() {
    let mut ram = Ram::default();

    ram.set_ie(true, Interrupts::VBlank);

    assert!(ram.get_ie(Interrupts::VBlank));
}
