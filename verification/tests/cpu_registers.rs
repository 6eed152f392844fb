use rust_emu::cpu::registers::Registers;

#[test]
fn it_initalizes() {
    let reg = Registers::new();
    assert_eq!(reg.pc, 0x100);
}
