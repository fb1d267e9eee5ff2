use nes6502::rom::rom::ROMError;
use nes6502::State;

fn image(first: u8) -> Vec<u8> {
    let mut bytes = vec![first, 0x45, 0x53, 0x1A, 1, 1, 0, 0, 0, 0, 0, 0, 0, 0, 0, 0];
    bytes.extend((0..0x6000usize).map(|offset| (offset / 3) as u8));
    bytes
}

#[test]
fn a_session_starts_empty() {
    let state = State::new();
    assert!(state.rom.is_none());
    assert!(state.cpu.is_none());
}

#[test]
fn a_session_keeps_the_cartridge() {
    let mut state = State::new();
    assert!(state.set_rom(image(0x4E)).is_ok());
    let rom = state.rom.as_ref().unwrap();
    assert_eq!(rom.prg[..], image(0x4E)[16..16 + 0x4000]);
    assert_eq!(rom.chr[..], image(0x4E)[16 + 0x4000..]);
    assert!(state.cpu.is_none());
}

#[test]
fn a_session_switches_on_a_processor() {
    let mut state = State::new();
    assert!(state.set_cpu(image(0x4E)).is_ok());
    assert_eq!(state.rom.as_ref().unwrap().prg.len(), 0x4000);
    let cpu = state.cpu.as_mut().unwrap();
    assert_eq!(cpu.pc, 0xC000);
    assert_eq!(cpu.total_cycles, 7);
    assert_eq!(cpu.p, 0x24);
}

#[test]
fn a_refused_image_leaves_the_session_alone() {
    let mut state = State::new();
    match state.set_cpu(image(0x4F)) {
        Err(ROMError::InvalidHeader { header_bytes }) => {
            assert_eq!(header_bytes[..], image(0x4F)[..16])
        }
        Ok(()) => panic!("accepted"),
    }
    assert!(state.rom.is_none());
    assert!(state.cpu.is_none());
    assert!(state.set_rom(image(0x4E)).is_ok());
    assert!(state.set_rom(image(0x00)).is_err());
    assert!(state.set_cpu(image(0x00)).is_err());
    assert_eq!(state.rom.as_ref().unwrap().prg.len(), 0x4000);
    assert!(state.cpu.is_none());
}
