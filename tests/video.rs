use velera::gb::LR35902;
use velera::sound::{gen_noise, local, VolumeEnvelope, REG_SOUND1CNT_L};
use velera::video::{InputStates, Interrupt, Keymap, BGR555, RGBA};

#[test]
fn test_bgr555_rgb888() {
    assert_eq!(BGR555(0b0111110000000000), [0, 0, 0xFF].into());
    assert_eq!(BGR555(0b0000001111100000), [0, 0xFF, 0].into());
    assert_eq!(BGR555(0b0000000000011111), [0xFF, 0, 0].into());

    assert_eq!(RGBA::from(BGR555(0b0111111111111111)), RGBA(0xFFFFFF));

    assert_eq!(RGBA::from(BGR555(0b0111110000000000)), RGBA(0x0000FF));
    assert_eq!(RGBA::from(BGR555(0b0000001111100000)), RGBA(0x00FF00));
    assert_eq!(RGBA::from(BGR555(0b0000000000011111)), RGBA(0xFF0000));
}

#[test]
fn colour_conversions_scale_intensities() {
    assert_eq!(BGR555::from([0x80u8, 0x40, 0x10]), BGR555(15 | (7 << 5) | (1 << 10)));
    assert_eq!(BGR555::from([0x34u8, 0x12]), BGR555(0x1234));
    assert_eq!(BGR555::from(0x00FF_0000u32), BGR555(31));
    assert_eq!(BGR555::from(RGBA(0x0000_00FF)), BGR555(31 << 10));
    assert_eq!(RGBA::from(BGR555(16)), RGBA(131 << 16));
    assert_eq!(RGBA(0x12_34_56).channels(), (0x12, 0x34, 0x56));
}

#[test]
fn keypad_states() {
    let map = Keymap::new();
    let mut states = InputStates::new();
    map.match_key(44, &mut states);
    map.match_key(1, &mut states);
    map.match_key(200, &mut states);
    assert!(states.a && states.exit && !states.b);
    assert_eq!(states.to_u16(), 1);
    let s = InputStates::from_u16(0b10_0000_0011);
    assert!(s.a && s.b && s.l && !s.r && !s.exit);
    assert_eq!(s.to_u16(), 0b10_0000_0011);
}

#[test]
fn interrupts_and_registers() {
    let mut i = Interrupt::none();
    i.vblank();
    i.hblank();
    assert!(i.vblank && i.hblank && !i.vcounter);
    i.vcounter();
    assert!(i.vcounter);
    assert_eq!(local(REG_SOUND1CNT_L), 0x60);
    assert_eq!(LR35902::new(), LR35902 {});
}

#[test]
fn volume_envelope_steps() {
    let mut e = VolumeEnvelope::create();
    e.rw_reset(0xFF12, 0b1010_0010);
    assert_eq!((e.time, e.mode, e.initial, e.volume), (2, false, 10, 10));
    e.rw_reset(0xFF14, 0x80);
    assert_eq!(e.step_time, 2);
    e.step();
    assert_eq!((e.step_time, e.volume), (1, 10));
    e.step();
    assert_eq!((e.step_time, e.volume), (2, 9));
}

#[test]
fn noise_has_requested_length() {
    assert_eq!(gen_noise(0).len(), 0);
    let n = gen_noise(512);
    assert_eq!(n.len(), 512);
    assert!(n.iter().any(|&x| x != n[0]));
}
