use pooltouhou::exit_count;
use pooltouhou::word::word_from_be;

fn by_floats(value: f32) -> u32 {
    if value >= 1.0 {
        (value.floor() as i32) as u32
    } else {
        0
    }
}

#[test]
fn exit_count_of_named_values() {
    assert_eq!(exit_count(0.0f32.to_bits()), 0);
    assert_eq!(exit_count(0.5f32.to_bits()), 0);
    assert_eq!(exit_count(1.0f32.to_bits()), 1);
    assert_eq!(exit_count(1.999f32.to_bits()), 1);
    assert_eq!(exit_count(2.0f32.to_bits()), 2);
    assert_eq!(exit_count(3.0f32.to_bits()), 3);
    assert_eq!(exit_count(3.75f32.to_bits()), 3);
    assert_eq!(exit_count(8_388_608.0f32.to_bits()), 8_388_608);
    assert_eq!(exit_count(16_777_216.0f32.to_bits()), 16_777_216);
    assert_eq!(exit_count(2_147_483_520.0f32.to_bits()), 2_147_483_520);
    assert_eq!(exit_count(2_147_483_648.0f32.to_bits()), 2_147_483_647);
    assert_eq!(exit_count(f32::MAX.to_bits()), 2_147_483_647);
    assert_eq!(exit_count(f32::INFINITY.to_bits()), 2_147_483_647);
    assert_eq!(exit_count(f32::NAN.to_bits()), 0);
    assert_eq!(exit_count(0x7F80_0001), 0);
    assert_eq!(exit_count((-1.0f32).to_bits()), 0);
    assert_eq!(exit_count((-5.5f32).to_bits()), 0);
    assert_eq!(exit_count(f32::NEG_INFINITY.to_bits()), 0);
    assert_eq!(exit_count(0xFFC0_0000), 0);
}

#[test]
fn exit_count_agrees_with_floor_on_a_sweep() {
    let mut bits: u32 = 0;
    loop {
        let value = f32::from_bits(bits);
        assert_eq!(exit_count(bits), by_floats(value), "bits {:#x}", bits);
        match bits.checked_add(0x0000_FFF1) {
            Some(next) => bits = next,
            None => break,
        }
    }
}

#[test]
fn exit_count_agrees_with_floor_around_powers_of_two() {
    for exponent in 120u32..170 {
        let base = exponent << 23;
        for delta in [0u32, 1, 2, 0x40_0000, 0x7F_FFFE, 0x7F_FFFF] {
            let bits = base + delta;
            assert_eq!(exit_count(bits), by_floats(f32::from_bits(bits)), "bits {:#x}", bits);
        }
    }
}

#[test]
fn word_from_be_is_big_endian() {
    assert_eq!(word_from_be(0x3F, 0x80, 0, 0), 1.0f32.to_bits());
    assert_eq!(word_from_be(1, 2, 3, 4), 0x0102_0304);
    assert_eq!(word_from_be(0xFF, 0xFF, 0xFF, 0xFF), u32::MAX);
    assert_eq!(word_from_be(0, 0, 0, 0), 0);
    for value in [2.5f32, -7.125, 1.0e20] {
        let b = value.to_be_bytes();
        assert_eq!(f32::from_bits(word_from_be(b[0], b[1], b[2], b[3])), value);
    }
}
