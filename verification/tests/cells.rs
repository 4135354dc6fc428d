use relaxed::{RelaxedBool, RelaxedI16, RelaxedI32, RelaxedI8, RelaxedU16, RelaxedU32, RelaxedU8};

#[test]
fn round_trip_bool() {
    assert_eq!(RelaxedBool::new(false).get(), false);
    assert_eq!(RelaxedBool::new(true).get(), true);
}

#[test]
fn round_trip_unsigned() {
    assert_eq!(RelaxedU8::new(0).get(), 0);
    assert_eq!(RelaxedU8::new(255).get(), 255);
    assert_eq!(RelaxedU16::new(0).get(), 0);
    assert_eq!(RelaxedU16::new(65535).get(), 65535);
    assert_eq!(RelaxedU32::new(0).get(), 0);
    assert_eq!(RelaxedU32::new(4294967295).get(), 4294967295);
}

#[test]
fn round_trip_signed() {
    assert_eq!(RelaxedI8::new(-128).get(), -128);
    assert_eq!(RelaxedI8::new(127).get(), 127);
    assert_eq!(RelaxedI16::new(-32768).get(), -32768);
    assert_eq!(RelaxedI16::new(32767).get(), 32767);
    assert_eq!(RelaxedI32::new(-2147483648).get(), -2147483648);
    assert_eq!(RelaxedI32::new(2147483647).get(), 2147483647);
}

#[test]
fn store_overwrite_bool() {
    let mut c = RelaxedBool::new(false);
    c.set(true);
    assert_eq!(c.get(), true);
    c.set(false);
    assert_eq!(c.get(), false);
}

#[test]
fn store_overwrite_unsigned() {
    let mut c8 = RelaxedU8::new(1);
    c8.set(250);
    assert_eq!(c8.get(), 250);
    let mut c16 = RelaxedU16::new(2);
    c16.set(60000);
    assert_eq!(c16.get(), 60000);
    let mut c32 = RelaxedU32::new(3);
    c32.set(4000000000);
    assert_eq!(c32.get(), 4000000000);
}

#[test]
fn store_overwrite_signed() {
    let mut c8 = RelaxedI8::new(1);
    c8.set(-100);
    assert_eq!(c8.get(), -100);
    let mut c16 = RelaxedI16::new(2);
    c16.set(-30000);
    assert_eq!(c16.get(), -30000);
    let mut c32 = RelaxedI32::new(3);
    c32.set(-2000000000);
    assert_eq!(c32.get(), -2000000000);
}

#[test]
fn default_zero() {
    assert_eq!(RelaxedBool::default().get(), false);
    assert_eq!(RelaxedU8::default().get(), 0);
    assert_eq!(RelaxedU16::default().get(), 0);
    assert_eq!(RelaxedU32::default().get(), 0);
    assert_eq!(RelaxedI8::default().get(), 0);
    assert_eq!(RelaxedI16::default().get(), 0);
    assert_eq!(RelaxedI32::default().get(), 0);
}

#[test]
fn update_applies_function() {
    let mut b = RelaxedBool::new(true);
    b.update(|v| !v);
    assert_eq!(b.get(), false);

    let mut c8 = RelaxedU8::new(41);
    c8.update(|v| v.wrapping_add(1));
    assert_eq!(c8.get(), 42);

    let mut c16 = RelaxedU16::new(300);
    c16.update(|v| v.wrapping_mul(2));
    assert_eq!(c16.get(), 600);

    let mut c32 = RelaxedU32::new(7);
    c32.update(|v| v.wrapping_sub(10));
    assert_eq!(c32.get(), 4294967293);

    let mut i8c = RelaxedI8::new(-5);
    i8c.update(|v| v.wrapping_neg());
    assert_eq!(i8c.get(), 5);

    let mut i16c = RelaxedI16::new(100);
    i16c.update(|v| v.wrapping_add(-1));
    assert_eq!(i16c.get(), 99);

    let mut i32c = RelaxedI32::new(2147483647);
    i32c.update(|v| v.wrapping_add(1));
    assert_eq!(i32c.get(), -2147483648);
}

#[test]
fn fetch_not_returns_previous_and_flips() {
    let mut c = RelaxedBool::new(false);
    let prev = c.fetch_not();
    assert_eq!(prev, false);
    assert_eq!(c.get(), true);

    let mut d = RelaxedBool::new(true);
    let prev = d.fetch_not();
    assert_eq!(prev, true);
    assert_eq!(d.get(), false);
}

#[test]
fn fetch_not_twice_restores() {
    let mut c = RelaxedBool::new(true);
    c.fetch_not();
    c.fetch_not();
    assert_eq!(c.get(), true);
}

#[test]
fn from_wraps_value() {
    assert_eq!(RelaxedBool::from(true).get(), true);
    assert_eq!(RelaxedU8::from(9).get(), 9);
    assert_eq!(RelaxedU16::from(900).get(), 900);
    assert_eq!(RelaxedU32::from(90000).get(), 90000);
    assert_eq!(RelaxedI8::from(-9).get(), -9);
    assert_eq!(RelaxedI16::from(-900).get(), -900);
    assert_eq!(RelaxedI32::from(-90000).get(), -90000);
}

#[test]
fn render_bool() {
    assert_eq!(RelaxedBool::new(true).render(), "true");
    assert_eq!(RelaxedBool::new(false).render(), "false");
}

#[test]
fn render_unsigned() {
    assert_eq!(RelaxedU8::new(0).render(), "0");
    assert_eq!(RelaxedU8::new(255).render(), "255");
    assert_eq!(RelaxedU16::new(10000).render(), "10000");
    assert_eq!(RelaxedU32::new(105).render(), "105");
    assert_eq!(RelaxedU32::new(4294967295).render(), "4294967295");
}

#[test]
fn render_signed() {
    assert_eq!(RelaxedI8::new(-128).render(), "-128");
    assert_eq!(RelaxedI16::new(-1).render(), "-1");
    assert_eq!(RelaxedI32::new(0).render(), "0");
    assert_eq!(RelaxedI32::new(-2147483648).render(), "-2147483648");
    assert_eq!(RelaxedI32::new(2147483647).render(), "2147483647");
}

#[test]
fn cell_size_matches_bare_value() {
    assert_eq!(core::mem::size_of::<RelaxedBool>(), core::mem::size_of::<bool>());
    assert_eq!(core::mem::size_of::<RelaxedU8>(), core::mem::size_of::<u8>());
    assert_eq!(core::mem::size_of::<RelaxedU16>(), core::mem::size_of::<u16>());
    assert_eq!(core::mem::size_of::<RelaxedU32>(), core::mem::size_of::<u32>());
    assert_eq!(core::mem::size_of::<RelaxedI8>(), core::mem::size_of::<i8>());
    assert_eq!(core::mem::size_of::<RelaxedI16>(), core::mem::size_of::<i16>());
    assert_eq!(core::mem::size_of::<RelaxedI32>(), core::mem::size_of::<i32>());
}
