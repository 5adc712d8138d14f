use cubism::flags::{ConstantFlags, DynamicFlags};
use cubism::sys::{
    csmBlendAdditive, csmBlendMultiplicative, csmDrawOrderDidChange, csmIsDoubleSided,
    csmIsVisible, csmOpacityDidChange, csmRenderOrderDidChange, csmVertexPositionsDidChange,
    csmVisibilityDidChange,
};

#[test]
fn flag_bits_are_the_runtime_constants() {
    assert_eq!(csmBlendAdditive, 1 << 0);
    assert_eq!(csmBlendMultiplicative, 1 << 1);
    assert_eq!(csmIsDoubleSided, 1 << 2);
    assert_eq!(csmIsVisible, 1 << 0);
    assert_eq!(csmVisibilityDidChange, 1 << 1);
    assert_eq!(csmOpacityDidChange, 1 << 2);
    assert_eq!(csmDrawOrderDidChange, 1 << 3);
    assert_eq!(csmRenderOrderDidChange, 1 << 4);
    assert_eq!(csmVertexPositionsDidChange, 1 << 5);
}

#[test]
fn constant_flags_have_their_bits() {
    assert_eq!(ConstantFlags::blend_additive().bits(), 1);
    assert_eq!(ConstantFlags::blend_multiplicative().bits(), 2);
    assert_eq!(ConstantFlags::double_sided().bits(), 4);
    assert_eq!(ConstantFlags::empty().bits(), 0);
    assert_eq!(ConstantFlags::all().bits(), 7);
}

#[test]
fn dynamic_flags_have_their_bits() {
    assert_eq!(DynamicFlags::visible().bits(), 1);
    assert_eq!(DynamicFlags::visibility_changed().bits(), 2);
    assert_eq!(DynamicFlags::opacity_changed().bits(), 4);
    assert_eq!(DynamicFlags::draw_order_changed().bits(), 8);
    assert_eq!(DynamicFlags::render_order_changed().bits(), 16);
    assert_eq!(DynamicFlags::vertex_positions_changed().bits(), 32);
    assert_eq!(DynamicFlags::empty().bits(), 0);
    assert_eq!(DynamicFlags::all().bits(), 63);
}

#[test]
fn from_bits_accepts_named_bits_only() {
    for bits in 0..=255u8 {
        let c = ConstantFlags::from_bits(bits);
        assert_eq!(c.is_some(), bits & !7 == 0);
        if let Some(c) = c {
            assert_eq!(c.bits(), bits);
        }
        let d = DynamicFlags::from_bits(bits);
        assert_eq!(d.is_some(), bits & !63 == 0);
        if let Some(d) = d {
            assert_eq!(d.bits(), bits);
        }
    }
}

#[test]
fn from_bits_truncate_drops_unnamed_bits() {
    for bits in 0..=255u8 {
        assert_eq!(ConstantFlags::from_bits_truncate(bits).bits(), bits & 7);
        assert_eq!(DynamicFlags::from_bits_truncate(bits).bits(), bits & 63);
    }
    assert_eq!(ConstantFlags::from_bits_truncate(0xFF), ConstantFlags::all());
    assert_eq!(DynamicFlags::from_bits_truncate(0xC1), DynamicFlags::visible());
}

#[test]
fn from_bits_retain_keeps_every_bit() {
    for bits in 0..=255u8 {
        assert_eq!(ConstantFlags::from_bits_retain(bits).bits(), bits);
        assert_eq!(DynamicFlags::from_bits_retain(bits).bits(), bits);
    }
}

#[test]
fn contains_tests_named_bits() {
    let flags = DynamicFlags::from_bits_retain(0x21);
    assert!(flags.contains(DynamicFlags::visible()));
    assert!(flags.contains(DynamicFlags::vertex_positions_changed()));
    assert!(!flags.contains(DynamicFlags::opacity_changed()));
    assert!(!flags.contains(DynamicFlags::visibility_changed()));
    assert!(!flags.contains(DynamicFlags::draw_order_changed()));
    assert!(!flags.contains(DynamicFlags::render_order_changed()));
    assert!(flags.contains(DynamicFlags::empty()));
    assert!(flags.contains(flags));
    assert!(!flags.contains(DynamicFlags::all()));

    let flags = ConstantFlags::from_bits_retain(0x05);
    assert!(flags.contains(ConstantFlags::blend_additive()));
    assert!(!flags.contains(ConstantFlags::blend_multiplicative()));
    assert!(flags.contains(ConstantFlags::double_sided()));
    assert!(!ConstantFlags::empty().contains(ConstantFlags::blend_additive()));
}

#[test]
fn contains_agrees_with_the_bits() {
    for a in 0..=255u8 {
        for b in [0u8, 1, 2, 3, 4, 7, 8, 0x21, 0x3F, 0x40, 0x80, 0xFF] {
            let x = DynamicFlags::from_bits_retain(a);
            let y = DynamicFlags::from_bits_retain(b);
            assert_eq!(x.contains(y), a & b == b);
            assert_eq!(x.intersects(y), a & b != 0);
            let x = ConstantFlags::from_bits_retain(a);
            let y = ConstantFlags::from_bits_retain(b);
            assert_eq!(x.contains(y), a & b == b);
            assert_eq!(x.intersects(y), a & b != 0);
        }
    }
}

#[test]
fn intersects_tests_common_bits() {
    let changed = DynamicFlags::from_bits_retain(0x24);
    assert!(changed.intersects(DynamicFlags::opacity_changed()));
    assert!(changed.intersects(DynamicFlags::from_bits_retain(0x06)));
    assert!(!changed.intersects(DynamicFlags::visible()));
    assert!(!changed.intersects(DynamicFlags::empty()));
    assert!(!DynamicFlags::empty().intersects(DynamicFlags::empty()));
    assert!(ConstantFlags::all().intersects(ConstantFlags::blend_multiplicative()));
}

#[test]
fn is_empty_and_is_all() {
    assert!(ConstantFlags::empty().is_empty());
    assert!(!ConstantFlags::blend_additive().is_empty());
    assert!(ConstantFlags::all().is_all());
    assert!(!ConstantFlags::from_bits_retain(0x03).is_all());
    assert!(ConstantFlags::from_bits_retain(0xFF).is_all());
    assert!(!ConstantFlags::from_bits_retain(0x80).is_empty());
    assert!(DynamicFlags::empty().is_empty());
    assert!(DynamicFlags::all().is_all());
    assert!(!DynamicFlags::from_bits_retain(0x1F).is_all());
    assert!(DynamicFlags::from_bits_retain(0x7F).is_all());
    assert!(!DynamicFlags::from_bits_retain(0x40).is_empty());
}

#[test]
fn flags_compare_by_their_bits() {
    assert_eq!(DynamicFlags::from_bits_retain(1), DynamicFlags::visible());
    assert_ne!(DynamicFlags::from_bits_retain(3), DynamicFlags::visible());
    assert_eq!(ConstantFlags::from_bits(4), Some(ConstantFlags::double_sided()));
    assert_eq!(ConstantFlags::from_bits(8), None);
}
