use d2d_enums::flags::{BitmapOptions, DrawTextOptions, PresentOptions, RenderTargetUsage};

#[test]
fn bitmap_options_union_membership() {
    let set = BitmapOptions::target().union(BitmapOptions::cpu_read());
    assert_eq!(set.to_u32(), 0x5);
    assert!(set.contains(BitmapOptions::target()));
    assert!(set.contains(BitmapOptions::cpu_read()));
    assert!(!set.contains(BitmapOptions::cannot_draw()));
}

#[test]
fn single_flag_membership() {
    assert!(RenderTargetUsage::from_u32(0x1).contains(RenderTargetUsage::force_bitmap_remoting()));
    assert!(RenderTargetUsage::from_u32(0x2).contains(RenderTargetUsage::gdi_compatible()));
    assert!(PresentOptions::from_u32(0x1).contains(PresentOptions::retain_contents()));
    assert!(PresentOptions::from_u32(0x2).contains(PresentOptions::immediately()));
    assert!(DrawTextOptions::from_u32(0x1).contains(DrawTextOptions::no_snap()));
    assert!(DrawTextOptions::from_u32(0x2).contains(DrawTextOptions::clip()));
    assert!(DrawTextOptions::from_u32(0x4).contains(DrawTextOptions::enable_color_font()));
    assert!(BitmapOptions::from_u32(0x1).contains(BitmapOptions::target()));
    assert!(BitmapOptions::from_u32(0x2).contains(BitmapOptions::cannot_draw()));
    assert!(BitmapOptions::from_u32(0x4).contains(BitmapOptions::cpu_read()));
    assert!(BitmapOptions::from_u32(0x8).contains(BitmapOptions::gdi_compatible()));
}

#[test]
fn union_contains_both_flags() {
    let usage = RenderTargetUsage::force_bitmap_remoting().union(RenderTargetUsage::gdi_compatible());
    assert!(usage.contains(RenderTargetUsage::force_bitmap_remoting()));
    assert!(usage.contains(RenderTargetUsage::gdi_compatible()));
    let present = PresentOptions::retain_contents().union(PresentOptions::immediately());
    assert!(present.contains(PresentOptions::retain_contents()));
    assert!(present.contains(PresentOptions::immediately()));
    let text = DrawTextOptions::no_snap().union(DrawTextOptions::enable_color_font());
    assert!(text.contains(DrawTextOptions::no_snap()));
    assert!(text.contains(DrawTextOptions::enable_color_font()));
    assert!(!text.contains(DrawTextOptions::clip()));
    let bitmap = BitmapOptions::cannot_draw().union(BitmapOptions::gdi_compatible());
    assert!(bitmap.contains(BitmapOptions::cannot_draw()));
    assert!(bitmap.contains(BitmapOptions::gdi_compatible()));
}

#[test]
fn any_bit_pattern_is_legal() {
    for bits in [0u32, 0x5, 0x40, 0x8000_0000, u32::MAX] {
        assert_eq!(BitmapOptions::from_u32(bits).to_u32(), bits);
        assert_eq!(PresentOptions::from_u32(bits).to_u32(), bits);
    }
    assert_eq!(RenderTargetUsage::empty().to_u32(), 0);
    assert_eq!(DrawTextOptions::empty().to_u32(), 0);
}

#[test]
fn unnamed_bits_are_kept() {
    let set = BitmapOptions::from_u32(0x40).union(BitmapOptions::target());
    assert_eq!(set.to_u32(), 0x41);
    assert!(set.contains(BitmapOptions::from_u32(0x40)));
    assert!(set.contains(BitmapOptions::target()));
}

#[test]
fn intersect_keeps_common_flags() {
    let first = BitmapOptions::target().union(BitmapOptions::cpu_read());
    let second = BitmapOptions::cpu_read().union(BitmapOptions::gdi_compatible());
    assert_eq!(first.intersect(second), BitmapOptions::cpu_read());
    let disjoint = BitmapOptions::target().intersect(BitmapOptions::cannot_draw());
    assert_eq!(disjoint, BitmapOptions::empty());
}

#[test]
fn flag_set_equality_is_bit_equality() {
    assert_eq!(
        PresentOptions::from_u32(0x3),
        PresentOptions::retain_contents().union(PresentOptions::immediately())
    );
    assert_ne!(PresentOptions::from_u32(0x1), PresentOptions::from_u32(0x2));
}
