use d2d_enums::enums::{
    AlphaMode, ArcSize, BitmapInterpolationMode, CapStyle, CheckedEnum, DashStyle, ExtendMode,
    FeatureLevel, FigureBegin, FigureEnd, FillMode, Gamma, GeometryRelation, GeometryType,
    LineJoin, PathSegment, RenderTargetType, StrokeTransformType, SweepDirection, UncheckedEnum,
};

fn assert_round_trip<T: CheckedEnum + PartialEq + std::fmt::Debug>(variant: T, wire: u32) {
    assert_eq!(variant.to_u32(), wire);
    assert_eq!(T::from_u32(wire), Some(variant));
}

#[test]
fn extend_mode_from_u32() {
    assert_eq!(ExtendMode::from_u32(0), Some(ExtendMode::Clamp));
    assert_eq!(ExtendMode::from_u32(1), Some(ExtendMode::Wrap));
    assert_eq!(ExtendMode::from_u32(2), Some(ExtendMode::Mirror));
    assert_eq!(ExtendMode::from_u32(3), None);
}

#[test]
fn feature_level_has_gaps() {
    assert_eq!(FeatureLevel::from_u32(37120), Some(FeatureLevel::Level9));
    assert_eq!(FeatureLevel::from_u32(1), None);
    assert_eq!(FeatureLevel::from_u32(0), Some(FeatureLevel::Default));
    assert_eq!(FeatureLevel::from_u32(40960), Some(FeatureLevel::Level10));
    assert_eq!(FeatureLevel::from_u32(37121), None);
    assert_eq!(FeatureLevel::from_u32(40959), None);
}

#[test]
fn geometry_and_fill_round_trips() {
    assert_round_trip(GeometryRelation::Unknown, 0);
    assert_round_trip(GeometryRelation::Disjoint, 1);
    assert_round_trip(GeometryRelation::IsContained, 2);
    assert_round_trip(GeometryRelation::Contains, 3);
    assert_round_trip(GeometryRelation::Overlap, 4);
    assert_eq!(GeometryRelation::from_u32(5), None);
    assert_round_trip(FillMode::Alternate, 0);
    assert_round_trip(FillMode::Winding, 1);
    assert_eq!(FillMode::from_u32(2), None);
}

#[test]
fn figure_and_path_round_trips() {
    assert_round_trip(FigureBegin::Filled, 0);
    assert_round_trip(FigureBegin::Hollow, 1);
    assert_eq!(FigureBegin::from_u32(2), None);
    assert_round_trip(FigureEnd::Open, 0);
    assert_round_trip(FigureEnd::Closed, 1);
    assert_eq!(FigureEnd::from_u32(2), None);
    assert_round_trip(PathSegment::NoAdjustment, 0);
    assert_round_trip(PathSegment::ForceUnstroked, 1);
    assert_round_trip(PathSegment::ForceRoundLineJoin, 2);
    assert_eq!(PathSegment::from_u32(3), None);
}

#[test]
fn target_and_alpha_round_trips() {
    assert_round_trip(Gamma::_2_2, 0);
    assert_round_trip(Gamma::_1_0, 1);
    assert_eq!(Gamma::from_u32(2), None);
    assert_round_trip(RenderTargetType::Default, 0);
    assert_round_trip(RenderTargetType::Software, 1);
    assert_round_trip(RenderTargetType::Hardware, 2);
    assert_eq!(RenderTargetType::from_u32(3), None);
    assert_round_trip(AlphaMode::Unknown, 0);
    assert_round_trip(AlphaMode::Premultiplied, 1);
    assert_round_trip(AlphaMode::Straight, 2);
    assert_round_trip(AlphaMode::Ignore, 3);
    assert_eq!(AlphaMode::from_u32(4), None);
}

#[test]
fn arc_round_trips() {
    assert_round_trip(SweepDirection::CounterClockwise, 0);
    assert_round_trip(SweepDirection::Clockwise, 1);
    assert_eq!(SweepDirection::from_u32(2), None);
    assert_round_trip(ArcSize::Small, 0);
    assert_round_trip(ArcSize::Large, 1);
    assert_eq!(ArcSize::from_u32(2), None);
}

#[test]
fn stroke_round_trips() {
    assert_round_trip(CapStyle::Flat, 0);
    assert_round_trip(CapStyle::Square, 1);
    assert_round_trip(CapStyle::Round, 2);
    assert_round_trip(CapStyle::Triangle, 3);
    assert_eq!(CapStyle::from_u32(4), None);
    assert_round_trip(LineJoin::Miter, 0);
    assert_round_trip(LineJoin::Bevel, 1);
    assert_round_trip(LineJoin::Round, 2);
    assert_round_trip(LineJoin::MiterOrBevel, 3);
    assert_eq!(LineJoin::from_u32(4), None);
    assert_round_trip(DashStyle::Solid, 0);
    assert_round_trip(DashStyle::Dash, 1);
    assert_round_trip(DashStyle::Dot, 2);
    assert_round_trip(DashStyle::DashDot, 3);
    assert_round_trip(DashStyle::DashDotDot, 4);
    assert_round_trip(DashStyle::Custom, 5);
    assert_eq!(DashStyle::from_u32(6), None);
    assert_round_trip(StrokeTransformType::Normal, 0);
    assert_round_trip(StrokeTransformType::Fixed, 1);
    assert_round_trip(StrokeTransformType::Hairline, 2);
    assert_eq!(StrokeTransformType::from_u32(3), None);
}

#[test]
fn bitmap_interpolation_round_trips() {
    assert_round_trip(BitmapInterpolationMode::NearestNeighbor, 0);
    assert_round_trip(BitmapInterpolationMode::Linear, 1);
    assert_eq!(BitmapInterpolationMode::from_u32(2), None);
}

#[test]
fn carrier_holds_unknown_values() {
    let raw = UncheckedEnum::<ExtendMode>::new(99);
    assert_eq!(raw.as_enum(), None);
    assert_eq!(raw.value, 99);
    assert_eq!(raw, UncheckedEnum::<ExtendMode>::new(99));
    assert_ne!(raw, UncheckedEnum::<ExtendMode>::new(1));
}

#[test]
fn carrier_delegates_to_from_u32() {
    for v in [0u32, 1, 2, 3, 99, 37120, 40960, u32::MAX] {
        assert_eq!(
            UncheckedEnum::<ExtendMode>::new(v).as_enum(),
            ExtendMode::from_u32(v)
        );
        assert_eq!(
            UncheckedEnum::<FeatureLevel>::new(v).as_enum(),
            FeatureLevel::from_u32(v)
        );
    }
}

#[test]
fn carrier_equality_is_raw_equality() {
    for v1 in [0u32, 2, 7, u32::MAX] {
        for v2 in [0u32, 2, 7, u32::MAX] {
            let lhs = UncheckedEnum::<CapStyle>::new(v1);
            let rhs = UncheckedEnum::<CapStyle>::new(v2);
            assert_eq!(lhs == rhs, v1 == v2);
        }
    }
}

#[test]
fn carrier_promotes_known_values() {
    let raw = UncheckedEnum::<ExtendMode>::new(2);
    assert_eq!(raw.as_enum(), Some(ExtendMode::Mirror));
    let raw = UncheckedEnum::<FeatureLevel>::new(40960);
    assert_eq!(raw.as_enum(), Some(FeatureLevel::Level10));
}

#[test]
fn geometry_type_is_matchable() {
    let kind = GeometryType::Ellipse;
    assert_eq!(kind, GeometryType::Ellipse);
    assert_ne!(kind, GeometryType::Path);
    let label = match kind {
        GeometryType::Ellipse => "ellipse",
        _ => "other",
    };
    assert_eq!(label, "ellipse");
}
