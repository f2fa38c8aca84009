//! Closed enumerations keyed by fixed 32-bit wire discriminants, and the
//! `UncheckedEnum` carrier that defers their validation.

use vstd::prelude::*;
use core::marker::PhantomData;

verus! {

/// A closed enumeration whose variants each carry one fixed 32-bit wire
/// discriminant dictated by the native graphics API.
///
/// Conforming types are plain copyable values: converting to the wire
/// representation is total, converting back recognises exactly the
/// declared discriminants and nothing else.
pub trait CheckedEnum: Sized + Copy {
    /// The fixed wire discriminant of this variant.
    spec fn discriminant(self) -> u32;

    /// The variant declared with discriminant `v`, if any.
    spec fn variant_of(v: u32) -> Option<Self>;

    /// Round-trip law: every variant's discriminant maps back to exactly
    /// that variant, and whenever a discriminant is recognised, it is the
    /// discriminant of the variant it maps to.
    proof fn lemma_round_trip(self, v: u32)
        ensures
            Self::variant_of(self.discriminant()) == Some(self),
            Self::variant_of(v) matches Some(x) ==> x.discriminant() == v,
    ;

    /// The variant's wire representation; total, never fails.
    fn to_u32(self) -> (r: u32)
        ensures
            r == self.discriminant(),
    ;

    /// The variant declared with discriminant `value`, or `None` when no
    /// variant was declared with it.
    fn from_u32(value: u32) -> (r: Option<Self>)
        ensures
            r == Self::variant_of(value),
    ;
}

/// How a brush paints outside the area it was given.
#[derive(Copy, Clone, Debug, PartialEq, Eq, Structural, Hash)]
pub enum ExtendMode {
    Clamp,
    Wrap,
    Mirror,
}

impl CheckedEnum for ExtendMode {
    open spec fn discriminant(self) -> u32 {
        match self {
            ExtendMode::Clamp => 0,
            ExtendMode::Wrap => 1,
            ExtendMode::Mirror => 2,
        }
    }

    open spec fn variant_of(v: u32) -> Option<ExtendMode> {
        if v == 0 {
            Some(ExtendMode::Clamp)
        } else if v == 1 {
            Some(ExtendMode::Wrap)
        } else if v == 2 {
            Some(ExtendMode::Mirror)
        } else {
            None
        }
    }

    proof fn lemma_round_trip(self, v: u32) {
    }

    fn to_u32(self) -> (r: u32) {
        match self {
            ExtendMode::Clamp => 0,
            ExtendMode::Wrap => 1,
            ExtendMode::Mirror => 2,
        }
    }

    fn from_u32(value: u32) -> (r: Option<ExtendMode>) {
        if value == 0 {
            Some(ExtendMode::Clamp)
        } else if value == 1 {
            Some(ExtendMode::Wrap)
        } else if value == 2 {
            Some(ExtendMode::Mirror)
        } else {
            None
        }
    }
}

/// How two geometries relate spatially.
#[derive(Copy, Clone, Debug, PartialEq, Eq, Structural, Hash)]
pub enum GeometryRelation {
    Unknown,
    Disjoint,
    IsContained,
    Contains,
    Overlap,
}

impl CheckedEnum for GeometryRelation {
    open spec fn discriminant(self) -> u32 {
        match self {
            GeometryRelation::Unknown => 0,
            GeometryRelation::Disjoint => 1,
            GeometryRelation::IsContained => 2,
            GeometryRelation::Contains => 3,
            GeometryRelation::Overlap => 4,
        }
    }

    open spec fn variant_of(v: u32) -> Option<GeometryRelation> {
        if v == 0 {
            Some(GeometryRelation::Unknown)
        } else if v == 1 {
            Some(GeometryRelation::Disjoint)
        } else if v == 2 {
            Some(GeometryRelation::IsContained)
        } else if v == 3 {
            Some(GeometryRelation::Contains)
        } else if v == 4 {
            Some(GeometryRelation::Overlap)
        } else {
            None
        }
    }

    proof fn lemma_round_trip(self, v: u32) {
    }

    fn to_u32(self) -> (r: u32) {
        match self {
            GeometryRelation::Unknown => 0,
            GeometryRelation::Disjoint => 1,
            GeometryRelation::IsContained => 2,
            GeometryRelation::Contains => 3,
            GeometryRelation::Overlap => 4,
        }
    }

    fn from_u32(value: u32) -> (r: Option<GeometryRelation>) {
        if value == 0 {
            Some(GeometryRelation::Unknown)
        } else if value == 1 {
            Some(GeometryRelation::Disjoint)
        } else if value == 2 {
            Some(GeometryRelation::IsContained)
        } else if value == 3 {
            Some(GeometryRelation::Contains)
        } else if value == 4 {
            Some(GeometryRelation::Overlap)
        } else {
            None
        }
    }
}

/// How self-intersecting regions of a geometry are filled.
#[derive(Copy, Clone, Debug, PartialEq, Eq, Structural, Hash)]
pub enum FillMode {
    Alternate,
    Winding,
}

impl CheckedEnum for FillMode {
    open spec fn discriminant(self) -> u32 {
        match self {
            FillMode::Alternate => 0,
            FillMode::Winding => 1,
        }
    }

    open spec fn variant_of(v: u32) -> Option<FillMode> {
        if v == 0 {
            Some(FillMode::Alternate)
        } else if v == 1 {
            Some(FillMode::Winding)
        } else {
            None
        }
    }

    proof fn lemma_round_trip(self, v: u32) {
    }

    fn to_u32(self) -> (r: u32) {
        match self {
            FillMode::Alternate => 0,
            FillMode::Winding => 1,
        }
    }

    fn from_u32(value: u32) -> (r: Option<FillMode>) {
        if value == 0 {
            Some(FillMode::Alternate)
        } else if value == 1 {
            Some(FillMode::Winding)
        } else {
            None
        }
    }
}

/// Whether a new figure of a path is filled or hollow.
#[derive(Copy, Clone, Debug, PartialEq, Eq, Structural, Hash)]
pub enum FigureBegin {
    Filled,
    Hollow,
}

impl CheckedEnum for FigureBegin {
    open spec fn discriminant(self) -> u32 {
        match self {
            FigureBegin::Filled => 0,
            FigureBegin::Hollow => 1,
        }
    }

    open spec fn variant_of(v: u32) -> Option<FigureBegin> {
        if v == 0 {
            Some(FigureBegin::Filled)
        } else if v == 1 {
            Some(FigureBegin::Hollow)
        } else {
            None
        }
    }

    proof fn lemma_round_trip(self, v: u32) {
    }

    fn to_u32(self) -> (r: u32) {
        match self {
            FigureBegin::Filled => 0,
            FigureBegin::Hollow => 1,
        }
    }

    fn from_u32(value: u32) -> (r: Option<FigureBegin>) {
        if value == 0 {
            Some(FigureBegin::Filled)
        } else if value == 1 {
            Some(FigureBegin::Hollow)
        } else {
            None
        }
    }
}

/// Whether a figure of a path is left open or closed.
#[derive(Copy, Clone, Debug, PartialEq, Eq, Structural, Hash)]
pub enum FigureEnd {
    Open,
    Closed,
}

impl CheckedEnum for FigureEnd {
    open spec fn discriminant(self) -> u32 {
        match self {
            FigureEnd::Open => 0,
            FigureEnd::Closed => 1,
        }
    }

    open spec fn variant_of(v: u32) -> Option<FigureEnd> {
        if v == 0 {
            Some(FigureEnd::Open)
        } else if v == 1 {
            Some(FigureEnd::Closed)
        } else {
            None
        }
    }

    proof fn lemma_round_trip(self, v: u32) {
    }

    fn to_u32(self) -> (r: u32) {
        match self {
            FigureEnd::Open => 0,
            FigureEnd::Closed => 1,
        }
    }

    fn from_u32(value: u32) -> (r: Option<FigureEnd>) {
        if value == 0 {
            Some(FigureEnd::Open)
        } else if value == 1 {
            Some(FigureEnd::Closed)
        } else {
            None
        }
    }
}

/// Stroke adjustments applied to a path segment.
#[derive(Copy, Clone, Debug, PartialEq, Eq, Structural, Hash)]
pub enum PathSegment {
    NoAdjustment,
    ForceUnstroked,
    ForceRoundLineJoin,
}

impl CheckedEnum for PathSegment {
    open spec fn discriminant(self) -> u32 {
        match self {
            PathSegment::NoAdjustment => 0,
            PathSegment::ForceUnstroked => 1,
            PathSegment::ForceRoundLineJoin => 2,
        }
    }

    open spec fn variant_of(v: u32) -> Option<PathSegment> {
        if v == 0 {
            Some(PathSegment::NoAdjustment)
        } else if v == 1 {
            Some(PathSegment::ForceUnstroked)
        } else if v == 2 {
            Some(PathSegment::ForceRoundLineJoin)
        } else {
            None
        }
    }

    proof fn lemma_round_trip(self, v: u32) {
    }

    fn to_u32(self) -> (r: u32) {
        match self {
            PathSegment::NoAdjustment => 0,
            PathSegment::ForceUnstroked => 1,
            PathSegment::ForceRoundLineJoin => 2,
        }
    }

    fn from_u32(value: u32) -> (r: Option<PathSegment>) {
        if value == 0 {
            Some(PathSegment::NoAdjustment)
        } else if value == 1 {
            Some(PathSegment::ForceUnstroked)
        } else if value == 2 {
            Some(PathSegment::ForceRoundLineJoin)
        } else {
            None
        }
    }
}

/// The gamma curve used for color interpolation: 2.2 or 1.0.
#[derive(Copy, Clone, Debug, PartialEq, Eq, Structural, Hash)]
pub enum Gamma {
    _2_2,
    _1_0,
}

impl CheckedEnum for Gamma {
    open spec fn discriminant(self) -> u32 {
        match self {
            Gamma::_2_2 => 0,
            Gamma::_1_0 => 1,
        }
    }

    open spec fn variant_of(v: u32) -> Option<Gamma> {
        if v == 0 {
            Some(Gamma::_2_2)
        } else if v == 1 {
            Some(Gamma::_1_0)
        } else {
            None
        }
    }

    proof fn lemma_round_trip(self, v: u32) {
    }

    fn to_u32(self) -> (r: u32) {
        match self {
            Gamma::_2_2 => 0,
            Gamma::_1_0 => 1,
        }
    }

    fn from_u32(value: u32) -> (r: Option<Gamma>) {
        if value == 0 {
            Some(Gamma::_2_2)
        } else if value == 1 {
            Some(Gamma::_1_0)
        } else {
            None
        }
    }
}

/// Whether a render target must render in software or on hardware.
#[derive(Copy, Clone, Debug, PartialEq, Eq, Structural, Hash)]
pub enum RenderTargetType {
    Default,
    Software,
    Hardware,
}

impl CheckedEnum for RenderTargetType {
    open spec fn discriminant(self) -> u32 {
        match self {
            RenderTargetType::Default => 0,
            RenderTargetType::Software => 1,
            RenderTargetType::Hardware => 2,
        }
    }

    open spec fn variant_of(v: u32) -> Option<RenderTargetType> {
        if v == 0 {
            Some(RenderTargetType::Default)
        } else if v == 1 {
            Some(RenderTargetType::Software)
        } else if v == 2 {
            Some(RenderTargetType::Hardware)
        } else {
            None
        }
    }

    proof fn lemma_round_trip(self, v: u32) {
    }

    fn to_u32(self) -> (r: u32) {
        match self {
            RenderTargetType::Default => 0,
            RenderTargetType::Software => 1,
            RenderTargetType::Hardware => 2,
        }
    }

    fn from_u32(value: u32) -> (r: Option<RenderTargetType>) {
        if value == 0 {
            Some(RenderTargetType::Default)
        } else if value == 1 {
            Some(RenderTargetType::Software)
        } else if value == 2 {
            Some(RenderTargetType::Hardware)
        } else {
            None
        }
    }
}

/// How the alpha channel of a bitmap or render target is interpreted.
#[derive(Copy, Clone, Debug, PartialEq, Eq, Structural, Hash)]
pub enum AlphaMode {
    Unknown,
    Premultiplied,
    Straight,
    Ignore,
}

impl CheckedEnum for AlphaMode {
    open spec fn discriminant(self) -> u32 {
        match self {
            AlphaMode::Unknown => 0,
            AlphaMode::Premultiplied => 1,
            AlphaMode::Straight => 2,
            AlphaMode::Ignore => 3,
        }
    }

    open spec fn variant_of(v: u32) -> Option<AlphaMode> {
        if v == 0 {
            Some(AlphaMode::Unknown)
        } else if v == 1 {
            Some(AlphaMode::Premultiplied)
        } else if v == 2 {
            Some(AlphaMode::Straight)
        } else if v == 3 {
            Some(AlphaMode::Ignore)
        } else {
            None
        }
    }

    proof fn lemma_round_trip(self, v: u32) {
    }

    fn to_u32(self) -> (r: u32) {
        match self {
            AlphaMode::Unknown => 0,
            AlphaMode::Premultiplied => 1,
            AlphaMode::Straight => 2,
            AlphaMode::Ignore => 3,
        }
    }

    fn from_u32(value: u32) -> (r: Option<AlphaMode>) {
        if value == 0 {
            Some(AlphaMode::Unknown)
        } else if value == 1 {
            Some(AlphaMode::Premultiplied)
        } else if value == 2 {
            Some(AlphaMode::Straight)
        } else if value == 3 {
            Some(AlphaMode::Ignore)
        } else {
            None
        }
    }
}

/// The minimum native device feature set a render target demands; the
/// discriminants are the native API's version codes, with gaps.
#[derive(Copy, Clone, Debug, PartialEq, Eq, Structural, Hash)]
pub enum FeatureLevel {
    Default,
    Level9,
    Level10,
}

impl CheckedEnum for FeatureLevel {
    open spec fn discriminant(self) -> u32 {
        match self {
            FeatureLevel::Default => 0,
            FeatureLevel::Level9 => 37120,
            FeatureLevel::Level10 => 40960,
        }
    }

    open spec fn variant_of(v: u32) -> Option<FeatureLevel> {
        if v == 0 {
            Some(FeatureLevel::Default)
        } else if v == 37120 {
            Some(FeatureLevel::Level9)
        } else if v == 40960 {
            Some(FeatureLevel::Level10)
        } else {
            None
        }
    }

    proof fn lemma_round_trip(self, v: u32) {
    }

    fn to_u32(self) -> (r: u32) {
        match self {
            FeatureLevel::Default => 0,
            FeatureLevel::Level9 => 37120,
            FeatureLevel::Level10 => 40960,
        }
    }

    fn from_u32(value: u32) -> (r: Option<FeatureLevel>) {
        if value == 0 {
            Some(FeatureLevel::Default)
        } else if value == 37120 {
            Some(FeatureLevel::Level9)
        } else if value == 40960 {
            Some(FeatureLevel::Level10)
        } else {
            None
        }
    }
}

/// The direction an arc is swept in.
#[derive(Copy, Clone, Debug, PartialEq, Eq, Structural, Hash)]
pub enum SweepDirection {
    CounterClockwise,
    Clockwise,
}

impl CheckedEnum for SweepDirection {
    open spec fn discriminant(self) -> u32 {
        match self {
            SweepDirection::CounterClockwise => 0,
            SweepDirection::Clockwise => 1,
        }
    }

    open spec fn variant_of(v: u32) -> Option<SweepDirection> {
        if v == 0 {
            Some(SweepDirection::CounterClockwise)
        } else if v == 1 {
            Some(SweepDirection::Clockwise)
        } else {
            None
        }
    }

    proof fn lemma_round_trip(self, v: u32) {
    }

    fn to_u32(self) -> (r: u32) {
        match self {
            SweepDirection::CounterClockwise => 0,
            SweepDirection::Clockwise => 1,
        }
    }

    fn from_u32(value: u32) -> (r: Option<SweepDirection>) {
        if value == 0 {
            Some(SweepDirection::CounterClockwise)
        } else if value == 1 {
            Some(SweepDirection::Clockwise)
        } else {
            None
        }
    }
}

/// Whether an arc takes the smaller or the larger sweep.
#[derive(Copy, Clone, Debug, PartialEq, Eq, Structural, Hash)]
pub enum ArcSize {
    Small,
    Large,
}

impl CheckedEnum for ArcSize {
    open spec fn discriminant(self) -> u32 {
        match self {
            ArcSize::Small => 0,
            ArcSize::Large => 1,
        }
    }

    open spec fn variant_of(v: u32) -> Option<ArcSize> {
        if v == 0 {
            Some(ArcSize::Small)
        } else if v == 1 {
            Some(ArcSize::Large)
        } else {
            None
        }
    }

    proof fn lemma_round_trip(self, v: u32) {
    }

    fn to_u32(self) -> (r: u32) {
        match self {
            ArcSize::Small => 0,
            ArcSize::Large => 1,
        }
    }

    fn from_u32(value: u32) -> (r: Option<ArcSize>) {
        if value == 0 {
            Some(ArcSize::Small)
        } else if value == 1 {
            Some(ArcSize::Large)
        } else {
            None
        }
    }
}

/// The shape at the ends of a stroke.
#[derive(Copy, Clone, Debug, PartialEq, Eq, Structural, Hash)]
pub enum CapStyle {
    Flat,
    Square,
    Round,
    Triangle,
}

impl CheckedEnum for CapStyle {
    open spec fn discriminant(self) -> u32 {
        match self {
            CapStyle::Flat => 0,
            CapStyle::Square => 1,
            CapStyle::Round => 2,
            CapStyle::Triangle => 3,
        }
    }

    open spec fn variant_of(v: u32) -> Option<CapStyle> {
        if v == 0 {
            Some(CapStyle::Flat)
        } else if v == 1 {
            Some(CapStyle::Square)
        } else if v == 2 {
            Some(CapStyle::Round)
        } else if v == 3 {
            Some(CapStyle::Triangle)
        } else {
            None
        }
    }

    proof fn lemma_round_trip(self, v: u32) {
    }

    fn to_u32(self) -> (r: u32) {
        match self {
            CapStyle::Flat => 0,
            CapStyle::Square => 1,
            CapStyle::Round => 2,
            CapStyle::Triangle => 3,
        }
    }

    fn from_u32(value: u32) -> (r: Option<CapStyle>) {
        if value == 0 {
            Some(CapStyle::Flat)
        } else if value == 1 {
            Some(CapStyle::Square)
        } else if value == 2 {
            Some(CapStyle::Round)
        } else if value == 3 {
            Some(CapStyle::Triangle)
        } else {
            None
        }
    }
}

/// The shape used to join two stroked segments.
#[derive(Copy, Clone, Debug, PartialEq, Eq, Structural, Hash)]
pub enum LineJoin {
    Miter,
    Bevel,
    Round,
    MiterOrBevel,
}

impl CheckedEnum for LineJoin {
    open spec fn discriminant(self) -> u32 {
        match self {
            LineJoin::Miter => 0,
            LineJoin::Bevel => 1,
            LineJoin::Round => 2,
            LineJoin::MiterOrBevel => 3,
        }
    }

    open spec fn variant_of(v: u32) -> Option<LineJoin> {
        if v == 0 {
            Some(LineJoin::Miter)
        } else if v == 1 {
            Some(LineJoin::Bevel)
        } else if v == 2 {
            Some(LineJoin::Round)
        } else if v == 3 {
            Some(LineJoin::MiterOrBevel)
        } else {
            None
        }
    }

    proof fn lemma_round_trip(self, v: u32) {
    }

    fn to_u32(self) -> (r: u32) {
        match self {
            LineJoin::Miter => 0,
            LineJoin::Bevel => 1,
            LineJoin::Round => 2,
            LineJoin::MiterOrBevel => 3,
        }
    }

    fn from_u32(value: u32) -> (r: Option<LineJoin>) {
        if value == 0 {
            Some(LineJoin::Miter)
        } else if value == 1 {
            Some(LineJoin::Bevel)
        } else if value == 2 {
            Some(LineJoin::Round)
        } else if value == 3 {
            Some(LineJoin::MiterOrBevel)
        } else {
            None
        }
    }
}

/// The dash pattern of a stroke.
#[derive(Copy, Clone, Debug, PartialEq, Eq, Structural, Hash)]
pub enum DashStyle {
    Solid,
    Dash,
    Dot,
    DashDot,
    DashDotDot,
    Custom,
}

impl CheckedEnum for DashStyle {
    open spec fn discriminant(self) -> u32 {
        match self {
            DashStyle::Solid => 0,
            DashStyle::Dash => 1,
            DashStyle::Dot => 2,
            DashStyle::DashDot => 3,
            DashStyle::DashDotDot => 4,
            DashStyle::Custom => 5,
        }
    }

    open spec fn variant_of(v: u32) -> Option<DashStyle> {
        if v == 0 {
            Some(DashStyle::Solid)
        } else if v == 1 {
            Some(DashStyle::Dash)
        } else if v == 2 {
            Some(DashStyle::Dot)
        } else if v == 3 {
            Some(DashStyle::DashDot)
        } else if v == 4 {
            Some(DashStyle::DashDotDot)
        } else if v == 5 {
            Some(DashStyle::Custom)
        } else {
            None
        }
    }

    proof fn lemma_round_trip(self, v: u32) {
    }

    fn to_u32(self) -> (r: u32) {
        match self {
            DashStyle::Solid => 0,
            DashStyle::Dash => 1,
            DashStyle::Dot => 2,
            DashStyle::DashDot => 3,
            DashStyle::DashDotDot => 4,
            DashStyle::Custom => 5,
        }
    }

    fn from_u32(value: u32) -> (r: Option<DashStyle>) {
        if value == 0 {
            Some(DashStyle::Solid)
        } else if value == 1 {
            Some(DashStyle::Dash)
        } else if value == 2 {
            Some(DashStyle::Dot)
        } else if value == 3 {
            Some(DashStyle::DashDot)
        } else if value == 4 {
            Some(DashStyle::DashDotDot)
        } else if value == 5 {
            Some(DashStyle::Custom)
        } else {
            None
        }
    }
}

/// How a stroke's width reacts to the world transform.
#[derive(Copy, Clone, Debug, PartialEq, Eq, Structural, Hash)]
pub enum StrokeTransformType {
    Normal,
    Fixed,
    Hairline,
}

impl CheckedEnum for StrokeTransformType {
    open spec fn discriminant(self) -> u32 {
        match self {
            StrokeTransformType::Normal => 0,
            StrokeTransformType::Fixed => 1,
            StrokeTransformType::Hairline => 2,
        }
    }

    open spec fn variant_of(v: u32) -> Option<StrokeTransformType> {
        if v == 0 {
            Some(StrokeTransformType::Normal)
        } else if v == 1 {
            Some(StrokeTransformType::Fixed)
        } else if v == 2 {
            Some(StrokeTransformType::Hairline)
        } else {
            None
        }
    }

    proof fn lemma_round_trip(self, v: u32) {
    }

    fn to_u32(self) -> (r: u32) {
        match self {
            StrokeTransformType::Normal => 0,
            StrokeTransformType::Fixed => 1,
            StrokeTransformType::Hairline => 2,
        }
    }

    fn from_u32(value: u32) -> (r: Option<StrokeTransformType>) {
        if value == 0 {
            Some(StrokeTransformType::Normal)
        } else if value == 1 {
            Some(StrokeTransformType::Fixed)
        } else if value == 2 {
            Some(StrokeTransformType::Hairline)
        } else {
            None
        }
    }
}

/// How a bitmap is sampled when it is scaled or rotated.
#[derive(Copy, Clone, Debug, PartialEq, Eq, Structural, Hash)]
pub enum BitmapInterpolationMode {
    NearestNeighbor,
    Linear,
}

impl CheckedEnum for BitmapInterpolationMode {
    open spec fn discriminant(self) -> u32 {
        match self {
            BitmapInterpolationMode::NearestNeighbor => 0,
            BitmapInterpolationMode::Linear => 1,
        }
    }

    open spec fn variant_of(v: u32) -> Option<BitmapInterpolationMode> {
        if v == 0 {
            Some(BitmapInterpolationMode::NearestNeighbor)
        } else if v == 1 {
            Some(BitmapInterpolationMode::Linear)
        } else {
            None
        }
    }

    proof fn lemma_round_trip(self, v: u32) {
    }

    fn to_u32(self) -> (r: u32) {
        match self {
            BitmapInterpolationMode::NearestNeighbor => 0,
            BitmapInterpolationMode::Linear => 1,
        }
    }

    fn from_u32(value: u32) -> (r: Option<BitmapInterpolationMode>) {
        if value == 0 {
            Some(BitmapInterpolationMode::NearestNeighbor)
        } else if value == 1 {
            Some(BitmapInterpolationMode::Linear)
        } else {
            None
        }
    }
}

/// A raw 32-bit value associated with the checked enumeration `T` without
/// being required to currently name one of its variants.
///
/// The association is purely compile-time: only the raw value is stored,
/// and two carriers are equal exactly when their raw values are equal,
/// whether or not either names a variant. Validation happens only at the
/// explicit promotion, [`UncheckedEnum::as_enum`].
#[derive(Copy, Debug, Eq, PartialOrd, Ord, Hash)]
pub struct UncheckedEnum<T: CheckedEnum> {
    pub value: u32,
    pub _marker: PhantomData<T>,
}

impl<T: CheckedEnum> Clone for UncheckedEnum<T> {
    fn clone(&self) -> (r: Self)
        ensures
            r == *self,
    {
        *self
    }
}

impl<T: CheckedEnum> PartialEq for UncheckedEnum<T> {
    fn eq(&self, other: &Self) -> (r: bool) {
        self.value == other.value
    }
}

impl<T: CheckedEnum> vstd::std_specs::cmp::PartialEqSpecImpl for UncheckedEnum<T> {
    open spec fn obeys_eq_spec() -> bool {
        true
    }

    open spec fn eq_spec(&self, other: &Self) -> bool {
        self.value == other.value
    }
}

impl<T: CheckedEnum> UncheckedEnum<T> {
    /// The carrier holding the raw value `value`.
    pub open spec fn spec_new(value: u32) -> UncheckedEnum<T> {
        UncheckedEnum { value, _marker: PhantomData }
    }

    /// What promotion of this carrier yields: the variant of `T` declared
    /// with the carried discriminant, if any.
    pub open spec fn promoted(self) -> Option<T> {
        T::variant_of(self.value)
    }

    /// Stores `value` verbatim; always succeeds, nothing is validated.
    pub fn new(value: u32) -> (r: Self)
        ensures
            r == Self::spec_new(value),
    {
        UncheckedEnum { value, _marker: PhantomData }
    }

    /// Promotes the carried value to the strict type: the variant whose
    /// discriminant it is, or `None` when `T` declares no such variant.
    pub fn as_enum(self) -> (r: Option<T>)
        ensures
            r == self.promoted(),
    {
        T::from_u32(self.value)
    }
}

/// Law: the carrier delegates faithfully — promoting a carried raw value
/// yields exactly what direct conversion of that value yields.
pub proof fn lemma_carrier_delegates<T: CheckedEnum>(v: u32)
    ensures
        UncheckedEnum::<T>::spec_new(v).promoted() == T::variant_of(v),
{
}

/// Law: two carriers for the same checked enumeration are equal exactly
/// when their raw values are equal, whether or not either value names a
/// declared variant.
pub proof fn lemma_carrier_eq_iff_raw_eq<T: CheckedEnum>(v1: u32, v2: u32)
    ensures
        (UncheckedEnum::<T>::spec_new(v1) == UncheckedEnum::<T>::spec_new(v2)) <==> v1 == v2,
{
}

/// Law: an integer that is not the discriminant of any declared variant
/// is recognised by no conversion — `variant_of`, and with it `from_u32`
/// and promotion, yield `None` on it.
pub proof fn lemma_unrecognised_is_none<T: CheckedEnum>(v: u32)
    requires
        forall|x: T| #[trigger] x.discriminant() != v,
    ensures
        T::variant_of(v) is None,
{
    match T::variant_of(v) {
        Some(x) => {
            x.lemma_round_trip(v);
        },
        None => {},
    }
}

/// The kind of geometry object behind a geometry handle.
///
/// A plain closed tag set for internal dispatch only: unlike the
/// [`CheckedEnum`] conformers it has no wire representation.
#[derive(Copy, Clone, Debug, PartialEq, Eq, Structural, Hash)]
pub enum GeometryType {
    Unknown,
    Ellipse,
    Group,
    Path,
    Rectangle,
    RoundedRectangle,
    Transformed,
}

} // verus!
