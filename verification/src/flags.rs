//! Open bitmask types over named bit positions.
//!
//! Unlike the closed enumerations of [`crate::enums`], every 32-bit
//! pattern is a legal value of a flag set — including bit combinations
//! never given their own name, and bits the native library may define in
//! future versions — so conversion from a raw integer never fails here.

use vstd::prelude::*;
use core::marker::PhantomData;

verus! {

/// An open bitmask over the named bit positions of the tag type `T`.
///
/// The tag is purely compile-time: only the 32 bits are stored, and two
/// flag sets are equal exactly when their bits are equal. Any bit
/// pattern is valid; nothing is validated anywhere.
#[derive(Copy, Debug, Eq, Hash)]
pub struct FlagSet<T> {
    pub bits: u32,
    pub _marker: PhantomData<T>,
}

impl<T: Copy> Clone for FlagSet<T> {
    fn clone(&self) -> (r: Self)
        ensures
            r == *self,
    {
        *self
    }
}

impl<T> PartialEq for FlagSet<T> {
    fn eq(&self, other: &Self) -> (r: bool) {
        self.bits == other.bits
    }
}

impl<T> vstd::std_specs::cmp::PartialEqSpecImpl for FlagSet<T> {
    open spec fn obeys_eq_spec() -> bool {
        true
    }

    open spec fn eq_spec(&self, other: &Self) -> bool {
        self.bits == other.bits
    }
}

impl<T> FlagSet<T> {
    /// The flag set with exactly the bits `bits` set.
    pub open spec fn spec_new(bits: u32) -> FlagSet<T> {
        FlagSet { bits, _marker: PhantomData }
    }

    /// Whether every bit set in `other` is also set in `self`.
    pub open spec fn spec_contains(self, other: FlagSet<T>) -> bool {
        self.bits & other.bits == other.bits
    }

    /// The bitwise union of the two sets.
    pub open spec fn spec_union(self, other: FlagSet<T>) -> FlagSet<T> {
        FlagSet { bits: self.bits | other.bits, _marker: PhantomData }
    }

    /// The bitwise intersection of the two sets.
    pub open spec fn spec_intersect(self, other: FlagSet<T>) -> FlagSet<T> {
        FlagSet { bits: self.bits & other.bits, _marker: PhantomData }
    }

    /// The empty set: no flags at all.
    pub fn empty() -> (r: Self)
        ensures
            r == Self::spec_new(0),
    {
        FlagSet { bits: 0, _marker: PhantomData }
    }

    /// Adopts any 32-bit pattern verbatim; never fails, by design even
    /// for bits no declared flag names.
    pub fn from_u32(bits: u32) -> (r: Self)
        ensures
            r == Self::spec_new(bits),
    {
        FlagSet { bits, _marker: PhantomData }
    }

    /// The raw wire representation.
    pub fn to_u32(self) -> (r: u32)
        ensures
            r == self.bits,
    {
        self.bits
    }

    /// The set holding every flag of `self` and every flag of `other`.
    pub fn union(self, other: Self) -> (r: Self)
        ensures
            r == self.spec_union(other),
    {
        FlagSet { bits: self.bits | other.bits, _marker: PhantomData }
    }

    /// The set holding exactly the flags present in both operands.
    pub fn intersect(self, other: Self) -> (r: Self)
        ensures
            r == self.spec_intersect(other),
    {
        FlagSet { bits: self.bits & other.bits, _marker: PhantomData }
    }

    /// Membership test: whether every flag of `other` is set in `self`.
    pub fn contains(self, other: Self) -> (r: bool)
        ensures
            r == self.spec_contains(other),
    {
        self.bits & other.bits == other.bits
    }
}

/// Tag for [`RenderTargetUsage`].
#[derive(Copy, Clone, Debug, PartialEq, Eq, Hash)]
pub struct RenderTargetUsageTag;

/// How a render target may be used: remoted as a bitmap, or shared with
/// the platform's older drawing interface.
pub type RenderTargetUsage = FlagSet<RenderTargetUsageTag>;

impl FlagSet<RenderTargetUsageTag> {
    /// The bit forcing rendering to be remoted as a bitmap.
    pub fn force_bitmap_remoting() -> (r: Self)
        ensures
            r == Self::spec_new(0x1),
    {
        Self::from_u32(0x1)
    }

    /// The bit making the target usable by the platform's older drawing
    /// interface.
    pub fn gdi_compatible() -> (r: Self)
        ensures
            r == Self::spec_new(0x2),
    {
        Self::from_u32(0x2)
    }
}

/// Tag for [`PresentOptions`].
#[derive(Copy, Clone, Debug, PartialEq, Eq, Hash)]
pub struct PresentOptionsTag;

/// How a windowed render target presents a finished frame.
pub type PresentOptions = FlagSet<PresentOptionsTag>;

impl FlagSet<PresentOptionsTag> {
    /// The bit asking the target to keep the frame's contents after
    /// presenting.
    pub fn retain_contents() -> (r: Self)
        ensures
            r == Self::spec_new(0x1),
    {
        Self::from_u32(0x1)
    }

    /// The bit asking for presentation without waiting for the display's
    /// refresh.
    pub fn immediately() -> (r: Self)
        ensures
            r == Self::spec_new(0x2),
    {
        Self::from_u32(0x2)
    }
}

/// Tag for [`DrawTextOptions`].
#[derive(Copy, Clone, Debug, PartialEq, Eq, Hash)]
pub struct DrawTextOptionsTag;

/// Adjustments applied while drawing a run of text.
pub type DrawTextOptions = FlagSet<DrawTextOptionsTag>;

impl FlagSet<DrawTextOptionsTag> {
    /// The bit disabling pixel snapping of glyph positions.
    pub fn no_snap() -> (r: Self)
        ensures
            r == Self::spec_new(0x1),
    {
        Self::from_u32(0x1)
    }

    /// The bit clipping the text to its layout rectangle.
    pub fn clip() -> (r: Self)
        ensures
            r == Self::spec_new(0x2),
    {
        Self::from_u32(0x2)
    }

    /// The bit enabling color glyph runs.
    pub fn enable_color_font() -> (r: Self)
        ensures
            r == Self::spec_new(0x4),
    {
        Self::from_u32(0x4)
    }
}

/// Tag for [`BitmapOptions`].
#[derive(Copy, Clone, Debug, PartialEq, Eq, Hash)]
pub struct BitmapOptionsTag;

/// How a bitmap may be used and mapped.
pub type BitmapOptions = FlagSet<BitmapOptionsTag>;

impl FlagSet<BitmapOptionsTag> {
    /// The bit letting the bitmap serve as a render target.
    pub fn target() -> (r: Self)
        ensures
            r == Self::spec_new(0x1),
    {
        Self::from_u32(0x1)
    }

    /// The bit marking the bitmap as not drawable by the device.
    pub fn cannot_draw() -> (r: Self)
        ensures
            r == Self::spec_new(0x2),
    {
        Self::from_u32(0x2)
    }

    /// The bit allowing the bitmap to be mapped for CPU reads.
    pub fn cpu_read() -> (r: Self)
        ensures
            r == Self::spec_new(0x4),
    {
        Self::from_u32(0x4)
    }

    /// The bit making the bitmap usable by the platform's older drawing
    /// interface.
    pub fn gdi_compatible() -> (r: Self)
        ensures
            r == Self::spec_new(0x8),
    {
        Self::from_u32(0x8)
    }
}

/// Law: a set contains itself — in particular, the set built from one
/// flag's literal bit passes the membership test for that flag — and the
/// union of two sets contains each of them.
pub proof fn lemma_union_contains<T>(a: FlagSet<T>, b: FlagSet<T>)
    ensures
        a.spec_contains(a),
        FlagSet::<T>::spec_new(a.bits).spec_contains(a),
        a.spec_union(b).spec_contains(a),
        a.spec_union(b).spec_contains(b),
{
    let x: u32 = a.bits;
    let y: u32 = b.bits;
    assert(x & x == x) by (bit_vector);
    assert((x | y) & x == x) by (bit_vector);
    assert((x | y) & y == y) by (bit_vector);
}

} // verus!
