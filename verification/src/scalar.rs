use vstd::prelude::*;
use core::cmp::Ordering;
use vstd::std_specs::cmp::{PartialEqSpecImpl, PartialOrdSpecImpl};

verus! {

/// Whether a 32-bit IEEE-754 bit pattern encodes a NaN.
pub open spec fn is_nan_bits(b: u32) -> bool {
    (b & 0x7f80_0000u32) == 0x7f80_0000u32 && (b & 0x007f_ffffu32) != 0
}

/// Whether a 32-bit IEEE-754 bit pattern encodes `+0.0` or `-0.0`.
pub open spec fn is_zero_bits(b: u32) -> bool {
    (b & 0x7fff_ffffu32) == 0
}

/// Whether two bit patterns compare equal when NaN is taken to equal NaN:
/// two NaNs are equal, and otherwise floating-point `==` holds (the same
/// pattern, or two zeros of either sign).
pub open spec fn same_value_bits(a: u32, b: u32) -> bool {
    if is_nan_bits(a) {
        is_nan_bits(b)
    } else {
        !is_nan_bits(b) && (a == b || (is_zero_bits(a) && is_zero_bits(b)))
    }
}

/// The bit pattern that stands for the class of `b` under `same_value_bits`:
/// every NaN maps to the quiet NaN `0x7fc0_0000` and `-0.0` maps to `+0.0`.
pub open spec fn canonical_bits(b: u32) -> u32 {
    if is_nan_bits(b) {
        0x7fc0_0000u32
    } else if is_zero_bits(b) {
        0
    } else {
        b
    }
}

/// Two bit patterns compare equal exactly when their canonical patterns are equal.
pub proof fn lemma_same_value_iff_canonical(a: u32, b: u32)
    ensures
        same_value_bits(a, b) <==> canonical_bits(a) == canonical_bits(b),
{
    assert(is_nan_bits(0x7fc0_0000u32)) by (bit_vector);
    assert(!is_nan_bits(0u32)) by (bit_vector);
    assert(is_zero_bits(0u32)) by (bit_vector);
}

/// Optical size setting for variable fonts with an `opsz` axis.
///
/// A fixed size is held as the bit pattern of its `f32` value.
#[derive(Clone, Copy, Debug, PartialEq, Eq, Hash, Ord, Structural)]
pub enum OpticalSize {
    /// Automatically set `opsz` to match the font size.
    Auto,
    /// Set `opsz` to a specific value (as `f32` bits), independent of font size.
    Fixed(u32),
    /// Disable optical sizing entirely (default).
    Disabled,
}

impl Default for OpticalSize {
    fn default() -> (o: Self)
        ensures
            o == OpticalSize::Disabled,
    {
        OpticalSize::Disabled
    }
}

/// The order of optical size settings: `Auto` first, then fixed sizes by
/// their bit patterns, then `Disabled`.
pub open spec fn optical_size_order(a: OpticalSize, b: OpticalSize) -> Ordering {
    match (a, b) {
        (OpticalSize::Auto, OpticalSize::Auto) => Ordering::Equal,
        (OpticalSize::Disabled, OpticalSize::Disabled) => Ordering::Equal,
        (OpticalSize::Auto, _) => Ordering::Less,
        (_, OpticalSize::Auto) => Ordering::Greater,
        (OpticalSize::Disabled, _) => Ordering::Greater,
        (_, OpticalSize::Disabled) => Ordering::Less,
        (OpticalSize::Fixed(x), OpticalSize::Fixed(y)) => if x < y {
            Ordering::Less
        } else if x == y {
            Ordering::Equal
        } else {
            Ordering::Greater
        },
    }
}

impl PartialOrd for OpticalSize {
    fn partial_cmp(&self, other: &Self) -> (r: Option<Ordering>) {
        let o = match (self, other) {
            (OpticalSize::Auto, OpticalSize::Auto) => Ordering::Equal,
            (OpticalSize::Disabled, OpticalSize::Disabled) => Ordering::Equal,
            (OpticalSize::Auto, _) => Ordering::Less,
            (_, OpticalSize::Auto) => Ordering::Greater,
            (OpticalSize::Disabled, _) => Ordering::Greater,
            (_, OpticalSize::Disabled) => Ordering::Less,
            (OpticalSize::Fixed(x), OpticalSize::Fixed(y)) => if *x < *y {
                Ordering::Less
            } else if *x == *y {
                Ordering::Equal
            } else {
                Ordering::Greater
            },
        };
        Some(o)
    }
}

impl PartialOrdSpecImpl for OpticalSize {
    open spec fn obeys_partial_cmp_spec() -> bool {
        true
    }

    open spec fn partial_cmp_spec(&self, other: &OpticalSize) -> Option<Ordering> {
        Some(optical_size_order(*self, *other))
    }
}

impl OpticalSize {
    /// Resolve the optical size value given a font size (both as `f32` bits).
    ///
    /// Returns `Some(value)` for the opsz axis, or `None` if disabled.
    pub fn resolve(self, font_size: u32) -> (r: Option<u32>)
        ensures
            r == (match self {
                OpticalSize::Auto => Some(font_size),
                OpticalSize::Fixed(v) => Some(v),
                OpticalSize::Disabled => None,
            }),
    {
        match self {
            OpticalSize::Auto => Some(font_size),
            OpticalSize::Fixed(v) => Some(v),
            OpticalSize::Disabled => None,
        }
    }

    /// Returns `true` if optical sizing is disabled.
    pub fn is_none(self) -> (r: bool)
        ensures
            r == (self is Disabled),
    {
        match self {
            OpticalSize::Disabled => true,
            _ => false,
        }
    }
}

/// Letter spacing (tracking) in EM, held as the bit pattern of its `f32` value.
///
/// Two spacings are equal when their values are: NaN equals NaN and
/// `-0.0` equals `+0.0`.
#[derive(Clone, Copy, Debug)]
pub struct LetterSpacing(pub u32);

impl LetterSpacing {
    /// Whether two spacings hold the same value (NaN equal to NaN).
    pub fn same_value(&self, other: &Self) -> (r: bool)
        ensures
            r == same_value_bits(self.0, other.0),
    {
        let a = self.0;
        let b = other.0;
        let a_nan = (a & 0x7f80_0000u32) == 0x7f80_0000u32 && (a & 0x007f_ffffu32) != 0;
        let b_nan = (b & 0x7f80_0000u32) == 0x7f80_0000u32 && (b & 0x007f_ffffu32) != 0;
        if a_nan {
            b_nan
        } else {
            !b_nan && (a == b || ((a & 0x7fff_ffffu32) == 0 && (b & 0x7fff_ffffu32) == 0))
        }
    }

    /// The bit pattern that is hashed: one pattern for every NaN, and `+0.0` for `-0.0`.
    pub fn canonical(&self) -> (r: u32)
        ensures
            r == canonical_bits(self.0),
    {
        let a = self.0;
        if (a & 0x7f80_0000u32) == 0x7f80_0000u32 && (a & 0x007f_ffffu32) != 0 {
            0x7fc0_0000u32
        } else if (a & 0x7fff_ffffu32) == 0 {
            0
        } else {
            a
        }
    }
}

impl PartialEq for LetterSpacing {
    fn eq(&self, other: &Self) -> (r: bool) {
        self.same_value(other)
    }
}

impl PartialEqSpecImpl for LetterSpacing {
    open spec fn obeys_eq_spec() -> bool {
        true
    }

    open spec fn eq_spec(&self, other: &LetterSpacing) -> bool {
        same_value_bits(self.0, other.0)
    }
}

impl Eq for LetterSpacing {}

/// Calls `<u32 as Hash>::hash`, feeding `v` to `state`. Nothing is claimed
/// of the hasher's state afterwards.
#[verifier::external_body]
fn hash_u32<H: core::hash::Hasher>(v: u32, state: &mut H) {
    core::hash::Hash::hash(&v, state)
}

impl core::hash::Hash for LetterSpacing {
    /// Hashes the canonical bit pattern, so that equal spacings hash alike.
    fn hash<H: core::hash::Hasher>(&self, state: &mut H) {
        hash_u32(self.canonical(), state)
    }
}

/// Equal spacings have the same canonical pattern, so they hash alike.
pub proof fn lemma_equal_spacings_hash_alike(a: LetterSpacing, b: LetterSpacing)
    requires
        same_value_bits(a.0, b.0),
    ensures
        canonical_bits(a.0) == canonical_bits(b.0),
{
    lemma_same_value_iff_canonical(a.0, b.0);
}

/// Equality of spacings is an equivalence, as `Eq` asks: reflexive, symmetric
/// and transitive (NaN equals NaN).
pub proof fn lemma_same_value_equivalence(a: u32, b: u32, c: u32)
    ensures
        same_value_bits(a, a),
        same_value_bits(a, b) ==> same_value_bits(b, a),
        same_value_bits(a, b) && same_value_bits(b, c) ==> same_value_bits(a, c),
{
    lemma_same_value_iff_canonical(a, a);
    lemma_same_value_iff_canonical(a, b);
    lemma_same_value_iff_canonical(b, a);
    lemma_same_value_iff_canonical(b, c);
    lemma_same_value_iff_canonical(a, c);
}

/// Away from NaN, spacing equality is floating-point equality: two patterns
/// that are not NaN are equal exactly when they are the same pattern or both
/// are zeros of either sign. In particular a non-zero spacing never equals its
/// negation (the same pattern with the sign bit flipped), and a NaN equals
/// every NaN and nothing else.
pub proof fn lemma_same_value_is_float_equality(a: u32, b: u32)
    ensures
        ((a & 0x7f80_0000u32) != 0x7f80_0000u32 || (a & 0x007f_ffffu32) == 0) && ((b
            & 0x7f80_0000u32) != 0x7f80_0000u32 || (b & 0x007f_ffffu32) == 0) ==> (
        same_value_bits(a, b) <==> (a == b || ((a & 0x7fff_ffffu32) == 0 && (b & 0x7fff_ffffu32)
            == 0))),
        (a & 0x7f80_0000u32) == 0x7f80_0000u32 && (a & 0x007f_ffffu32) != 0 ==> (same_value_bits(
            a,
            b,
        ) <==> ((b & 0x7f80_0000u32) == 0x7f80_0000u32 && (b & 0x007f_ffffu32) != 0)),
        ((a & 0x7f80_0000u32) != 0x7f80_0000u32 || (a & 0x007f_ffffu32) == 0) && (a
            & 0x7fff_ffffu32) != 0 ==> !same_value_bits(a, a ^ 0x8000_0000u32),
{
    assert(((a & 0x7f80_0000u32) == 0x7f80_0000u32 && (a & 0x007f_ffffu32) != 0) <==> (((a
        ^ 0x8000_0000u32) & 0x7f80_0000u32) == 0x7f80_0000u32 && ((a ^ 0x8000_0000u32)
        & 0x007f_ffffu32) != 0)) by (bit_vector);
    assert((a & 0x7fff_ffffu32) != 0 ==> (a ^ 0x8000_0000u32) != a && ((a ^ 0x8000_0000u32)
        & 0x7fff_ffffu32) != 0) by (bit_vector);
}

/// The canonical pattern of a spacing that is neither NaN nor zero is the
/// spacing's own pattern: only NaNs and `-0.0` are rewritten.
pub proof fn lemma_canonical_keeps_ordinary_values(b: u32)
    ensures
        ((b & 0x7f80_0000u32) != 0x7f80_0000u32 || (b & 0x007f_ffffu32) == 0) && (b
            & 0x7fff_ffffu32) != 0 ==> canonical_bits(b) == b,
        (b & 0x7fff_ffffu32) == 0 ==> canonical_bits(b) == 0,
{
    assert((b & 0x7fff_ffffu32) == 0 ==> !((b & 0x7f80_0000u32) == 0x7f80_0000u32 && (b
        & 0x007f_ffffu32) != 0)) by (bit_vector);
}

/// Font size and line height, held as the bit patterns of their `f32` values,
/// so that the pair has `Eq` and `Hash`.
#[derive(Clone, Copy, Debug, Eq, Hash, PartialEq, Structural)]
pub struct CacheMetrics {
    font_size_bits: u32,
    line_height_bits: u32,
}

impl CacheMetrics {
    pub closed spec fn spec_font_size_bits(self) -> u32 {
        self.font_size_bits
    }

    pub closed spec fn spec_line_height_bits(self) -> u32 {
        self.line_height_bits
    }

    /// Metrics with the given font size and line height bit patterns.
    pub fn from_bits(font_size_bits: u32, line_height_bits: u32) -> (m: Self)
        ensures
            m.spec_font_size_bits() == font_size_bits,
            m.spec_line_height_bits() == line_height_bits,
    {
        CacheMetrics { font_size_bits, line_height_bits }
    }

    /// The bit pattern of the font size.
    pub fn font_size_bits(&self) -> (b: u32)
        ensures
            b == self.spec_font_size_bits(),
    {
        self.font_size_bits
    }

    /// The bit pattern of the line height.
    pub fn line_height_bits(&self) -> (b: u32)
        ensures
            b == self.spec_line_height_bits(),
    {
        self.line_height_bits
    }
}

/// Metrics are determined by their two bit patterns.
pub proof fn lemma_cache_metrics_ext(a: CacheMetrics, b: CacheMetrics)
    requires
        a.spec_font_size_bits() == b.spec_font_size_bits(),
        a.spec_line_height_bits() == b.spec_line_height_bits(),
    ensures
        a == b,
{
}

} // verus!
