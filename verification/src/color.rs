use vstd::prelude::*;

verus! {

/// Text color, packed as `0xAARRGGBB`.
#[derive(Clone, Copy, Debug, PartialOrd, Ord, Eq, Hash, PartialEq, Structural)]
pub struct Color(pub u32);

/// The packed word of a color with the given components.
pub open spec fn packed_rgba(r: u8, g: u8, b: u8, a: u8) -> int {
    a as int * 0x1000000 + r as int * 0x10000 + g as int * 0x100 + b as int
}

impl Color {
    /// The red component of a packed word.
    pub open spec fn spec_r(self) -> u8 {
        ((self.0 / 0x10000) % 0x100) as u8
    }

    /// The green component of a packed word.
    pub open spec fn spec_g(self) -> u8 {
        ((self.0 / 0x100) % 0x100) as u8
    }

    /// The blue component of a packed word.
    pub open spec fn spec_b(self) -> u8 {
        (self.0 % 0x100) as u8
    }

    /// The alpha component of a packed word.
    pub open spec fn spec_a(self) -> u8 {
        (self.0 / 0x1000000) as u8
    }

    /// Create new color with red, green, and blue components
    pub fn rgb(r: u8, g: u8, b: u8) -> (c: Self)
        ensures
            c.0 == packed_rgba(r, g, b, 0xFF),
    {
        Self::rgba(r, g, b, 0xFF)
    }

    /// Create new color with red, green, blue, and alpha components
    pub fn rgba(r: u8, g: u8, b: u8, a: u8) -> (c: Self)
        ensures
            c.0 == packed_rgba(r, g, b, a),
    {
        let w: u32 = ((a as u32) << 24u32) | ((r as u32) << 16u32) | ((g as u32) << 8u32) | (b as u32);
        assert(((a as u32) << 24u32) | ((r as u32) << 16u32) | ((g as u32) << 8u32) | (b as u32)
            == a as u32 * 0x1000000u32 + r as u32 * 0x10000u32 + g as u32 * 0x100u32 + b as u32)
            by (bit_vector);
        Self(w)
    }

    /// Get a tuple over all of the attributes, in `(r, g, b, a)` order.
    pub fn as_rgba_tuple(self) -> (t: (u8, u8, u8, u8))
        ensures
            t == (self.spec_r(), self.spec_g(), self.spec_b(), self.spec_a()),
    {
        (self.r(), self.g(), self.b(), self.a())
    }

    /// Get an array over all of the components, in `[r, g, b, a]` order.
    pub fn as_rgba(self) -> (arr: [u8; 4])
        ensures
            arr@ == seq![self.spec_r(), self.spec_g(), self.spec_b(), self.spec_a()],
    {
        let arr = [self.r(), self.g(), self.b(), self.a()];
        assert(arr@ =~= seq![self.spec_r(), self.spec_g(), self.spec_b(), self.spec_a()]);
        arr
    }

    /// Get the red component
    pub fn r(&self) -> (v: u8)
        ensures
            v == self.spec_r(),
    {
        let w = self.0;
        assert((w & 0x00FF0000u32) >> 16u32 == (w / 0x10000u32) % 0x100u32) by (bit_vector);
        ((w & 0x00FF0000u32) >> 16u32) as u8
    }

    /// Get the green component
    pub fn g(&self) -> (v: u8)
        ensures
            v == self.spec_g(),
    {
        let w = self.0;
        assert((w & 0x0000FF00u32) >> 8u32 == (w / 0x100u32) % 0x100u32) by (bit_vector);
        ((w & 0x0000FF00u32) >> 8u32) as u8
    }

    /// Get the blue component
    pub fn b(&self) -> (v: u8)
        ensures
            v == self.spec_b(),
    {
        let w = self.0;
        assert(w & 0x000000FFu32 == w % 0x100u32) by (bit_vector);
        (w & 0x000000FFu32) as u8
    }

    /// Get the alpha component
    pub fn a(&self) -> (v: u8)
        ensures
            v == self.spec_a(),
    {
        let w = self.0;
        assert((w & 0xFF000000u32) >> 24u32 == w / 0x1000000u32) by (bit_vector);
        ((w & 0xFF000000u32) >> 24u32) as u8
    }
}

/// Unpacking the word built from four components gives those components back.
pub proof fn lemma_rgba_components(r: u8, g: u8, b: u8, a: u8, c: Color)
    requires
        c.0 == packed_rgba(r, g, b, a),
    ensures
        c.spec_r() == r,
        c.spec_g() == g,
        c.spec_b() == b,
        c.spec_a() == a,
{
    let w = c.0;
    assert(w == a as u32 * 0x1000000u32 + r as u32 * 0x10000u32 + g as u32 * 0x100u32 + b as u32
        ==> (w / 0x10000u32) % 0x100u32 == r as u32 && (w / 0x100u32) % 0x100u32 == g as u32
        && w % 0x100u32 == b as u32 && w / 0x1000000u32 == a as u32) by (bit_vector);
}

/// Packing the four components of a color gives the same color back.
pub proof fn lemma_components_rgba(c: Color)
    ensures
        c.0 == packed_rgba(c.spec_r(), c.spec_g(), c.spec_b(), c.spec_a()),
{
    let w = c.0;
    assert(w == (w / 0x1000000u32) * 0x1000000u32 + ((w / 0x10000u32) % 0x100u32) * 0x10000u32
        + ((w / 0x100u32) % 0x100u32) * 0x100u32 + w % 0x100u32) by (bit_vector);
}

} // verus!
