use smol_str::SmolStr;
use vstd::prelude::*;

verus! {

#[verifier::external_type_specification]
#[verifier::external_body]
pub struct ExSmolStr(SmolStr);

/// The characters that a `SmolStr` holds.
pub uninterp spec fn smol_str_text(s: SmolStr) -> Seq<char>;

/// Calls `<SmolStr as From<&str>>::from`: the new string holds exactly the
/// characters of `s`.
#[verifier::external_body]
fn smol_str_from(s: &str) -> (r: SmolStr)
    ensures
        smol_str_text(r) == s@,
{
    SmolStr::from(s)
}

/// Calls `SmolStr::as_str`: the borrowed text is the characters the string holds.
#[verifier::external_body]
fn smol_str_as_str<'a>(s: &'a SmolStr) -> (r: &'a str)
    ensures
        r@ == smol_str_text(*s),
{
    s.as_str()
}

/// Specifies `<SmolStr as Clone>::clone`: the copy holds the same characters.
pub assume_specification[ <SmolStr as Clone>::clone ](s: &SmolStr) -> (r: SmolStr)
    ensures
        smol_str_text(r) == smol_str_text(*s),
;

/// Whether two strings hold the same characters.
pub fn str_eq(a: &str, b: &str) -> (r: bool)
    ensures
        r == (a@ == b@),
{
    let x = a.to_owned();
    let y = b.to_owned();
    x == y
}

/// Specifies the weight of glyphs in the font, their degree of blackness or stroke thickness.
#[derive(Clone, Copy, Debug, Eq, Hash, PartialEq, Ord, PartialOrd, Structural)]
pub struct Weight(pub u16);

impl Weight {
    /// Thin weight (100), the thinnest value.
    #[allow(non_snake_case)]
    pub fn THIN() -> (r: Weight)
        ensures
            r == Weight(100),
    {
        Weight(100)
    }
    /// Extra light weight (200).
    #[allow(non_snake_case)]
    pub fn EXTRA_LIGHT() -> (r: Weight)
        ensures
            r == Weight(200),
    {
        Weight(200)
    }
    /// Light weight (300).
    #[allow(non_snake_case)]
    pub fn LIGHT() -> (r: Weight)
        ensures
            r == Weight(300),
    {
        Weight(300)
    }
    /// Normal (400).
    #[allow(non_snake_case)]
    pub fn NORMAL() -> (r: Weight)
        ensures
            r == Weight(400),
    {
        Weight(400)
    }
    /// Medium weight (500, higher than normal).
    #[allow(non_snake_case)]
    pub fn MEDIUM() -> (r: Weight)
        ensures
            r == Weight(500),
    {
        Weight(500)
    }
    /// Semibold weight (600).
    #[allow(non_snake_case)]
    pub fn SEMIBOLD() -> (r: Weight)
        ensures
            r == Weight(600),
    {
        Weight(600)
    }
    /// Bold weight (700).
    #[allow(non_snake_case)]
    pub fn BOLD() -> (r: Weight)
        ensures
            r == Weight(700),
    {
        Weight(700)
    }
    /// Extra-bold weight (800).
    #[allow(non_snake_case)]
    pub fn EXTRA_BOLD() -> (r: Weight)
        ensures
            r == Weight(800),
    {
        Weight(800)
    }
    /// Black weight (900), the thickest value.
    #[allow(non_snake_case)]
    pub fn BLACK() -> (r: Weight)
        ensures
            r == Weight(900),
    {
        Weight(900)
    }
}

impl Default for Weight {
    fn default() -> (w: Weight)
        ensures
            w == Weight(400),
    {
        Weight(400)
    }
}

/// Allows italic or oblique faces to be selected.
#[derive(Clone, Copy, Debug, Eq, Hash, PartialEq, Ord, PartialOrd, Structural)]
pub enum Style {
    /// A face that is neither italic not obliqued.
    Normal,
    /// A form that is generally cursive in nature.
    Italic,
    /// A typically-sloped version of the regular face.
    Oblique,
}

impl Default for Style {
    fn default() -> (s: Style)
        ensures
            s == Style::Normal,
    {
        Style::Normal
    }
}

/// A face width.
#[derive(Clone, Copy, Debug, Eq, Hash, PartialEq, Ord, PartialOrd, Structural)]
pub enum Stretch {
    UltraCondensed,
    ExtraCondensed,
    Condensed,
    SemiCondensed,
    Normal,
    SemiExpanded,
    Expanded,
    ExtraExpanded,
    UltraExpanded,
}

impl Default for Stretch {
    fn default() -> (s: Stretch)
        ensures
            s == Stretch::Normal,
    {
        Stretch::Normal
    }
}

/// A font family, by name or by generic kind.
#[derive(Clone, Copy, Debug, Eq, Hash, PartialEq)]
pub enum Family<'a> {
    /// The name of a font family of choice.
    Name(&'a str),
    /// Serif fonts represent the formal text style for a script.
    Serif,
    /// Low-contrast fonts without stroke ornamentation.
    SansSerif,
    /// Fonts in an informal, handwritten style.
    Cursive,
    /// Decorative or expressive fonts.
    Fantasy,
    /// Fonts whose glyphs all have the same fixed width.
    Monospace,
}

/// What a family denotes: its kind, and for a named family the name's characters.
pub enum FamilyModel {
    Name(Seq<char>),
    Serif,
    SansSerif,
    Cursive,
    Fantasy,
    Monospace,
}

impl<'a> Family<'a> {
    pub open spec fn model(self) -> FamilyModel {
        match self {
            Family::Name(n) => FamilyModel::Name(n@),
            Family::Serif => FamilyModel::Serif,
            Family::SansSerif => FamilyModel::SansSerif,
            Family::Cursive => FamilyModel::Cursive,
            Family::Fantasy => FamilyModel::Fantasy,
            Family::Monospace => FamilyModel::Monospace,
        }
    }

    /// Whether two families are equal: the same kind, and for named families the same name.
    pub fn same(&self, other: &Family) -> (r: bool)
        ensures
            r == (self.model() == other.model()),
    {
        match (self, other) {
            (Family::Name(a), Family::Name(b)) => str_eq(a, b),
            (Family::Serif, Family::Serif) => true,
            (Family::SansSerif, Family::SansSerif) => true,
            (Family::Cursive, Family::Cursive) => true,
            (Family::Fantasy, Family::Fantasy) => true,
            (Family::Monospace, Family::Monospace) => true,
            _ => false,
        }
    }
}

/// An owned version of [`Family`]
#[derive(Clone, Debug, Eq, Hash, PartialEq)]
pub enum FamilyOwned {
    Name(SmolStr),
    Serif,
    SansSerif,
    Cursive,
    Fantasy,
    Monospace,
}

impl FamilyOwned {
    pub open spec fn model(self) -> FamilyModel {
        match self {
            FamilyOwned::Name(n) => FamilyModel::Name(smol_str_text(n)),
            FamilyOwned::Serif => FamilyModel::Serif,
            FamilyOwned::SansSerif => FamilyModel::SansSerif,
            FamilyOwned::Cursive => FamilyModel::Cursive,
            FamilyOwned::Fantasy => FamilyModel::Fantasy,
            FamilyOwned::Monospace => FamilyModel::Monospace,
        }
    }

    /// An owned family denoting the same family as `family`.
    pub fn new(family: Family) -> (r: Self)
        ensures
            r.model() == family.model(),
    {
        match family {
            Family::Name(name) => FamilyOwned::Name(smol_str_from(name)),
            Family::Serif => FamilyOwned::Serif,
            Family::SansSerif => FamilyOwned::SansSerif,
            Family::Cursive => FamilyOwned::Cursive,
            Family::Fantasy => FamilyOwned::Fantasy,
            Family::Monospace => FamilyOwned::Monospace,
        }
    }

    /// A borrowed family denoting the same family as `self`.
    pub fn as_family(&self) -> (r: Family<'_>)
        ensures
            r.model() == self.model(),
    {
        match self {
            FamilyOwned::Name(name) => Family::Name(smol_str_as_str(name)),
            FamilyOwned::Serif => Family::Serif,
            FamilyOwned::SansSerif => Family::SansSerif,
            FamilyOwned::Cursive => Family::Cursive,
            FamilyOwned::Fantasy => Family::Fantasy,
            FamilyOwned::Monospace => Family::Monospace,
        }
    }

    /// A copy denoting the same family.
    pub fn duplicate(&self) -> (r: Self)
        ensures
            r.model() == self.model(),
    {
        match self {
            FamilyOwned::Name(name) => FamilyOwned::Name(name.clone()),
            FamilyOwned::Serif => FamilyOwned::Serif,
            FamilyOwned::SansSerif => FamilyOwned::SansSerif,
            FamilyOwned::Cursive => FamilyOwned::Cursive,
            FamilyOwned::Fantasy => FamilyOwned::Fantasy,
            FamilyOwned::Monospace => FamilyOwned::Monospace,
        }
    }

    /// Whether two owned families denote the same family.
    pub fn same(&self, other: &FamilyOwned) -> (r: bool)
        ensures
            r == (self.model() == other.model()),
    {
        self.as_family().same(&other.as_family())
    }
}

/// Flags that change how a glyph is rasterized and cached.
#[derive(Clone, Copy, Debug, Default, Eq, Hash, PartialEq, PartialOrd, Ord, Structural)]
pub struct CacheKeyFlags {
    bits: u32,
}

impl CacheKeyFlags {
    /// Skew by 14 degrees to synthesize italic
    #[allow(non_snake_case)]
    pub fn FAKE_ITALIC() -> (r: CacheKeyFlags)
        ensures
            r.spec_bits() == 1,
    {
        CacheKeyFlags { bits: 1 }
    }
    /// Disable hinting
    #[allow(non_snake_case)]
    pub fn DISABLE_HINTING() -> (r: CacheKeyFlags)
        ensures
            r.spec_bits() == 2,
    {
        CacheKeyFlags { bits: 2 }
    }
    /// Render as a pixel font
    #[allow(non_snake_case)]
    pub fn PIXEL_FONT() -> (r: CacheKeyFlags)
        ensures
            r.spec_bits() == 4,
    {
        CacheKeyFlags { bits: 4 }
    }

    pub closed spec fn spec_bits(self) -> u32 {
        self.bits
    }

    /// The flags with exactly the given bits.
    pub closed spec fn spec_from_bits(bits: u32) -> CacheKeyFlags {
        CacheKeyFlags { bits }
    }

    /// Flags built from bits hold those bits, and flags are determined by their bits.
    pub proof fn lemma_bits(bits: u32, a: CacheKeyFlags)
        ensures
            Self::spec_from_bits(bits).spec_bits() == bits,
            Self::spec_from_bits(a.spec_bits()) == a,
    {
    }

    /// No flags set.
    pub fn empty() -> (f: Self)
        ensures
            f == Self::spec_from_bits(0),
            f.spec_bits() == 0,
    {
        CacheKeyFlags { bits: 0 }
    }

    /// Flags with exactly the given bits.
    pub fn from_bits_retain(bits: u32) -> (f: Self)
        ensures
            f == Self::spec_from_bits(bits),
            f.spec_bits() == bits,
    {
        CacheKeyFlags { bits }
    }

    /// The raw bits of these flags.
    pub fn bits(&self) -> (b: u32)
        ensures
            b == self.spec_bits(),
    {
        self.bits
    }

    /// The flags set in either `self` or `other`.
    pub fn union(self, other: Self) -> (f: Self)
        ensures
            f.spec_bits() == self.spec_bits() | other.spec_bits(),
    {
        CacheKeyFlags { bits: self.bits | other.bits }
    }

    /// Whether every flag set in `other` is set in `self`.
    pub fn contains(&self, other: Self) -> (r: bool)
        ensures
            r == (self.spec_bits() & other.spec_bits() == other.spec_bits()),
    {
        self.bits & other.bits == other.bits
    }
}

} // verus!
