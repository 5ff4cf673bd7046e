use crate::color::Color;
use crate::decoration::{plain_decoration, TextDecoration, UnderlineStyle};
use crate::features::{Feature, FontFeatures, FontVariations, Variation};
use crate::font::{CacheKeyFlags, Family, FamilyModel, FamilyOwned, Stretch, Style, Weight};
use crate::scalar::{same_value_bits, CacheMetrics, LetterSpacing, OpticalSize};
use vstd::prelude::*;
use vstd::std_specs::cmp::PartialEqSpecImpl;
use vstd::std_specs::convert::FromSpecImpl;

verus! {

/// What a set of text attributes holds, with lists as sequences and the
/// family as its kind and name.
pub struct AttrsView {
    pub color_opt: Option<Color>,
    pub family: FamilyModel,
    pub stretch: Stretch,
    pub style: Style,
    pub weight: Weight,
    pub metadata: usize,
    pub cache_key_flags: CacheKeyFlags,
    pub metrics_opt: Option<CacheMetrics>,
    pub letter_spacing_opt: Option<LetterSpacing>,
    pub font_features: Seq<Feature>,
    pub font_variations: Seq<Variation>,
    pub text_decoration: TextDecoration,
    pub optical_size: OpticalSize,
}

/// The attributes of `Attrs::new`: a regular sans-serif face, nothing else set.
pub open spec fn default_attrs_view() -> AttrsView {
    AttrsView {
        color_opt: None,
        family: FamilyModel::SansSerif,
        stretch: Stretch::Normal,
        style: Style::Normal,
        weight: Weight(400),
        metadata: 0,
        cache_key_flags: CacheKeyFlags::spec_from_bits(0),
        metrics_opt: None,
        letter_spacing_opt: None,
        font_features: Seq::empty(),
        font_variations: Seq::empty(),
        text_decoration: plain_decoration(),
        optical_size: OpticalSize::Disabled,
    }
}

/// Whether two optional spacings are equal (spacings compared by value, NaN equal to NaN).
pub open spec fn spacing_opt_same(a: Option<LetterSpacing>, b: Option<LetterSpacing>) -> bool {
    match (a, b) {
        (None, None) => true,
        (Some(x), Some(y)) => same_value_bits(x.0, y.0),
        _ => false,
    }
}

/// Equality of attributes as `==` decides it: every field equal, letter
/// spacing compared by value.
pub open spec fn attrs_equiv(a: AttrsView, b: AttrsView) -> bool {
    &&& (AttrsView { letter_spacing_opt: None, ..a }) == (AttrsView { letter_spacing_opt: None, ..b })
    &&& spacing_opt_same(a.letter_spacing_opt, b.letter_spacing_opt)
}

/// Whether two sets of attributes select the same font: the same family,
/// stretch, style and weight.
pub open spec fn attrs_compatible(a: AttrsView, b: AttrsView) -> bool {
    a.family == b.family && a.stretch == b.stretch && a.style == b.style && a.weight == b.weight
}

/// Whether two optional spacings are equal.
pub fn spacing_opt_eq(a: &Option<LetterSpacing>, b: &Option<LetterSpacing>) -> (r: bool)
    ensures
        r == spacing_opt_same(*a, *b),
{
    match (a, b) {
        (None, None) => true,
        (Some(x), Some(y)) => x.same_value(y),
        _ => false,
    }
}

/// Whether two optional colors are equal.
pub fn color_opt_eq(a: &Option<Color>, b: &Option<Color>) -> (r: bool)
    ensures
        r == (*a == *b),
{
    match (a, b) {
        (None, None) => true,
        (Some(x), Some(y)) => x.0 == y.0,
        _ => false,
    }
}

/// Whether two optional metrics are equal.
pub fn metrics_opt_eq(a: &Option<CacheMetrics>, b: &Option<CacheMetrics>) -> (r: bool)
    ensures
        r == (*a == *b),
{
    match (a, b) {
        (None, None) => true,
        (Some(x), Some(y)) => {
            let r = x.font_size_bits() == y.font_size_bits() && x.line_height_bits()
                == y.line_height_bits();
            proof {
                if r {
                    crate::scalar::lemma_cache_metrics_ext(*x, *y);
                }
            }
            r
        },
        _ => false,
    }
}

/// Whether two flag sets are equal.
pub fn flags_eq(a: &CacheKeyFlags, b: &CacheKeyFlags) -> (r: bool)
    ensures
        r == (*a == *b),
{
    let r = a.bits() == b.bits();
    proof {
        CacheKeyFlags::lemma_bits(0, *a);
        CacheKeyFlags::lemma_bits(0, *b);
    }
    r
}

/// Whether two decorations are equal.
pub fn decoration_eq(a: &TextDecoration, b: &TextDecoration) -> (r: bool)
    ensures
        r == (*a == *b),
{
    let u = match (a.underline, b.underline) {
        (UnderlineStyle::Disabled, UnderlineStyle::Disabled) => true,
        (UnderlineStyle::Single, UnderlineStyle::Single) => true,
        (UnderlineStyle::Double, UnderlineStyle::Double) => true,
        _ => false,
    };
    u && color_opt_eq(&a.underline_color_opt, &b.underline_color_opt) && a.strikethrough
        == b.strikethrough && color_opt_eq(&a.strikethrough_color_opt, &b.strikethrough_color_opt)
        && a.overline == b.overline && color_opt_eq(&a.overline_color_opt, &b.overline_color_opt)
}

/// Whether two optical size settings are equal.
pub fn optical_size_eq(a: &OpticalSize, b: &OpticalSize) -> (r: bool)
    ensures
        r == (*a == *b),
{
    match (a, b) {
        (OpticalSize::Auto, OpticalSize::Auto) => true,
        (OpticalSize::Fixed(x), OpticalSize::Fixed(y)) => *x == *y,
        (OpticalSize::Disabled, OpticalSize::Disabled) => true,
        _ => false,
    }
}

/// Text attributes
#[derive(Clone, Debug, Hash)]
pub struct Attrs<'a> {
    pub color_opt: Option<Color>,
    pub family: Family<'a>,
    pub stretch: Stretch,
    pub style: Style,
    pub weight: Weight,
    pub metadata: usize,
    pub cache_key_flags: CacheKeyFlags,
    pub metrics_opt: Option<CacheMetrics>,
    /// Letter spacing (tracking) in EM
    pub letter_spacing_opt: Option<LetterSpacing>,
    pub font_features: FontFeatures,
    pub font_variations: FontVariations,
    pub text_decoration: TextDecoration,
    pub optical_size: OpticalSize,
}

impl<'a> View for Attrs<'a> {
    type V = AttrsView;

    open spec fn view(&self) -> AttrsView {
        AttrsView {
            color_opt: self.color_opt,
            family: self.family.model(),
            stretch: self.stretch,
            style: self.style,
            weight: self.weight,
            metadata: self.metadata,
            cache_key_flags: self.cache_key_flags,
            metrics_opt: self.metrics_opt,
            letter_spacing_opt: self.letter_spacing_opt,
            font_features: self.font_features@,
            font_variations: self.font_variations@,
            text_decoration: self.text_decoration,
            optical_size: self.optical_size,
        }
    }
}

impl<'a> Attrs<'a> {
    /// Create a new set of attributes with sane defaults
    ///
    /// This defaults to a regular Sans-Serif font.
    pub fn new() -> (r: Self)
        ensures
            r@ == default_attrs_view(),
    {
        Attrs {
            color_opt: None,
            family: Family::SansSerif,
            stretch: Stretch::Normal,
            style: Style::Normal,
            weight: Weight(400),
            metadata: 0,
            cache_key_flags: CacheKeyFlags::empty(),
            metrics_opt: None,
            letter_spacing_opt: None,
            font_features: FontFeatures::new(),
            font_variations: FontVariations::new(),
            text_decoration: TextDecoration::new(),
            optical_size: OpticalSize::Disabled,
        }
    }

    /// Set [Color]
    pub fn color(self, color: Color) -> (r: Self)
        ensures
            r@ == (AttrsView { color_opt: Some(color), ..self@ }),
    {
        let mut s = self;
        s.color_opt = Some(color);
        s
    }

    /// Set [Family]
    pub fn family(self, family: Family<'a>) -> (r: Self)
        ensures
            r@ == (AttrsView { family: family.model(), ..self@ }),
            r.family == family,
    {
        let mut s = self;
        s.family = family;
        s
    }

    /// Set [Stretch]
    pub fn stretch(self, stretch: Stretch) -> (r: Self)
        ensures
            r@ == (AttrsView { stretch, ..self@ }),
    {
        let mut s = self;
        s.stretch = stretch;
        s
    }

    /// Set [Style]
    pub fn style(self, style: Style) -> (r: Self)
        ensures
            r@ == (AttrsView { style, ..self@ }),
    {
        let mut s = self;
        s.style = style;
        s
    }

    /// Set [Weight]
    pub fn weight(self, weight: Weight) -> (r: Self)
        ensures
            r@ == (AttrsView { weight, ..self@ }),
    {
        let mut s = self;
        s.weight = weight;
        s
    }

    /// Set metadata
    pub fn metadata(self, metadata: usize) -> (r: Self)
        ensures
            r@ == (AttrsView { metadata, ..self@ }),
    {
        let mut s = self;
        s.metadata = metadata;
        s
    }

    /// Set [`CacheKeyFlags`]
    pub fn cache_key_flags(self, cache_key_flags: CacheKeyFlags) -> (r: Self)
        ensures
            r@ == (AttrsView { cache_key_flags, ..self@ }),
    {
        let mut s = self;
        s.cache_key_flags = cache_key_flags;
        s
    }

    /// Set the metrics (font size and line height), overriding values in buffer
    pub fn metrics(self, metrics: CacheMetrics) -> (r: Self)
        ensures
            r@ == (AttrsView { metrics_opt: Some(metrics), ..self@ }),
    {
        let mut s = self;
        s.metrics_opt = Some(metrics);
        s
    }

    /// Set letter spacing (tracking) in EM, given as the bit pattern of an `f32`
    pub fn letter_spacing(self, letter_spacing: u32) -> (r: Self)
        ensures
            r@ == (AttrsView { letter_spacing_opt: Some(LetterSpacing(letter_spacing)), ..self@ }),
    {
        let mut s = self;
        s.letter_spacing_opt = Some(LetterSpacing(letter_spacing));
        s
    }

    /// Set [`FontFeatures`]
    pub fn font_features(self, font_features: FontFeatures) -> (r: Self)
        ensures
            r@ == (AttrsView { font_features: font_features@, ..self@ }),
    {
        let mut s = self;
        s.font_features = font_features;
        s
    }

    /// Set [`FontVariations`]
    pub fn font_variations(self, font_variations: FontVariations) -> (r: Self)
        ensures
            r@ == (AttrsView { font_variations: font_variations@, ..self@ }),
    {
        let mut s = self;
        s.font_variations = font_variations;
        s
    }

    /// Enable or disable optical sizing (CSS `font-optical-sizing`).
    /// When enabled, the `opsz` axis is set to match the font size.
    /// When disabled (default), the `opsz` axis is left at the font's default value.
    pub fn optical_sizing(self, enabled: bool) -> (r: Self)
        ensures
            r@ == (AttrsView {
                optical_size: if enabled { OpticalSize::Auto } else { OpticalSize::Disabled },
                ..self@
            }),
    {
        let mut s = self;
        s.optical_size = if enabled {
            OpticalSize::Auto
        } else {
            OpticalSize::Disabled
        };
        s
    }

    /// Set optical size to a specific value, `Auto`, or `Disabled`.
    pub fn optical_size(self, optical_size: OpticalSize) -> (r: Self)
        ensures
            r@ == (AttrsView { optical_size, ..self@ }),
    {
        let mut s = self;
        s.optical_size = optical_size;
        s
    }

    /// Set the underline style.
    pub fn underline(self, style: UnderlineStyle) -> (r: Self)
        ensures
            r@ == (AttrsView {
                text_decoration: TextDecoration { underline: style, ..self@.text_decoration },
                ..self@
            }),
    {
        let mut s = self;
        s.text_decoration.underline = style;
        s
    }

    /// Set the underline color.
    pub fn underline_color(self, color: Color) -> (r: Self)
        ensures
            r@ == (AttrsView {
                text_decoration: TextDecoration {
                    underline_color_opt: Some(color),
                    ..self@.text_decoration
                },
                ..self@
            }),
    {
        let mut s = self;
        s.text_decoration.underline_color_opt = Some(color);
        s
    }

    /// Draw a strikethrough.
    pub fn strikethrough(self) -> (r: Self)
        ensures
            r@ == (AttrsView {
                text_decoration: TextDecoration { strikethrough: true, ..self@.text_decoration },
                ..self@
            }),
    {
        let mut s = self;
        s.text_decoration.strikethrough = true;
        s
    }

    /// Set the strikethrough color.
    pub fn strikethrough_color(self, color: Color) -> (r: Self)
        ensures
            r@ == (AttrsView {
                text_decoration: TextDecoration {
                    strikethrough_color_opt: Some(color),
                    ..self@.text_decoration
                },
                ..self@
            }),
    {
        let mut s = self;
        s.text_decoration.strikethrough_color_opt = Some(color);
        s
    }

    /// Draw an overline.
    pub fn overline(self) -> (r: Self)
        ensures
            r@ == (AttrsView {
                text_decoration: TextDecoration { overline: true, ..self@.text_decoration },
                ..self@
            }),
    {
        let mut s = self;
        s.text_decoration.overline = true;
        s
    }

    /// Set the overline color.
    pub fn overline_color(self, color: Color) -> (r: Self)
        ensures
            r@ == (AttrsView {
                text_decoration: TextDecoration {
                    overline_color_opt: Some(color),
                    ..self@.text_decoration
                },
                ..self@
            }),
    {
        let mut s = self;
        s.text_decoration.overline_color_opt = Some(color);
        s
    }

    /// Check if this set of attributes can be shaped with another
    pub fn compatible(&self, other: &Self) -> (r: bool)
        ensures
            r == attrs_compatible(self@, other@),
    {
        self.family.same(&other.family) && self.stretch == other.stretch && self.style
            == other.style && self.weight == other.weight
    }
}

impl<'a> Attrs<'a> {
    /// Whether two sets of attributes are equal as `==` decides it (letter
    /// spacing compared by value).
    pub fn equivalent(&self, other: &Attrs) -> (r: bool)
        ensures
            r == attrs_equiv(self@, other@),
    {
        color_opt_eq(&self.color_opt, &other.color_opt) && self.family.same(&other.family)
            && self.stretch == other.stretch && self.style == other.style && self.weight
            == other.weight && self.metadata == other.metadata && flags_eq(
            &self.cache_key_flags,
            &other.cache_key_flags,
        ) && metrics_opt_eq(&self.metrics_opt, &other.metrics_opt) && spacing_opt_eq(
            &self.letter_spacing_opt,
            &other.letter_spacing_opt,
        ) && self.font_features.same(&other.font_features) && self.font_variations.same(
            &other.font_variations,
        ) && decoration_eq(&self.text_decoration, &other.text_decoration) && optical_size_eq(
            &self.optical_size,
            &other.optical_size,
        )
    }
}

impl<'a> PartialEq for Attrs<'a> {
    fn eq(&self, other: &Self) -> (r: bool) {
        self.equivalent(other)
    }
}

impl<'a> PartialEqSpecImpl for Attrs<'a> {
    open spec fn obeys_eq_spec() -> bool {
        true
    }

    open spec fn eq_spec(&self, other: &Attrs<'a>) -> bool {
        attrs_equiv(self@, other@)
    }
}

impl<'a> Eq for Attrs<'a> {}

/// Font-specific part of [`Attrs`] to be used for matching
#[derive(Clone, Debug, Hash)]
pub struct FontMatchAttrs {
    family: FamilyOwned,
    stretch: Stretch,
    style: Style,
    weight: Weight,
}

impl FontMatchAttrs {
    /// The family, stretch, style and weight held for matching.
    pub closed spec fn spec_parts(self) -> (FamilyModel, Stretch, Style, Weight) {
        (self.family.model(), self.stretch, self.style, self.weight)
    }

    /// The font-specific part of `attrs`.
    pub fn from_attrs(attrs: &Attrs) -> (r: Self)
        ensures
            r.spec_parts() == (attrs@.family, attrs@.stretch, attrs@.style, attrs@.weight),
    {
        FontMatchAttrs {
            family: FamilyOwned::new(attrs.family),
            stretch: attrs.stretch,
            style: attrs.style,
            weight: attrs.weight,
        }
    }
}

impl FontMatchAttrs {
    /// Whether two match keys hold the same family, stretch, style and weight.
    pub fn same(&self, other: &FontMatchAttrs) -> (r: bool)
        ensures
            r == (self.spec_parts() == other.spec_parts()),
    {
        self.family.same(&other.family) && self.stretch == other.stretch && self.style
            == other.style && self.weight == other.weight
    }
}

impl PartialEq for FontMatchAttrs {
    fn eq(&self, other: &Self) -> (r: bool) {
        self.same(other)
    }
}

impl PartialEqSpecImpl for FontMatchAttrs {
    open spec fn obeys_eq_spec() -> bool {
        true
    }

    open spec fn eq_spec(&self, other: &FontMatchAttrs) -> bool {
        self.spec_parts() == other.spec_parts()
    }
}

impl Eq for FontMatchAttrs {}

/// The match keys of two sets of attributes are equal exactly when the
/// attributes are compatible: the key keeps the family, stretch, style and
/// weight, and nothing else.
pub proof fn lemma_match_key_equal_iff_compatible(
    a: AttrsView,
    b: AttrsView,
    ka: FontMatchAttrs,
    kb: FontMatchAttrs,
)
    requires
        ka.spec_parts() == (a.family, a.stretch, a.style, a.weight),
        kb.spec_parts() == (b.family, b.stretch, b.style, b.weight),
    ensures
        (ka.spec_parts() == kb.spec_parts()) <==> attrs_compatible(a, b),
{
}

impl<'a> From<&Attrs<'a>> for FontMatchAttrs {
    /// The font-specific part of `attrs`; see [`FontMatchAttrs::from_attrs`].
    fn from(attrs: &Attrs<'a>) -> (r: Self)
        ensures
            r.spec_parts() == (attrs@.family, attrs@.stretch, attrs@.style, attrs@.weight),
    {
        FontMatchAttrs::from_attrs(attrs)
    }
}

/// A named family's `SmolStr` is fixed only up to its characters (a string
/// too long to be held inline is placed at an address of the allocator's
/// choosing), so no single value stands for the result of `from` and
/// `obeys_from_spec` is false; `from` states the parts of its result instead.
impl<'a> FromSpecImpl<&Attrs<'a>> for FontMatchAttrs {
    open spec fn obeys_from_spec() -> bool {
        false
    }

    open spec fn from_spec(attrs: &Attrs<'a>) -> FontMatchAttrs {
        choose|r: FontMatchAttrs|
            r.spec_parts() == (attrs@.family, attrs@.stretch, attrs@.style, attrs@.weight)
    }
}

/// An owned version of [`Attrs`]
#[derive(Clone, Debug, Hash)]
pub struct AttrsOwned {
    pub color_opt: Option<Color>,
    pub family_owned: FamilyOwned,
    pub stretch: Stretch,
    pub style: Style,
    pub weight: Weight,
    pub metadata: usize,
    pub cache_key_flags: CacheKeyFlags,
    pub metrics_opt: Option<CacheMetrics>,
    /// Letter spacing (tracking) in EM
    pub letter_spacing_opt: Option<LetterSpacing>,
    pub font_features: FontFeatures,
    pub font_variations: FontVariations,
    pub text_decoration: TextDecoration,
    pub optical_size: OpticalSize,
}

impl View for AttrsOwned {
    type V = AttrsView;

    open spec fn view(&self) -> AttrsView {
        AttrsView {
            color_opt: self.color_opt,
            family: self.family_owned.model(),
            stretch: self.stretch,
            style: self.style,
            weight: self.weight,
            metadata: self.metadata,
            cache_key_flags: self.cache_key_flags,
            metrics_opt: self.metrics_opt,
            letter_spacing_opt: self.letter_spacing_opt,
            font_features: self.font_features@,
            font_variations: self.font_variations@,
            text_decoration: self.text_decoration,
            optical_size: self.optical_size,
        }
    }
}

impl AttrsOwned {
    /// An owned copy of `attrs`.
    pub fn new(attrs: &Attrs) -> (r: Self)
        ensures
            r@ == attrs@,
    {
        AttrsOwned {
            color_opt: attrs.color_opt,
            family_owned: FamilyOwned::new(attrs.family),
            stretch: attrs.stretch,
            style: attrs.style,
            weight: attrs.weight,
            metadata: attrs.metadata,
            cache_key_flags: attrs.cache_key_flags,
            metrics_opt: attrs.metrics_opt,
            letter_spacing_opt: attrs.letter_spacing_opt,
            font_features: attrs.font_features.duplicate(),
            font_variations: attrs.font_variations.duplicate(),
            text_decoration: attrs.text_decoration,
            optical_size: attrs.optical_size,
        }
    }

    /// Borrowed attributes holding the same values.
    pub fn as_attrs(&self) -> (r: Attrs<'_>)
        ensures
            r@ == self@,
    {
        Attrs {
            color_opt: self.color_opt,
            family: self.family_owned.as_family(),
            stretch: self.stretch,
            style: self.style,
            weight: self.weight,
            metadata: self.metadata,
            cache_key_flags: self.cache_key_flags,
            metrics_opt: self.metrics_opt,
            letter_spacing_opt: self.letter_spacing_opt,
            font_features: self.font_features.duplicate(),
            font_variations: self.font_variations.duplicate(),
            text_decoration: self.text_decoration,
            optical_size: self.optical_size,
        }
    }
    /// Whether two owned attributes are equal as `==` decides it (letter
    /// spacing compared by value).
    pub fn equivalent(&self, other: &AttrsOwned) -> (r: bool)
        ensures
            r == attrs_equiv(self@, other@),
    {
        color_opt_eq(&self.color_opt, &other.color_opt) && self.family_owned.same(
            &other.family_owned,
        ) && self.stretch == other.stretch && self.style == other.style && self.weight
            == other.weight && self.metadata == other.metadata && flags_eq(
            &self.cache_key_flags,
            &other.cache_key_flags,
        ) && metrics_opt_eq(&self.metrics_opt, &other.metrics_opt) && spacing_opt_eq(
            &self.letter_spacing_opt,
            &other.letter_spacing_opt,
        ) && self.font_features.same(&other.font_features) && self.font_variations.same(
            &other.font_variations,
        ) && decoration_eq(&self.text_decoration, &other.text_decoration) && optical_size_eq(
            &self.optical_size,
            &other.optical_size,
        )
    }
}

impl PartialEq for AttrsOwned {
    fn eq(&self, other: &Self) -> (r: bool) {
        self.equivalent(other)
    }
}

impl PartialEqSpecImpl for AttrsOwned {
    open spec fn obeys_eq_spec() -> bool {
        true
    }

    open spec fn eq_spec(&self, other: &AttrsOwned) -> bool {
        attrs_equiv(self@, other@)
    }
}

impl Eq for AttrsOwned {}

/// Equality of attributes is an equivalence: reflexive, symmetric and transitive.
pub proof fn lemma_attrs_equiv(a: AttrsView, b: AttrsView, c: AttrsView)
    ensures
        attrs_equiv(a, a),
        attrs_equiv(a, b) ==> attrs_equiv(b, a),
        attrs_equiv(a, b) && attrs_equiv(b, c) ==> attrs_equiv(a, c),
{
    lemma_spacing_opt_key(a.letter_spacing_opt, b.letter_spacing_opt);
    lemma_spacing_opt_key(b.letter_spacing_opt, c.letter_spacing_opt);
    lemma_spacing_opt_key(a.letter_spacing_opt, c.letter_spacing_opt);
    lemma_spacing_opt_key(b.letter_spacing_opt, a.letter_spacing_opt);
    lemma_spacing_opt_key(a.letter_spacing_opt, a.letter_spacing_opt);
}

/// The canonical form of an optional spacing: the spacing's canonical bit pattern.
pub open spec fn spacing_opt_key(a: Option<LetterSpacing>) -> Option<u32> {
    match a {
        None => None,
        Some(x) => Some(crate::scalar::canonical_bits(x.0)),
    }
}

/// Optional spacings are equal exactly when their canonical forms are.
pub proof fn lemma_spacing_opt_key(a: Option<LetterSpacing>, b: Option<LetterSpacing>)
    ensures
        spacing_opt_same(a, b) == (spacing_opt_key(a) == spacing_opt_key(b)),
{
    match (a, b) {
        (Some(x), Some(y)) => crate::scalar::lemma_same_value_iff_canonical(x.0, y.0),
        _ => {},
    }
}

} // verus!
