use crate::attrs::{
    attrs_equiv, color_opt_eq, decoration_eq, flags_eq, metrics_opt_eq, optical_size_eq,
    spacing_opt_eq, spacing_opt_same, Attrs, AttrsOwned, AttrsView,
};
use crate::color::Color;
use crate::decoration::TextDecoration;
use crate::features::{Feature, FontFeatures, FontVariations, Variation};
use crate::font::{CacheKeyFlags, Family, FamilyModel, FamilyOwned, Stretch, Style, Weight};
use crate::scalar::{CacheMetrics, LetterSpacing, OpticalSize};
use vstd::prelude::*;
use vstd::std_specs::cmp::PartialEqSpecImpl;

verus! {

/// One field of an [`AttrsOverride`]: either inherit the value from
/// the line's defaults, or set it explicitly.
///
/// For fields whose underlying [`Attrs`] type is already `Option<T>` (e.g.
/// `color_opt: Option<Color>`), wrapping that `Option` inside `Override`
/// yields three states: `Inherit` uses the line defaults, `Value(None)` forces
/// the field to "none" (e.g. clears the color), `Value(Some(v))` sets it to `v`.
#[derive(Clone, Copy, Debug, Eq, Hash, PartialEq)]
pub enum Override<T> {
    /// Inherit this field from the line's default attributes.
    Inherit,
    /// Override this field with the contained value.
    Value(T),
}

impl<T> Default for Override<T> {
    fn default() -> (r: Self)
        ensures
            r is Inherit,
    {
        Override::Inherit
    }
}

impl<T> Override<T> {
    /// The contained value if set, otherwise `default`.
    pub open spec fn resolved(self, default: T) -> T {
        match self {
            Override::Inherit => default,
            Override::Value(v) => v,
        }
    }

    /// Returns `true` if this is a [`Value`](Self::Value) value.
    pub fn is_set(&self) -> (r: bool)
        ensures
            r == (*self is Value),
    {
        match self {
            Override::Value(_) => true,
            Override::Inherit => false,
        }
    }

    /// Returns `true` if this is [`Inherit`](Self::Inherit).
    pub fn is_inherit(&self) -> (r: bool)
        ensures
            r == (*self is Inherit),
    {
        match self {
            Override::Inherit => true,
            Override::Value(_) => false,
        }
    }

    /// Borrow the contained value if [`Value`](Self::Value).
    pub fn as_ref(&self) -> (r: Override<&T>)
        ensures
            (r is Value) == (*self is Value),
            r is Value ==> *r->0 == self->0,
    {
        match self {
            Override::Inherit => Override::Inherit,
            Override::Value(v) => Override::Value(v),
        }
    }

    /// Return the contained value if [`Value`](Self::Value), otherwise
    /// return the provided default.
    pub fn resolve_or(self, default: T) -> (r: T)
        ensures
            r == self.resolved(default),
    {
        match self {
            Override::Inherit => default,
            Override::Value(v) => v,
        }
    }
}

/// What a sparse override holds, with lists as sequences and the family as
/// its kind and name.
pub struct AttrsOverrideView {
    pub color: Override<Option<Color>>,
    pub metrics: Override<Option<CacheMetrics>>,
    pub letter_spacing: Override<Option<LetterSpacing>>,
    pub family: Override<FamilyModel>,
    pub stretch: Override<Stretch>,
    pub style: Override<Style>,
    pub weight: Override<Weight>,
    pub metadata: Override<usize>,
    pub cache_key_flags: Override<CacheKeyFlags>,
    pub font_features: Override<Seq<Feature>>,
    pub font_variations: Override<Seq<Variation>>,
    pub text_decoration: Override<TextDecoration>,
    pub optical_size: Override<OpticalSize>,
}

/// The override that inherits every field.
pub open spec fn inherit_all() -> AttrsOverrideView {
    AttrsOverrideView {
        color: Override::Inherit,
        metrics: Override::Inherit,
        letter_spacing: Override::Inherit,
        family: Override::Inherit,
        stretch: Override::Inherit,
        style: Override::Inherit,
        weight: Override::Inherit,
        metadata: Override::Inherit,
        cache_key_flags: Override::Inherit,
        font_features: Override::Inherit,
        font_variations: Override::Inherit,
        text_decoration: Override::Inherit,
        optical_size: Override::Inherit,
    }
}

/// `Inherit` where the two values are equal, otherwise `Value` of the second.
pub open spec fn diff_field<T>(default: T, value: T) -> Override<T> {
    if value == default {
        Override::Inherit
    } else {
        Override::Value(value)
    }
}

/// The sparse override that maps `defaults` to `attrs`: for each field,
/// `Inherit` when the two are equal, `Value` of the field of `attrs` otherwise.
pub open spec fn spec_diff(defaults: AttrsView, attrs: AttrsView) -> AttrsOverrideView {
    AttrsOverrideView {
        color: diff_field(defaults.color_opt, attrs.color_opt),
        metrics: diff_field(defaults.metrics_opt, attrs.metrics_opt),
        letter_spacing: if spacing_opt_same(attrs.letter_spacing_opt, defaults.letter_spacing_opt) {
            Override::Inherit
        } else {
            Override::Value(attrs.letter_spacing_opt)
        },
        family: diff_field(defaults.family, attrs.family),
        stretch: diff_field(defaults.stretch, attrs.stretch),
        style: diff_field(defaults.style, attrs.style),
        weight: diff_field(defaults.weight, attrs.weight),
        metadata: diff_field(defaults.metadata, attrs.metadata),
        cache_key_flags: diff_field(defaults.cache_key_flags, attrs.cache_key_flags),
        font_features: diff_field(defaults.font_features, attrs.font_features),
        font_variations: diff_field(defaults.font_variations, attrs.font_variations),
        text_decoration: diff_field(defaults.text_decoration, attrs.text_decoration),
        optical_size: diff_field(defaults.optical_size, attrs.optical_size),
    }
}

/// The complete attributes of `over` put on top of `defaults`: each set field
/// takes its value, each inherited field the value of `defaults`.
pub open spec fn spec_merge(over: AttrsOverrideView, defaults: AttrsView) -> AttrsView {
    AttrsView {
        color_opt: over.color.resolved(defaults.color_opt),
        family: over.family.resolved(defaults.family),
        stretch: over.stretch.resolved(defaults.stretch),
        style: over.style.resolved(defaults.style),
        weight: over.weight.resolved(defaults.weight),
        metadata: over.metadata.resolved(defaults.metadata),
        cache_key_flags: over.cache_key_flags.resolved(defaults.cache_key_flags),
        metrics_opt: over.metrics.resolved(defaults.metrics_opt),
        letter_spacing_opt: over.letter_spacing.resolved(defaults.letter_spacing_opt),
        font_features: over.font_features.resolved(defaults.font_features),
        font_variations: over.font_variations.resolved(defaults.font_variations),
        text_decoration: over.text_decoration.resolved(defaults.text_decoration),
        optical_size: over.optical_size.resolved(defaults.optical_size),
    }
}

/// Whether the override inherits every field.
pub open spec fn spec_is_empty(over: AttrsOverrideView) -> bool {
    over == inherit_all()
}

/// Whether two optional-spacing overrides are equal (spacings compared by value).
pub open spec fn spacing_override_same(
    a: Override<Option<LetterSpacing>>,
    b: Override<Option<LetterSpacing>>,
) -> bool {
    match (a, b) {
        (Override::Inherit, Override::Inherit) => true,
        (Override::Value(x), Override::Value(y)) => spacing_opt_same(x, y),
        _ => false,
    }
}

/// Equality of overrides as `==` decides it: every field equal, letter
/// spacing compared by value.
pub open spec fn override_equiv(a: AttrsOverrideView, b: AttrsOverrideView) -> bool {
    &&& (AttrsOverrideView { letter_spacing: Override::Inherit, ..a })
        == (AttrsOverrideView { letter_spacing: Override::Inherit, ..b })
    &&& spacing_override_same(a.letter_spacing, b.letter_spacing)
}

/// `Inherit` when the value is unchanged, otherwise the value.
fn changed_value<T>(unchanged: bool, value: T) -> (r: Override<T>)
    ensures
        r == (if unchanged {
            Override::Inherit
        } else {
            Override::Value(value)
        }),
{
    if unchanged {
        Override::Inherit
    } else {
        Override::Value(value)
    }
}

/// The family override mapping `defaults` to `attrs`.
fn diff_family(defaults: &Family, attrs: &Family) -> (r: Override<FamilyOwned>)
    ensures
        (match r {
            Override::Inherit => Override::Inherit,
            Override::Value(f) => Override::Value(f.model()),
        }) == diff_field(defaults.model(), attrs.model()),
{
    if attrs.same(defaults) {
        Override::Inherit
    } else {
        Override::Value(FamilyOwned::new(*attrs))
    }
}

/// The feature-list override mapping `defaults` to `attrs`.
fn diff_features(defaults: &FontFeatures, attrs: &FontFeatures) -> (r: Override<FontFeatures>)
    ensures
        (match r {
            Override::Inherit => Override::Inherit,
            Override::Value(f) => Override::Value(f@),
        }) == diff_field(defaults@, attrs@),
{
    if attrs.same(defaults) {
        Override::Inherit
    } else {
        Override::Value(attrs.duplicate())
    }
}

/// The variation-list override mapping `defaults` to `attrs`.
fn diff_variations(defaults: &FontVariations, attrs: &FontVariations) -> (r: Override<
    FontVariations,
>)
    ensures
        (match r {
            Override::Inherit => Override::Inherit,
            Override::Value(v) => Override::Value(v@),
        }) == diff_field(defaults@, attrs@),
{
    if attrs.same(defaults) {
        Override::Inherit
    } else {
        Override::Value(attrs.duplicate())
    }
}

/// A sparse override on top of an `AttrsList`'s default attributes.
///
/// Each field carries an [`Override<T>`] — either inheriting from the
/// line defaults or setting an explicit value. This lets per-span
/// overrides express *only* what differs from defaults, so changing
/// the line defaults automatically re-inherits for all unset fields.
#[derive(Clone, Debug, Hash)]
pub struct AttrsOverride {
    pub color: Override<Option<Color>>,
    pub metrics: Override<Option<CacheMetrics>>,
    pub letter_spacing: Override<Option<LetterSpacing>>,
    pub family: Override<FamilyOwned>,
    pub stretch: Override<Stretch>,
    pub style: Override<Style>,
    pub weight: Override<Weight>,
    pub metadata: Override<usize>,
    pub cache_key_flags: Override<CacheKeyFlags>,
    pub font_features: Override<FontFeatures>,
    pub font_variations: Override<FontVariations>,
    pub text_decoration: Override<TextDecoration>,
    pub optical_size: Override<OpticalSize>,
}

impl View for AttrsOverride {
    type V = AttrsOverrideView;

    open spec fn view(&self) -> AttrsOverrideView {
        AttrsOverrideView {
            color: self.color,
            metrics: self.metrics,
            letter_spacing: self.letter_spacing,
            family: match self.family {
                Override::Inherit => Override::Inherit,
                Override::Value(f) => Override::Value(f.model()),
            },
            stretch: self.stretch,
            style: self.style,
            weight: self.weight,
            metadata: self.metadata,
            cache_key_flags: self.cache_key_flags,
            font_features: match self.font_features {
                Override::Inherit => Override::Inherit,
                Override::Value(f) => Override::Value(f@),
            },
            font_variations: match self.font_variations {
                Override::Inherit => Override::Inherit,
                Override::Value(v) => Override::Value(v@),
            },
            text_decoration: self.text_decoration,
            optical_size: self.optical_size,
        }
    }
}

impl Default for AttrsOverride {
    fn default() -> (r: Self)
        ensures
            r@ == inherit_all(),
    {
        AttrsOverride::inherit()
    }
}

impl AttrsOverride {
    /// The override that inherits every field.
    pub fn inherit() -> (r: Self)
        ensures
            r@ == inherit_all(),
    {
        AttrsOverride {
            color: Override::Inherit,
            metrics: Override::Inherit,
            letter_spacing: Override::Inherit,
            family: Override::Inherit,
            stretch: Override::Inherit,
            style: Override::Inherit,
            weight: Override::Inherit,
            metadata: Override::Inherit,
            cache_key_flags: Override::Inherit,
            font_features: Override::Inherit,
            font_variations: Override::Inherit,
            text_decoration: Override::Inherit,
            optical_size: Override::Inherit,
        }
    }

    /// Compute the sparse override that maps `defaults` to `attrs`.
    ///
    /// For each field, returns [`Override::Inherit`] if the field is
    /// equal in both sides, [`Override::Value`] with the value from
    /// `attrs` otherwise.
    pub fn diff(defaults: &Attrs, attrs: &Attrs) -> (r: Self)
        ensures
            r@ == spec_diff(defaults@, attrs@),
    {
        let color = changed_value(
            color_opt_eq(&attrs.color_opt, &defaults.color_opt),
            attrs.color_opt,
        );
        let metrics = changed_value(
            metrics_opt_eq(&attrs.metrics_opt, &defaults.metrics_opt),
            attrs.metrics_opt,
        );
        let letter_spacing = changed_value(
            spacing_opt_eq(&attrs.letter_spacing_opt, &defaults.letter_spacing_opt),
            attrs.letter_spacing_opt,
        );
        let family = diff_family(&defaults.family, &attrs.family);
        let stretch = changed_value(attrs.stretch == defaults.stretch, attrs.stretch);
        let style = changed_value(attrs.style == defaults.style, attrs.style);
        let weight = changed_value(attrs.weight == defaults.weight, attrs.weight);
        let metadata = changed_value(attrs.metadata == defaults.metadata, attrs.metadata);
        let cache_key_flags = changed_value(
            flags_eq(&attrs.cache_key_flags, &defaults.cache_key_flags),
            attrs.cache_key_flags,
        );
        let font_features = diff_features(&defaults.font_features, &attrs.font_features);
        let font_variations = diff_variations(&defaults.font_variations, &attrs.font_variations);
        let text_decoration = changed_value(
            decoration_eq(&attrs.text_decoration, &defaults.text_decoration),
            attrs.text_decoration,
        );
        let optical_size = changed_value(
            optical_size_eq(&attrs.optical_size, &defaults.optical_size),
            attrs.optical_size,
        );
        AttrsOverride {
            color,
            metrics,
            letter_spacing,
            family,
            stretch,
            style,
            weight,
            metadata,
            cache_key_flags,
            font_features,
            font_variations,
            text_decoration,
            optical_size,
        }
    }

    /// Returns `true` if every field is [`Override::Inherit`] — i.e.
    /// the override has no effect against any defaults.
    pub fn is_empty(&self) -> (r: bool)
        ensures
            r == spec_is_empty(self@),
    {
        self.color.is_inherit() && self.metrics.is_inherit() && self.letter_spacing.is_inherit()
            && self.family.is_inherit() && self.stretch.is_inherit() && self.style.is_inherit()
            && self.weight.is_inherit() && self.metadata.is_inherit()
            && self.cache_key_flags.is_inherit() && self.font_features.is_inherit()
            && self.font_variations.is_inherit() && self.text_decoration.is_inherit()
            && self.optical_size.is_inherit()
    }

    /// Merge this override on top of `defaults`, producing a complete [`Attrs`].
    ///
    /// Fields set in `self` use their contained value; fields marked
    /// [`Override::Inherit`] take the corresponding value from `defaults`.
    pub fn merge<'a>(&'a self, defaults: &'a AttrsOwned) -> (r: Attrs<'a>)
        ensures
            r@ == spec_merge(self@, defaults@),
    {
        Attrs {
            color_opt: self.color.resolve_or(defaults.color_opt),
            metrics_opt: self.metrics.resolve_or(defaults.metrics_opt),
            letter_spacing_opt: self.letter_spacing.resolve_or(defaults.letter_spacing_opt),
            stretch: self.stretch.resolve_or(defaults.stretch),
            style: self.style.resolve_or(defaults.style),
            weight: self.weight.resolve_or(defaults.weight),
            metadata: self.metadata.resolve_or(defaults.metadata),
            cache_key_flags: self.cache_key_flags.resolve_or(defaults.cache_key_flags),
            text_decoration: self.text_decoration.resolve_or(defaults.text_decoration),
            optical_size: self.optical_size.resolve_or(defaults.optical_size),
            family: match &self.family {
                Override::Inherit => defaults.family_owned.as_family(),
                Override::Value(f) => f.as_family(),
            },
            font_features: match &self.font_features {
                Override::Inherit => defaults.font_features.duplicate(),
                Override::Value(f) => f.duplicate(),
            },
            font_variations: match &self.font_variations {
                Override::Inherit => defaults.font_variations.duplicate(),
                Override::Value(v) => v.duplicate(),
            },
        }
    }

    /// A copy holding the same values.
    pub fn duplicate(&self) -> (r: Self)
        ensures
            r@ == self@,
    {
        AttrsOverride {
            color: self.color,
            metrics: self.metrics,
            letter_spacing: self.letter_spacing,
            family: match &self.family {
                Override::Inherit => Override::Inherit,
                Override::Value(f) => Override::Value(f.duplicate()),
            },
            stretch: self.stretch,
            style: self.style,
            weight: self.weight,
            metadata: self.metadata,
            cache_key_flags: self.cache_key_flags,
            font_features: match &self.font_features {
                Override::Inherit => Override::Inherit,
                Override::Value(f) => Override::Value(f.duplicate()),
            },
            font_variations: match &self.font_variations {
                Override::Inherit => Override::Inherit,
                Override::Value(v) => Override::Value(v.duplicate()),
            },
            text_decoration: self.text_decoration,
            optical_size: self.optical_size,
        }
    }

    /// Whether two overrides are equal as `==` decides it (letter spacing
    /// compared by value).
    pub fn equivalent(&self, other: &Self) -> (r: bool)
        ensures
            r == override_equiv(self@, other@),
    {
        let color = match (&self.color, &other.color) {
            (Override::Inherit, Override::Inherit) => true,
            (Override::Value(a), Override::Value(b)) => color_opt_eq(a, b),
            _ => false,
        };
        let metrics = match (&self.metrics, &other.metrics) {
            (Override::Inherit, Override::Inherit) => true,
            (Override::Value(a), Override::Value(b)) => metrics_opt_eq(a, b),
            _ => false,
        };
        let spacing = match (&self.letter_spacing, &other.letter_spacing) {
            (Override::Inherit, Override::Inherit) => true,
            (Override::Value(a), Override::Value(b)) => spacing_opt_eq(a, b),
            _ => false,
        };
        let family = match (&self.family, &other.family) {
            (Override::Inherit, Override::Inherit) => true,
            (Override::Value(a), Override::Value(b)) => a.same(b),
            _ => false,
        };
        let stretch = match (&self.stretch, &other.stretch) {
            (Override::Inherit, Override::Inherit) => true,
            (Override::Value(a), Override::Value(b)) => *a == *b,
            _ => false,
        };
        let style = match (&self.style, &other.style) {
            (Override::Inherit, Override::Inherit) => true,
            (Override::Value(a), Override::Value(b)) => *a == *b,
            _ => false,
        };
        let weight = match (&self.weight, &other.weight) {
            (Override::Inherit, Override::Inherit) => true,
            (Override::Value(a), Override::Value(b)) => *a == *b,
            _ => false,
        };
        let metadata = match (&self.metadata, &other.metadata) {
            (Override::Inherit, Override::Inherit) => true,
            (Override::Value(a), Override::Value(b)) => *a == *b,
            _ => false,
        };
        let flags = match (&self.cache_key_flags, &other.cache_key_flags) {
            (Override::Inherit, Override::Inherit) => true,
            (Override::Value(a), Override::Value(b)) => flags_eq(a, b),
            _ => false,
        };
        let features = match (&self.font_features, &other.font_features) {
            (Override::Inherit, Override::Inherit) => true,
            (Override::Value(a), Override::Value(b)) => a.same(b),
            _ => false,
        };
        let variations = match (&self.font_variations, &other.font_variations) {
            (Override::Inherit, Override::Inherit) => true,
            (Override::Value(a), Override::Value(b)) => a.same(b),
            _ => false,
        };
        let decoration = match (&self.text_decoration, &other.text_decoration) {
            (Override::Inherit, Override::Inherit) => true,
            (Override::Value(a), Override::Value(b)) => decoration_eq(a, b),
            _ => false,
        };
        let optical = match (&self.optical_size, &other.optical_size) {
            (Override::Inherit, Override::Inherit) => true,
            (Override::Value(a), Override::Value(b)) => optical_size_eq(a, b),
            _ => false,
        };
        color && metrics && spacing && family && stretch && style && weight && metadata && flags
            && features && variations && decoration && optical
    }
}

impl PartialEq for AttrsOverride {
    fn eq(&self, other: &Self) -> (r: bool) {
        self.equivalent(other)
    }
}

impl PartialEqSpecImpl for AttrsOverride {
    open spec fn obeys_eq_spec() -> bool {
        true
    }

    open spec fn eq_spec(&self, other: &AttrsOverride) -> bool {
        override_equiv(self@, other@)
    }
}

impl Eq for AttrsOverride {}

/// Merging the difference from `defaults` back onto `defaults` gives
/// attributes equal to the ones the difference was taken from.
pub proof fn lemma_diff_merge_round_trip(defaults: AttrsView, attrs: AttrsView)
    ensures
        attrs_equiv(spec_merge(spec_diff(defaults, attrs), defaults), attrs),
{
    let m = spec_merge(spec_diff(defaults, attrs), defaults);
    assert(AttrsView { letter_spacing_opt: None, ..m } == AttrsView {
        letter_spacing_opt: None,
        ..attrs
    });
    crate::scalar::lemma_same_value_iff_canonical(0, 0);
    match (m.letter_spacing_opt, attrs.letter_spacing_opt) {
        (Some(x), Some(y)) => crate::scalar::lemma_same_value_iff_canonical(x.0, y.0),
        _ => {},
    }
}

/// The difference between equal attributes sets nothing.
pub proof fn lemma_diff_of_equal_is_empty(attrs: AttrsView)
    ensures
        spec_is_empty(spec_diff(attrs, attrs)),
{
    match attrs.letter_spacing_opt {
        Some(x) => crate::scalar::lemma_same_value_iff_canonical(x.0, x.0),
        None => {},
    }
}

/// The difference sets nothing exactly when the two attributes are equal.
pub proof fn lemma_diff_empty_iff_equal(defaults: AttrsView, attrs: AttrsView)
    ensures
        spec_is_empty(spec_diff(defaults, attrs)) <==> attrs_equiv(defaults, attrs),
{
    match (defaults.letter_spacing_opt, attrs.letter_spacing_opt) {
        (Some(x), Some(y)) => {
            crate::scalar::lemma_same_value_iff_canonical(x.0, y.0);
            crate::scalar::lemma_same_value_iff_canonical(y.0, x.0);
        },
        _ => {},
    }
    if spec_is_empty(spec_diff(defaults, attrs)) {
        assert(AttrsView { letter_spacing_opt: None, ..defaults } == AttrsView {
            letter_spacing_opt: None,
            ..attrs
        });
    }
}

/// An override that inherits everything resolves to the defaults.
pub proof fn lemma_merge_inherit_all(defaults: AttrsView)
    ensures
        spec_merge(inherit_all(), defaults) == defaults,
{
}

/// Putting an override on top of attributes it was already put on changes
/// nothing: applying a span twice is applying it once.
pub proof fn lemma_merge_idempotent(over: AttrsOverrideView, defaults: AttrsView)
    ensures
        spec_merge(over, spec_merge(over, defaults)) == spec_merge(over, defaults),
{
}

/// Equality of overrides is an equivalence: reflexive, symmetric and transitive.
pub proof fn lemma_override_equiv(a: AttrsOverrideView, b: AttrsOverrideView, c: AttrsOverrideView)
    ensures
        override_equiv(a, a),
        override_equiv(a, b) ==> override_equiv(b, a),
        override_equiv(a, b) && override_equiv(b, c) ==> override_equiv(a, c),
{
    lemma_spacing_same_equiv(a.letter_spacing);
    lemma_spacing_same_equiv(b.letter_spacing);
    lemma_spacing_same_equiv(c.letter_spacing);
}

/// Spacing overrides are equal exactly when their canonical forms are.
proof fn lemma_spacing_same_equiv(a: Override<Option<LetterSpacing>>)
    ensures
        forall|b: Override<Option<LetterSpacing>>|
            #![trigger spacing_override_same(a, b)]
            spacing_override_same(a, b) == (spacing_key(a) == spacing_key(b)),
{
    assert forall|b: Override<Option<LetterSpacing>>|
        #![trigger spacing_override_same(a, b)]
        spacing_override_same(a, b) == (spacing_key(a) == spacing_key(b)) by {
        match (a, b) {
            (Override::Value(Some(x)), Override::Value(Some(y))) => {
                crate::scalar::lemma_same_value_iff_canonical(x.0, y.0);
            },
            _ => {},
        }
    }
}

/// The canonical form of a spacing override: spacings by their canonical bit pattern.
pub open spec fn spacing_key(a: Override<Option<LetterSpacing>>) -> Override<Option<u32>> {
    match a {
        Override::Inherit => Override::Inherit,
        Override::Value(None) => Override::Value(None),
        Override::Value(Some(x)) => Override::Value(Some(crate::scalar::canonical_bits(x.0))),
    }
}

/// Equal overrides put on top of the same defaults give equal attributes.
pub proof fn lemma_merge_equiv(a: AttrsOverrideView, b: AttrsOverrideView, defaults: AttrsView)
    requires
        override_equiv(a, b),
    ensures
        attrs_equiv(spec_merge(a, defaults), spec_merge(b, defaults)),
{
    let ma = spec_merge(a, defaults);
    let mb = spec_merge(b, defaults);
    assert(AttrsView { letter_spacing_opt: None, ..ma } == AttrsView {
        letter_spacing_opt: None,
        ..mb
    });
    crate::attrs::lemma_attrs_equiv(defaults, defaults, defaults);
}

/// Equal overrides put on top of equal attributes give equal attributes.
pub proof fn lemma_merge_respects_equality(
    a: AttrsOverrideView,
    b: AttrsOverrideView,
    da: AttrsView,
    db: AttrsView,
)
    requires
        override_equiv(a, b),
        attrs_equiv(da, db),
    ensures
        attrs_equiv(spec_merge(a, da), spec_merge(b, db)),
{
    let ma = spec_merge(a, da);
    let mb = spec_merge(b, db);
    let na = AttrsView { letter_spacing_opt: None, ..da };
    let nb = AttrsView { letter_spacing_opt: None, ..db };
    assert(na.weight == nb.weight);
    assert(AttrsView { letter_spacing_opt: None, ..ma } == AttrsView {
        letter_spacing_opt: None,
        ..mb
    });
    crate::attrs::lemma_attrs_equiv(da, db, db);
}

} // verus!
