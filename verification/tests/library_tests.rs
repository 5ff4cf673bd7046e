use cosmic_attrs::attrs::FontMatchAttrs;
use std::collections::hash_map::DefaultHasher;
use std::hash::{Hash, Hasher};
use cosmic_attrs::font::str_eq;
use cosmic_attrs::scalar::LetterSpacing;
use cosmic_attrs::{
    Attrs, AttrsList, AttrsOverride, AttrsOwned, CacheKeyFlags, CacheMetrics, Color, Family,
    FamilyOwned, FeatureTag, FontFeatures, FontVariations, OpticalSize, Override, Stretch, Style,
    TextDecoration, UnderlineStyle, Weight,
};

fn italic() -> AttrsOverride {
    AttrsOverride {
        style: Override::Value(Style::Italic),
        ..Default::default()
    }
}

fn bold() -> AttrsOverride {
    AttrsOverride {
        weight: Override::Value(Weight::BOLD()),
        ..Default::default()
    }
}

fn span_ranges(list: &AttrsList) -> Vec<(usize, usize)> {
    list.spans()
        .iter()
        .map(|(r, _)| (r.start, r.end))
        .collect()
}

#[test]
fn color_rgba_packs_components() {
    let c = Color::rgba(0x12, 0x34, 0x56, 0x78);
    assert_eq!(c.0, 0x7812_3456);
    assert_eq!(c.r(), 0x12);
    assert_eq!(c.g(), 0x34);
    assert_eq!(c.b(), 0x56);
    assert_eq!(c.a(), 0x78);
    assert_eq!(c.as_rgba_tuple(), (0x12, 0x34, 0x56, 0x78));
    assert_eq!(c.as_rgba(), [0x12, 0x34, 0x56, 0x78]);
}

#[test]
fn color_rgb_is_opaque() {
    let c = Color::rgb(0xFF, 0x00, 0x80);
    assert_eq!(c.0, 0xFFFF_0080);
    assert_eq!(c.a(), 0xFF);
}

#[test]
fn color_components_round_trip() {
    let c = Color(0xDEAD_BEEF);
    let (r, g, b, a) = c.as_rgba_tuple();
    assert_eq!(Color::rgba(r, g, b, a), c);
}

#[test]
fn feature_tags_hold_their_bytes() {
    assert_eq!(FeatureTag::KERNING().as_bytes(), b"kern");
    assert_eq!(FeatureTag::STANDARD_LIGATURES().as_bytes(), b"liga");
    assert_eq!(FeatureTag::CONTEXTUAL_LIGATURES().as_bytes(), b"clig");
    assert_eq!(FeatureTag::CONTEXTUAL_ALTERNATES().as_bytes(), b"calt");
    assert_eq!(FeatureTag::DISCRETIONARY_LIGATURES().as_bytes(), b"dlig");
    assert_eq!(FeatureTag::SMALL_CAPS().as_bytes(), b"smcp");
    assert_eq!(FeatureTag::ALL_SMALL_CAPS().as_bytes(), b"c2sc");
    assert_eq!(FeatureTag::STYLISTIC_SET_1().as_bytes(), b"ss01");
    assert_eq!(FeatureTag::STYLISTIC_SET_2().as_bytes(), b"ss02");
    assert_eq!(FeatureTag::new(b"wdth").as_bytes(), b"wdth");
}

#[test]
fn font_features_append_in_order() {
    let mut f = FontFeatures::new();
    f.enable(FeatureTag::KERNING())
        .disable(FeatureTag::STANDARD_LIGATURES())
        .set(FeatureTag::STYLISTIC_SET_1(), 3);
    let got: Vec<(&[u8; 4], u32)> = f.features.iter().map(|x| (x.tag.as_bytes(), x.value)).collect();
    assert_eq!(got, vec![(b"kern", 1), (b"liga", 0), (b"ss01", 3)]);
}

#[test]
fn cache_hash_is_fnv1a_over_tags_and_bits() {
    let mut v = FontVariations::new();
    assert_eq!(v.cache_hash(), 0xcbf2_9ce4_8422_2325);
    v.set(FeatureTag::new(b"wdth"), 100.0f32.to_bits());
    assert_eq!(v.cache_hash(), 0xf324_a34f_c95b_2222);
    v.set(FeatureTag::new(b"slnt"), (-10.0f32).to_bits());
    assert_eq!(v.cache_hash(), 0xfc74_9c87_f1fd_5df9);
    let mut w = FontVariations::new();
    w.set(FeatureTag::new(b"wdth"), 100.0f32.to_bits());
    w.set(FeatureTag::new(b"slnt"), (-10.0f32).to_bits());
    assert_eq!(v.cache_hash(), w.cache_hash());
}

#[test]
fn letter_spacing_equality_by_value() {
    let nan_a = LetterSpacing(f32::NAN.to_bits());
    let nan_b = LetterSpacing(0x7fc0_0001);
    assert_eq!(nan_a, nan_b);
    assert_eq!(LetterSpacing(0.0f32.to_bits()), LetterSpacing((-0.0f32).to_bits()));
    assert_ne!(LetterSpacing(1.0f32.to_bits()), LetterSpacing(2.0f32.to_bits()));
    assert_ne!(LetterSpacing(f32::NAN.to_bits()), LetterSpacing(1.0f32.to_bits()));
    assert_eq!(nan_b.canonical(), 0x7fc0_0000);
    assert_eq!(LetterSpacing((-0.0f32).to_bits()).canonical(), 0);
    assert_eq!(LetterSpacing(1.5f32.to_bits()).canonical(), 1.5f32.to_bits());
}

#[test]
fn optical_size_resolution() {
    let size = 14.0f32.to_bits();
    assert_eq!(OpticalSize::Auto.resolve(size), Some(size));
    assert_eq!(OpticalSize::Fixed(32.0f32.to_bits()).resolve(size), Some(32.0f32.to_bits()));
    assert_eq!(OpticalSize::Disabled.resolve(size), None);
    assert!(OpticalSize::Disabled.is_none());
    assert!(!OpticalSize::Auto.is_none());
    assert_eq!(OpticalSize::default(), OpticalSize::Disabled);
    assert!(OpticalSize::Auto < OpticalSize::Fixed(0));
    assert!(OpticalSize::Fixed(u32::MAX) < OpticalSize::Disabled);
    assert!(OpticalSize::Fixed(1) < OpticalSize::Fixed(2));
}

#[test]
fn decoration_presence() {
    let d = TextDecoration::new();
    assert!(!d.has_decoration());
    let u = TextDecoration { underline: UnderlineStyle::Double, ..d };
    assert!(u.has_decoration());
    let s = TextDecoration { strikethrough: true, ..d };
    assert!(s.has_decoration());
    let o = TextDecoration { overline: true, ..d };
    assert!(o.has_decoration());
    let colored = TextDecoration { underline_color_opt: Some(Color(1)), ..d };
    assert!(!colored.has_decoration());
}

#[test]
fn attrs_builders_set_one_field() {
    let a = Attrs::new()
        .color(Color(7))
        .family(Family::Name("Inter"))
        .stretch(Stretch::Condensed)
        .metadata(9)
        .cache_key_flags(CacheKeyFlags::FAKE_ITALIC())
        .letter_spacing(0.5f32.to_bits())
        .optical_sizing(true)
        .underline(UnderlineStyle::Single)
        .underline_color(Color(1))
        .strikethrough()
        .strikethrough_color(Color(2))
        .overline()
        .overline_color(Color(3));
    assert_eq!(a.color_opt, Some(Color(7)));
    assert_eq!(a.family, Family::Name("Inter"));
    assert_eq!(a.stretch, Stretch::Condensed);
    assert_eq!(a.metadata, 9);
    assert_eq!(a.cache_key_flags.bits(), 1);
    assert_eq!(a.letter_spacing_opt, Some(LetterSpacing(0.5f32.to_bits())));
    assert_eq!(a.optical_size, OpticalSize::Auto);
    assert_eq!(a.text_decoration.underline, UnderlineStyle::Single);
    assert_eq!(a.text_decoration.underline_color_opt, Some(Color(1)));
    assert!(a.text_decoration.strikethrough);
    assert_eq!(a.text_decoration.strikethrough_color_opt, Some(Color(2)));
    assert!(a.text_decoration.overline);
    assert_eq!(a.text_decoration.overline_color_opt, Some(Color(3)));
    assert_eq!(a.weight, Weight::NORMAL());
    assert_eq!(a.style, Style::Normal);
    let b = a.clone().optical_sizing(false).optical_size(OpticalSize::Fixed(5));
    assert_eq!(b.optical_size, OpticalSize::Fixed(5));
}

#[test]
fn attrs_new_defaults() {
    let a = Attrs::new();
    assert_eq!(a.family, Family::SansSerif);
    assert_eq!(a.weight, Weight(400));
    assert_eq!(a.stretch, Stretch::Normal);
    assert_eq!(a.color_opt, None);
    assert_eq!(a.cache_key_flags, CacheKeyFlags::empty());
    assert_eq!(a.optical_size, OpticalSize::Disabled);
    assert!(a.font_features.features.is_empty());
}

#[test]
fn compatible_compares_font_selection_only() {
    let a = Attrs::new().color(Color(1)).metadata(3);
    let b = Attrs::new().color(Color(2));
    assert!(a.compatible(&b));
    assert!(!a.compatible(&Attrs::new().weight(Weight::BOLD())));
    assert!(!a.compatible(&Attrs::new().family(Family::Name("Mono"))));
    assert!(Attrs::new().family(Family::Name("Mono")).compatible(&Attrs::new().family(Family::Name("Mono"))));
}

#[test]
fn owned_attrs_round_trip() {
    let mut features = FontFeatures::new();
    features.enable(FeatureTag::KERNING());
    let a = Attrs::new()
        .family(Family::Name("Fira Sans"))
        .weight(Weight::SEMIBOLD())
        .font_features(features);
    let owned = AttrsOwned::new(&a);
    assert_eq!(owned.family_owned, FamilyOwned::new(Family::Name("Fira Sans")));
    assert_eq!(owned.as_attrs(), a);
}

#[test]
fn family_owned_round_trip_and_equality() {
    let f = FamilyOwned::new(Family::Name("Noto"));
    assert_eq!(f.as_family(), Family::Name("Noto"));
    assert!(f.same(&FamilyOwned::new(Family::Name("Noto"))));
    assert!(!f.same(&FamilyOwned::Serif));
    assert_eq!(FamilyOwned::new(Family::Monospace).as_family(), Family::Monospace);
    assert!(str_eq("abc", "abc"));
    assert!(!str_eq("abc", "abd"));
}

#[test]
fn diff_sets_letter_spacing_only_when_value_differs() {
    let d = Attrs::new().letter_spacing(0.0f32.to_bits());
    let a = Attrs::new().letter_spacing((-0.0f32).to_bits());
    assert!(AttrsOverride::diff(&d, &a).is_empty());
    let b = Attrs::new().letter_spacing(1.0f32.to_bits());
    let o = AttrsOverride::diff(&d, &b);
    assert_eq!(o.letter_spacing, Override::Value(Some(LetterSpacing(1.0f32.to_bits()))));
}

#[test]
fn diff_family_and_features() {
    let d = Attrs::new();
    let mut features = FontFeatures::new();
    features.disable(FeatureTag::KERNING());
    let a = Attrs::new().family(Family::Name("Serifa")).font_features(features.clone());
    let o = AttrsOverride::diff(&d, &a);
    assert_eq!(o.family, Override::Value(FamilyOwned::new(Family::Name("Serifa"))));
    assert_eq!(o.font_features, Override::Value(features));
    assert!(o.font_variations.is_inherit());
    let merged_owner = AttrsOwned::new(&d);
    assert_eq!(o.merge(&merged_owner), a);
}

#[test]
fn override_equivalence() {
    let a = AttrsOverride {
        letter_spacing: Override::Value(Some(LetterSpacing(0))),
        ..Default::default()
    };
    let b = AttrsOverride {
        letter_spacing: Override::Value(Some(LetterSpacing(0x8000_0000))),
        ..Default::default()
    };
    assert!(a.equivalent(&b));
    assert!(!a.equivalent(&italic()));
    assert!(a.duplicate().equivalent(&a));
}

#[test]
fn add_span_then_read_back() {
    let mut list = AttrsList::new(&Attrs::new());
    list.add_span(2..6, &bold());
    assert_eq!(list.get_span(1).weight, Weight::NORMAL());
    assert_eq!(list.get_span(2).weight, Weight::BOLD());
    assert_eq!(list.get_span(5).weight, Weight::BOLD());
    assert_eq!(list.get_span(6).weight, Weight::NORMAL());
    assert_eq!(span_ranges(&list), vec![(2, 6)]);
}

#[test]
fn add_span_empty_or_reversed_range_is_ignored() {
    let mut list = AttrsList::new(&Attrs::new());
    list.add_span(3..3, &bold());
    #[allow(clippy::reversed_empty_ranges)]
    list.add_span(5..2, &bold());
    assert!(list.spans().is_empty());
    assert_eq!(list, AttrsList::new(&Attrs::new()));
}

#[test]
fn touching_equal_spans_coalesce() {
    let mut list = AttrsList::new(&Attrs::new());
    list.add_span(0..3, &bold());
    list.add_span(3..5, &bold());
    assert_eq!(span_ranges(&list), vec![(0, 5)]);
    list.add_span(5..7, &italic());
    assert_eq!(span_ranges(&list), vec![(0, 5), (5, 7)]);
}

#[test]
fn overlapping_span_replaces_part_of_another() {
    let mut list = AttrsList::new(&Attrs::new());
    list.add_span(0..10, &bold());
    list.add_span(3..5, &italic());
    assert_eq!(span_ranges(&list), vec![(0, 3), (3, 5), (5, 10)]);
    assert_eq!(list.get_span(4).style, Style::Italic);
    assert_eq!(list.get_span(4).weight, Weight::NORMAL());
    assert_eq!(list.get_span(7).weight, Weight::BOLD());
    let spans = list.spans();
    assert!(spans[0].1.equivalent(&bold()));
    assert!(spans[1].1.equivalent(&italic()));
}

#[test]
fn add_span_from_attrs_diffs_against_defaults() {
    let defaults = Attrs::new().weight(Weight::BOLD());
    let mut list = AttrsList::new(&defaults);
    list.add_span_from_attrs(1..4, &Attrs::new().weight(Weight::BOLD()).style(Style::Oblique));
    let spans = list.spans();
    assert_eq!(spans.len(), 1);
    assert!(spans[0].1.weight.is_inherit());
    assert_eq!(spans[0].1.style, Override::Value(Style::Oblique));
    assert_eq!(list.get_span(2).style, Style::Oblique);
    assert_eq!(list.get_span(2).weight, Weight::BOLD());
}

#[test]
fn clear_spans_and_reset() {
    let mut list = AttrsList::new(&Attrs::new().weight(Weight::LIGHT()));
    list.add_span(0..4, &italic());
    list.clear_spans();
    assert!(list.spans().is_empty());
    assert_eq!(list.get_span(1).style, Style::Normal);
    assert_eq!(list.defaults().weight, Weight::LIGHT());
    list.add_span(0..4, &italic());
    let list = list.reset(&Attrs::new().weight(Weight::BLACK()));
    assert!(list.spans().is_empty());
    assert_eq!(list.defaults().weight, Weight::BLACK());
}

#[test]
fn split_off_partitions_spans() {
    let mut list = AttrsList::new(&Attrs::new());
    list.add_span(0..3, &bold());
    list.add_span(4..10, &italic());
    list.add_span(12..14, &bold());
    let tail = list.split_off(6);
    assert_eq!(span_ranges(&list), vec![(0, 3), (4, 6)]);
    assert_eq!(span_ranges(&tail), vec![(0, 4), (6, 8)]);
    assert_eq!(tail.get_span(0).style, Style::Italic);
    assert_eq!(tail.get_span(7).weight, Weight::BOLD());
    assert_eq!(tail.get_span(5).weight, Weight::NORMAL());
    assert_eq!(list.get_span(7).style, Style::Normal);
    assert_eq!(tail.defaults(), list.defaults());
}

#[test]
fn split_off_at_zero_moves_everything() {
    let mut list = AttrsList::new(&Attrs::new());
    list.add_span(1..2, &bold());
    let tail = list.split_off(0);
    assert!(list.spans().is_empty());
    assert_eq!(span_ranges(&tail), vec![(1, 2)]);
}

#[test]
fn list_equality_and_clone() {
    let mut a = AttrsList::new(&Attrs::new());
    a.add_span(0..2, &bold());
    let b = a.clone();
    assert_eq!(a, b);
    let mut c = AttrsList::new(&Attrs::new());
    c.add_span(0..2, &italic());
    c.add_span(0..2, &bold());
    assert_eq!(a, c);
    c.add_span(5..6, &bold());
    assert_ne!(a, c);
    assert_ne!(a, AttrsList::new(&Attrs::new().weight(Weight::BOLD())));
}

#[test]
fn font_match_attrs_take_font_part() {
    let a = Attrs::new().family(Family::Name("X")).color(Color(5));
    let b = Attrs::new().family(Family::Name("X")).color(Color(6));
    assert_eq!(FontMatchAttrs::from_attrs(&a), FontMatchAttrs::from_attrs(&b));
    assert_ne!(
        FontMatchAttrs::from_attrs(&a),
        FontMatchAttrs::from_attrs(&Attrs::new())
    );
}

#[test]
fn cache_metrics_and_flags() {
    let m = CacheMetrics::from_bits(14.0f32.to_bits(), 20.0f32.to_bits());
    assert_eq!(m.font_size_bits(), 14.0f32.to_bits());
    assert_eq!(m.line_height_bits(), 20.0f32.to_bits());
    let f = CacheKeyFlags::FAKE_ITALIC().union(CacheKeyFlags::PIXEL_FONT());
    assert_eq!(f.bits(), 5);
    assert!(f.contains(CacheKeyFlags::PIXEL_FONT()));
    assert!(!f.contains(CacheKeyFlags::DISABLE_HINTING()));
    assert_eq!(CacheKeyFlags::from_bits_retain(2), CacheKeyFlags::DISABLE_HINTING());
}

#[test]
fn weights_and_defaults() {
    assert_eq!(Weight::THIN().0, 100);
    assert_eq!(Weight::EXTRA_LIGHT().0, 200);
    assert_eq!(Weight::MEDIUM().0, 500);
    assert_eq!(Weight::EXTRA_BOLD().0, 800);
    assert_eq!(Weight::default(), Weight::NORMAL());
    assert_eq!(Style::default(), Style::Normal);
    assert_eq!(Stretch::default(), Stretch::Normal);
    assert_eq!(UnderlineStyle::default(), UnderlineStyle::Disabled);
}

#[test]
fn merge_twice_is_merge_once() {
    let defaults = AttrsOwned::new(&Attrs::new().weight(Weight::LIGHT()).color(Color(9)));
    let over = AttrsOverride {
        color: Override::Value(None),
        style: Override::Value(Style::Oblique),
        ..Default::default()
    };
    let once = over.merge(&defaults);
    let once_owned = AttrsOwned::new(&once);
    let twice = over.merge(&once_owned);
    assert_eq!(twice, once);
    assert_eq!(twice.weight, Weight::LIGHT());
    assert_eq!(twice.color_opt, None);
}

#[test]
fn equal_spacings_hash_alike() {
    let a = LetterSpacing(f32::NAN.to_bits());
    let b = LetterSpacing(0xffc0_1234);
    assert_eq!(a, b);
    assert_eq!(a.canonical(), b.canonical());
    assert_eq!(h(a), h(b));
    assert_eq!(h(LetterSpacing(0)), h(LetterSpacing(0x8000_0000)));
}

fn h(x: LetterSpacing) -> u64 {
    let mut s = DefaultHasher::new();
    x.hash(&mut s);
    s.finish()
}

fn spacing(bits: u32) -> AttrsOverride {
    AttrsOverride {
        letter_spacing: Override::Value(Some(LetterSpacing(bits))),
        ..Default::default()
    }
}

#[test]
fn equal_span_elsewhere_keeps_its_own_override() {
    let mut list = AttrsList::new(&Attrs::new());
    list.add_span(0..2, &spacing(0));
    list.add_span(5..7, &spacing(0x8000_0000));
    let spans = list.spans();
    assert_eq!(spans.len(), 2);
    assert_eq!(spans[0].1.letter_spacing, Override::Value(Some(LetterSpacing(0))));
    assert_eq!(
        spans[1].1.letter_spacing,
        Override::Value(Some(LetterSpacing(0x8000_0000)))
    );
    assert_eq!(list.get_span(0).letter_spacing_opt.map(|l| l.0), Some(0));
    assert_eq!(list.get_span(6).letter_spacing_opt.map(|l| l.0), Some(0x8000_0000));
}

#[test]
fn touching_equal_spans_join_and_take_new_override() {
    let mut list = AttrsList::new(&Attrs::new());
    list.add_span(0..2, &spacing(0));
    list.add_span(5..7, &spacing(0));
    list.add_span(2..5, &spacing(0x8000_0000));
    assert_eq!(span_ranges(&list), vec![(0, 7)]);
    assert_eq!(list.get_span(0).letter_spacing_opt.map(|l| l.0), Some(0x8000_0000));
    assert_eq!(list.get_span(6).letter_spacing_opt.map(|l| l.0), Some(0x8000_0000));
}

#[test]
fn many_additions_keep_spans_right() {
    let mut list = AttrsList::new(&Attrs::new());
    for i in 0..200usize {
        let over = if i % 2 == 0 { bold() } else { italic() };
        list.add_span(i % 7..i % 7 + 3, &over);
    }
    // the last addition (i = 199, italic) covers 3..6
    assert_eq!(list.get_span(4).style, Style::Italic);
    let spans = list.spans();
    for w in spans.windows(2) {
        assert!(w[0].0.end <= w[1].0.start);
        if w[0].0.end == w[1].0.start {
            assert!(!w[0].1.equivalent(w[1].1));
        }
    }
    let mut fresh = AttrsList::new(&Attrs::new());
    for (r, o) in spans.iter() {
        fresh.add_span(r.clone(), o);
    }
    assert_eq!(fresh, list);
}

#[test]
fn font_match_attrs_from_attrs_ref() {
    let a = Attrs::new().family(Family::Name("X")).weight(Weight::BOLD());
    assert_eq!(FontMatchAttrs::from(&a), FontMatchAttrs::from_attrs(&a));
}

#[test]
fn match_keys_equal_exactly_when_compatible() {
    let a = Attrs::new().family(Family::Name("Inter")).color(Color(1)).metadata(4);
    let b = Attrs::new().family(Family::Name("Inter")).letter_spacing(1.0f32.to_bits());
    let c = Attrs::new().family(Family::Name("Inter")).style(Style::Italic);
    assert!(a.compatible(&b));
    assert_eq!(FontMatchAttrs::from(&a), FontMatchAttrs::from(&b));
    assert!(!a.compatible(&c));
    assert_ne!(FontMatchAttrs::from(&a), FontMatchAttrs::from(&c));
}

#[test]
fn attrs_equality_compares_spacing_by_value() {
    let a = Attrs::new().letter_spacing(0.0f32.to_bits());
    let b = Attrs::new().letter_spacing((-0.0f32).to_bits());
    assert_eq!(a, b);
    assert_eq!(AttrsOwned::new(&a), AttrsOwned::new(&b));
    assert_ne!(a, Attrs::new());
    assert_eq!(spacing(0), spacing(0x8000_0000));
    assert_ne!(spacing(0), bold());
}
