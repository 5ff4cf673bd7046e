use cosmic_attrs::{
    Attrs, AttrsList, AttrsOverride, AttrsOwned, CacheMetrics, Color, FamilyOwned, Override,
    Style, Weight,
};

fn metrics(font_size: f32, line_height: f32) -> CacheMetrics {
    CacheMetrics::from_bits(font_size.to_bits(), line_height.to_bits())
}

#[test]
fn override_default_is_inherit() {
    let o: Override<Weight> = Override::default();
    assert!(o.is_inherit());
    assert!(!o.is_set());
}

#[test]
fn override_resolve_or_falls_back_when_inherit() {
    let o: Override<Weight> = Override::Inherit;
    assert_eq!(o.resolve_or(Weight::BOLD()), Weight::BOLD());
}

#[test]
fn override_resolve_or_returns_set_value() {
    let o: Override<Weight> = Override::Value(Weight::NORMAL());
    assert_eq!(o.resolve_or(Weight::BOLD()), Weight::NORMAL());
}

#[test]
fn override_as_ref_borrows_set_value() {
    let o: Override<FamilyOwned> = Override::Value(FamilyOwned::SansSerif);
    match o.as_ref() {
        Override::Value(f) => assert_eq!(*f, FamilyOwned::SansSerif),
        Override::Inherit => panic!("expected Set"),
    }
}

#[test]
fn attrs_override_default_is_all_inherit() {
    let o = AttrsOverride::default();
    assert!(o.is_empty());
}

#[test]
fn diff_against_equal_attrs_is_empty() {
    let a = Attrs::new();
    let o = AttrsOverride::diff(&a, &a);
    assert!(o.is_empty());
}

#[test]
fn diff_against_different_weight_sets_weight_field() {
    let defaults = Attrs::new();
    let bold = Attrs::new().weight(Weight::BOLD());
    let o = AttrsOverride::diff(&defaults, &bold);
    assert!(!o.is_empty());
    assert_eq!(o.weight, Override::Value(Weight::BOLD()));
    // Other fields remain Inherit.
    assert!(o.color.is_inherit());
    assert!(o.style.is_inherit());
    assert!(o.metrics.is_inherit());
}

#[test]
fn diff_round_trip_preserves_semantic_equality() {
    let defaults_owned = AttrsOwned::new(&Attrs::new());
    let attrs = Attrs::new()
        .weight(Weight::BOLD())
        .style(Style::Italic)
        .metrics(metrics(20.0, 24.0));

    let over = AttrsOverride::diff(&defaults_owned.as_attrs(), &attrs);
    let merged = over.merge(&defaults_owned);

    assert_eq!(merged.weight, attrs.weight);
    assert_eq!(merged.style, attrs.style);
    assert_eq!(merged.metrics_opt, attrs.metrics_opt);
    // Untouched fields equal defaults.
    assert_eq!(merged.color_opt, defaults_owned.color_opt);
    assert_eq!(merged.family, defaults_owned.family_owned.as_family());
}

#[test]
fn set_span_style_then_change_defaults_inherits_new_size() {
    // Heading-like defaults: bold + size 32.
    let heading_attrs = Attrs::new()
        .weight(Weight::BOLD())
        .metrics(metrics(32.0, 38.0));
    let mut heading_list = AttrsList::new(&heading_attrs);

    // A span that explicitly sets only italic: bold and size stay Inherit.
    let italic_over = AttrsOverride {
        style: Override::Value(Style::Italic),
        ..Default::default()
    };
    heading_list.add_span(0..5, &italic_over);

    let resolved = heading_list.get_span(0);
    assert_eq!(resolved.weight, Weight::BOLD());
    assert_eq!(resolved.style, Style::Italic);
    assert!(resolved.metrics_opt.is_some());

    // Swap to body defaults and re-add the same override.
    let body_attrs = Attrs::new();
    let mut body_list = AttrsList::new(&body_attrs);
    body_list.add_span(0..5, &italic_over);

    let resolved = body_list.get_span(0);
    assert_eq!(resolved.weight, Weight::NORMAL());
    assert_eq!(resolved.style, Style::Italic);
    assert_eq!(resolved.metrics_opt, None);
}

#[test]
fn set_none_distinct_from_inherit_for_color() {
    let defaults_attrs = Attrs::new().color(Color(0xff_00_00_00));
    let defaults_owned = AttrsOwned::new(&defaults_attrs);

    let inherit_over = AttrsOverride::default();
    assert_eq!(
        inherit_over.merge(&defaults_owned).color_opt,
        Some(Color(0xff_00_00_00))
    );

    let clear_over = AttrsOverride {
        color: Override::Value(None),
        ..Default::default()
    };
    assert_eq!(clear_over.merge(&defaults_owned).color_opt, None);

    let set_over = AttrsOverride {
        color: Override::Value(Some(Color(0x00_00_ff_ff))),
        ..Default::default()
    };
    assert_eq!(
        set_over.merge(&defaults_owned).color_opt,
        Some(Color(0x00_00_ff_ff))
    );
}
