//! Text attributes: colors, font selection, OpenType features and variations,
//! decorations, sparse per-span overrides and the per-line attribute list.

pub mod attrs;
pub mod attrs_list;
pub mod color;
pub mod decoration;
pub mod features;
pub mod font;
pub mod overrides;
pub mod range_map;
pub mod scalar;

pub use color::Color;
pub use font::{CacheKeyFlags, Family, FamilyOwned, Stretch, Style, Weight};
pub use scalar::{CacheMetrics, LetterSpacing, OpticalSize};
pub use features::{Feature, FeatureTag, FontFeatures, FontVariations, Variation};
pub use decoration::{TextDecoration, UnderlineStyle};
pub use attrs::{Attrs, AttrsOwned, FontMatchAttrs};
pub use overrides::{AttrsOverride, Override};
pub use attrs_list::AttrsList;
