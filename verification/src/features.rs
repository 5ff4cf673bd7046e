use vstd::prelude::*;

verus! {

/// A 4-byte `OpenType` feature tag identifier
#[derive(Clone, Copy, Debug, Eq, Hash, PartialEq)]
pub struct FeatureTag(pub [u8; 4]);

impl FeatureTag {
    /// A tag with the given four bytes.
    pub fn new(tag: &[u8; 4]) -> (t: Self)
        ensures
            t.0 == *tag,
    {
        FeatureTag(*tag)
    }

    /// Kerning adjusts spacing between specific character pairs (`kern`)
    #[allow(non_snake_case)]
    pub fn KERNING() -> (t: Self)
        ensures
            t.0@ == seq![0x6bu8, 0x65, 0x72, 0x6e],
    {
        let t = FeatureTag([0x6bu8, 0x65, 0x72, 0x6e]);
        assert(t.0@ =~= seq![0x6bu8, 0x65, 0x72, 0x6e]);
        t
    }

    /// Standard ligatures (fi, fl, etc.) (`liga`)
    #[allow(non_snake_case)]
    pub fn STANDARD_LIGATURES() -> (t: Self)
        ensures
            t.0@ == seq![0x6cu8, 0x69, 0x67, 0x61],
    {
        let t = FeatureTag([0x6cu8, 0x69, 0x67, 0x61]);
        assert(t.0@ =~= seq![0x6cu8, 0x69, 0x67, 0x61]);
        t
    }

    /// Contextual ligatures (context-dependent ligatures) (`clig`)
    #[allow(non_snake_case)]
    pub fn CONTEXTUAL_LIGATURES() -> (t: Self)
        ensures
            t.0@ == seq![0x63u8, 0x6c, 0x69, 0x67],
    {
        let t = FeatureTag([0x63u8, 0x6c, 0x69, 0x67]);
        assert(t.0@ =~= seq![0x63u8, 0x6c, 0x69, 0x67]);
        t
    }

    /// Contextual alternates (glyph substitutions based on context) (`calt`)
    #[allow(non_snake_case)]
    pub fn CONTEXTUAL_ALTERNATES() -> (t: Self)
        ensures
            t.0@ == seq![0x63u8, 0x61, 0x6c, 0x74],
    {
        let t = FeatureTag([0x63u8, 0x61, 0x6c, 0x74]);
        assert(t.0@ =~= seq![0x63u8, 0x61, 0x6c, 0x74]);
        t
    }

    /// Discretionary ligatures (optional stylistic ligatures) (`dlig`)
    #[allow(non_snake_case)]
    pub fn DISCRETIONARY_LIGATURES() -> (t: Self)
        ensures
            t.0@ == seq![0x64u8, 0x6c, 0x69, 0x67],
    {
        let t = FeatureTag([0x64u8, 0x6c, 0x69, 0x67]);
        assert(t.0@ =~= seq![0x64u8, 0x6c, 0x69, 0x67]);
        t
    }

    /// Small caps (lowercase to small capitals) (`smcp`)
    #[allow(non_snake_case)]
    pub fn SMALL_CAPS() -> (t: Self)
        ensures
            t.0@ == seq![0x73u8, 0x6d, 0x63, 0x70],
    {
        let t = FeatureTag([0x73u8, 0x6d, 0x63, 0x70]);
        assert(t.0@ =~= seq![0x73u8, 0x6d, 0x63, 0x70]);
        t
    }

    /// All small caps (uppercase and lowercase to small capitals) (`c2sc`)
    #[allow(non_snake_case)]
    pub fn ALL_SMALL_CAPS() -> (t: Self)
        ensures
            t.0@ == seq![0x63u8, 0x32, 0x73, 0x63],
    {
        let t = FeatureTag([0x63u8, 0x32, 0x73, 0x63]);
        assert(t.0@ =~= seq![0x63u8, 0x32, 0x73, 0x63]);
        t
    }

    /// Stylistic Set 1 (font-specific alternate glyphs) (`ss01`)
    #[allow(non_snake_case)]
    pub fn STYLISTIC_SET_1() -> (t: Self)
        ensures
            t.0@ == seq![0x73u8, 0x73, 0x30, 0x31],
    {
        let t = FeatureTag([0x73u8, 0x73, 0x30, 0x31]);
        assert(t.0@ =~= seq![0x73u8, 0x73, 0x30, 0x31]);
        t
    }

    /// Stylistic Set 2 (font-specific alternate glyphs) (`ss02`)
    #[allow(non_snake_case)]
    pub fn STYLISTIC_SET_2() -> (t: Self)
        ensures
            t.0@ == seq![0x73u8, 0x73, 0x30, 0x32],
    {
        let t = FeatureTag([0x73u8, 0x73, 0x30, 0x32]);
        assert(t.0@ =~= seq![0x73u8, 0x73, 0x30, 0x32]);
        t
    }

    /// The four bytes of the tag.
    pub fn as_bytes(&self) -> (b: &[u8; 4])
        ensures
            *b == self.0,
    {
        &self.0
    }

    /// Whether two tags have the same bytes.
    pub fn same(&self, other: &Self) -> (r: bool)
        ensures
            r == (*self == *other),
    {
        let r = self.0[0] == other.0[0] && self.0[1] == other.0[1] && self.0[2] == other.0[2]
            && self.0[3] == other.0[3];
        proof {
            if r {
                assert(self.0 =~= other.0);
            }
        }
        r
    }
}

#[derive(Clone, Copy, Debug, Eq, Hash, PartialEq)]
pub struct Feature {
    pub tag: FeatureTag,
    pub value: u32,
}

/// An ordered list of OpenType feature settings; a later setting of a tag
/// takes precedence at shaping time.
#[derive(Clone, Debug, Default, Eq, Hash, PartialEq)]
pub struct FontFeatures {
    pub features: Vec<Feature>,
}

impl View for FontFeatures {
    type V = Seq<Feature>;

    open spec fn view(&self) -> Seq<Feature> {
        self.features@
    }
}

impl FontFeatures {
    /// An empty list of settings.
    pub fn new() -> (f: Self)
        ensures
            f@ == Seq::<Feature>::empty(),
    {
        FontFeatures { features: Vec::new() }
    }

    /// Append the setting `tag = value`.
    pub fn set(&mut self, tag: FeatureTag, value: u32) -> (r: &mut Self)
        ensures
            r@ == old(self)@.push(Feature { tag, value }),
            *final(self) == *final(r),
    {
        self.features.push(Feature { tag, value });
        self
    }

    /// Enable a feature (set to 1)
    pub fn enable(&mut self, tag: FeatureTag) -> (r: &mut Self)
        ensures
            r@ == old(self)@.push(Feature { tag, value: 1 }),
            *final(self) == *final(r),
    {
        self.set(tag, 1)
    }

    /// Disable a feature (set to 0)
    pub fn disable(&mut self, tag: FeatureTag) -> (r: &mut Self)
        ensures
            r@ == old(self)@.push(Feature { tag, value: 0 }),
            *final(self) == *final(r),
    {
        self.set(tag, 0)
    }

    /// A copy holding the same settings.
    pub fn duplicate(&self) -> (r: Self)
        ensures
            r@ == self@,
    {
        let mut v: Vec<Feature> = Vec::new();
        let n = self.features.len();
        for i in 0..n
            invariant
                n == self.features@.len(),
                v@ == self.features@.subrange(0, i as int),
        {
            v.push(self.features[i]);
            assert(v@ =~= self.features@.subrange(0, i + 1));
        }
        assert(v@ =~= self.features@);
        FontFeatures { features: v }
    }

    /// Whether two lists hold the same settings in the same order.
    pub fn same(&self, other: &Self) -> (r: bool)
        ensures
            r == (self@ == other@),
    {
        let n = self.features.len();
        if n != other.features.len() {
            return false;
        }
        for i in 0..n
            invariant
                n == self.features@.len(),
                n == other.features@.len(),
                forall|j: int| 0 <= j < i ==> self.features@[j] == other.features@[j],
        {
            let a = self.features[i];
            let b = other.features[i];
            if !(a.tag.same(&b.tag) && a.value == b.value) {
                return false;
            }
        }
        assert(self@ =~= other@);
        true
    }
}

/// A font variation axis setting (e.g. `wdth`, `slnt`, `GRAD`).
///
/// Each variation pairs a 4-byte OpenType axis tag with a continuous value,
/// held as the bit pattern of an `f32`; equality and hashing go by that pattern.
#[derive(Clone, Copy, Debug, Eq, Hash, PartialEq)]
pub struct Variation {
    pub tag: FeatureTag,
    pub value: u32,
}

/// A collection of font variation axis settings.
///
/// These control continuous axes on variable fonts (e.g. width, slant, grade).
/// `wght` and `opsz` are handled via dedicated `Weight` and `OpticalSize`
/// fields on `Attrs`. Use this for all other axes.
#[derive(Clone, Debug, Default, Eq, Hash, PartialEq)]
pub struct FontVariations {
    pub variations: Vec<Variation>,
}

impl View for FontVariations {
    type V = Seq<Variation>;

    open spec fn view(&self) -> Seq<Variation> {
        self.variations@
    }
}

/// The FNV-1a offset basis.
pub open spec fn fnv_offset() -> u64 {
    0xcbf2_9ce4_8422_2325u64
}

/// The FNV-1a 64-bit prime.
pub open spec fn fnv_prime() -> u64 {
    0x0100_0000_01b3u64
}

/// Multiplication modulo 2^64.
pub open spec fn mul_wrap(x: u64, y: u64) -> u64 {
    ((x as nat * y as nat) % 0x1_0000_0000_0000_0000nat) as u64
}

/// The tag's bytes read as a little-endian word.
pub open spec fn tag_word(t: FeatureTag) -> u64 {
    t.0[0] as u64 | (t.0[1] as u64) << 8u64 | (t.0[2] as u64) << 16u64 | (t.0[3] as u64) << 24u64
}

/// One round of the hash: mix in the tag word, then the value bits.
pub open spec fn hash_step(h: u64, v: Variation) -> u64 {
    mul_wrap(mul_wrap(h ^ tag_word(v.tag), fnv_prime()) ^ (v.value as u64), fnv_prime())
}

/// The FNV-1a hash of a list of variations, taken in order.
pub open spec fn variations_hash(s: Seq<Variation>) -> u64
    decreases s.len(),
{
    if s.len() == 0 {
        fnv_offset()
    } else {
        hash_step(variations_hash(s.drop_last()), s.last())
    }
}

impl FontVariations {
    /// An empty collection.
    pub fn new() -> (f: Self)
        ensures
            f@ == Seq::<Variation>::empty(),
    {
        FontVariations { variations: Vec::new() }
    }

    /// Set a variation axis to a value (the bit pattern of an `f32`).
    pub fn set(&mut self, tag: FeatureTag, value: u32) -> (r: &mut Self)
        ensures
            r@ == old(self)@.push(Variation { tag, value }),
            *final(self) == *final(r),
    {
        self.variations.push(Variation { tag, value });
        self
    }

    /// Compute a hash of all variations for use in fixed-size cache keys.
    ///
    /// Deterministic: the same variations always produce the same hash, since
    /// the hash is compared across shaping (font cache) and rendering (glyph
    /// cache) stages. FNV-1a over each tag word and value bit pattern.
    pub fn cache_hash(&self) -> (h: u64)
        ensures
            h == variations_hash(self@),
    {
        let mut h: u64 = 0xcbf2_9ce4_8422_2325u64;
        let n = self.variations.len();
        for i in 0..n
            invariant
                n == self@.len(),
                h == variations_hash(self@.subrange(0, i as int)),
        {
            let v = self.variations[i];
            let b = v.tag.as_bytes();
            let word: u64 = b[0] as u64 | (b[1] as u64) << 8u64 | (b[2] as u64) << 16u64
                | (b[3] as u64) << 24u64;
            h ^= word;
            h = h.wrapping_mul(0x0100_0000_01b3u64);
            h ^= v.value as u64;
            h = h.wrapping_mul(0x0100_0000_01b3u64);
            assert(self@.subrange(0, i + 1).drop_last() =~= self@.subrange(0, i as int));
        }
        assert(self@.subrange(0, n as int) =~= self@);
        h
    }

    /// A copy holding the same settings.
    pub fn duplicate(&self) -> (r: Self)
        ensures
            r@ == self@,
    {
        let mut v: Vec<Variation> = Vec::new();
        let n = self.variations.len();
        for i in 0..n
            invariant
                n == self.variations@.len(),
                v@ == self.variations@.subrange(0, i as int),
        {
            v.push(self.variations[i]);
            assert(v@ =~= self.variations@.subrange(0, i + 1));
        }
        assert(v@ =~= self.variations@);
        FontVariations { variations: v }
    }

    /// Whether two collections hold the same settings in the same order.
    pub fn same(&self, other: &Self) -> (r: bool)
        ensures
            r == (self@ == other@),
    {
        let n = self.variations.len();
        if n != other.variations.len() {
            return false;
        }
        for i in 0..n
            invariant
                n == self.variations@.len(),
                n == other.variations@.len(),
                forall|j: int| 0 <= j < i ==> self.variations@[j] == other.variations@[j],
        {
            let a = self.variations[i];
            let b = other.variations[i];
            if !(a.tag.same(&b.tag) && a.value == b.value) {
                return false;
            }
        }
        assert(self@ =~= other@);
        true
    }
}

/// Multiplying by the FNV prime modulo 2^64 is undone by multiplying by its
/// inverse, since the prime is odd.
proof fn lemma_prime_cancels(a: u64)
    ensures
        mul_wrap(mul_wrap(a, fnv_prime()), 0xce96_5057_aff6_957bu64) == a,
{
    let m: int = 0x1_0000_0000_0000_0000int;
    let p: int = 0x0100_0000_01b3int;
    let q: int = 0xce96_5057_aff6_957bint;
    let k: int = 887285111055int;
    let ai: int = a as int;
    let x: int = ai * p;
    assert(p * q == 1 + k * m);
    vstd::arithmetic::div_mod::lemma_mul_mod_noop_left(x, q, m);
    assert(x * q == m * (ai * k) + ai) by (nonlinear_arith)
        requires
            x == ai * p,
            p * q == 1 + k * m,
    ;
    vstd::arithmetic::div_mod::lemma_mod_multiples_vanish(ai * k, ai, m);
    vstd::arithmetic::div_mod::lemma_small_mod(a as nat, m as nat);
    assert(mul_wrap(a, fnv_prime()) as int == x % m);
}

/// Distinct words stay distinct when multiplied by the FNV prime modulo 2^64.
proof fn lemma_prime_injective(a: u64, b: u64)
    ensures
        mul_wrap(a, fnv_prime()) == mul_wrap(b, fnv_prime()) ==> a == b,
{
    lemma_prime_cancels(a);
    lemma_prime_cancels(b);
}

/// One round of the hash tells apart two settings of the same tag: from the
/// same state, values that differ in any bit lead to different states.
pub proof fn lemma_hash_step_tells_values_apart(h: u64, x: Variation, y: Variation)
    requires
        x.tag == y.tag,
    ensures
        hash_step(h, x) == hash_step(h, y) ==> x.value == y.value,
{
    let a = mul_wrap(h ^ tag_word(x.tag), fnv_prime());
    let (vx, vy) = (x.value, y.value);
    lemma_prime_injective(a ^ (vx as u64), a ^ (vy as u64));
    assert((a ^ (vx as u64)) == (a ^ (vy as u64)) ==> vx == vy) by (bit_vector);
}

/// The hash tells apart two lists that agree but for the value of their last
/// setting: every bit of a value reaches the hash.
pub proof fn lemma_variations_hash_tells_last_apart(s: Seq<Variation>, x: Variation, y: Variation)
    requires
        x.tag == y.tag,
        x.value != y.value,
    ensures
        variations_hash(s.push(x)) != variations_hash(s.push(y)),
{
    assert(s.push(x).drop_last() =~= s);
    assert(s.push(y).drop_last() =~= s);
    lemma_hash_step_tells_values_apart(variations_hash(s), x, y);
}

} // verus!
