//! The core palette: six tonal palettes from which a color scheme is read.

use crate::palettes::tonal_palette::TonalPalette;
use vstd::prelude::*;

verus! {

/// Set of colors to generate a `CorePalette` from
#[derive(Clone, Copy, Debug)]
pub struct CorePaletteColors {
    pub primary: u32,
    pub secondary: Option<u32>,
    pub tertiary: Option<u32>,
    pub neutral: Option<u32>,
    pub neutral_variant: Option<u32>,
    pub error: Option<u32>,
}

/// An intermediate concept between the key color for a UI theme, and a full
/// color scheme. 5 sets of tones are generated, all except one use the same hue
/// as the key color, and all vary in chroma.
pub struct CorePalette<R: Fn(u32) -> u32> {
    pub a1: TonalPalette<R>,
    pub a2: TonalPalette<R>,
    pub a3: TonalPalette<R>,
    pub n1: TonalPalette<R>,
    pub n2: TonalPalette<R>,
    pub error: TonalPalette<R>,
}

/// Where a palette of a core palette takes its hue from.
#[derive(Clone, Copy, Debug, PartialEq, Eq, Structural)]
pub enum HueRule {
    /// The hue of the seed color, turned on by so many degrees.
    OfSeed { turn: u32 },
    /// A hue in degrees, whatever the seed color is.
    Fixed { degrees: u32 },
}

/// Where a palette of a core palette takes its chroma from.
#[derive(Clone, Copy, Debug, PartialEq, Eq, Structural)]
pub enum ChromaRule {
    /// The chroma of the seed color, divided by a number that is not zero.
    OfSeed { divisor: u32 },
    /// A chroma, whatever the seed color is.
    Fixed { chroma: u32 },
}

/// The hue and the chroma that one palette of a core palette is asked for.
#[derive(Clone, Copy, Debug, PartialEq, Eq, Structural)]
pub struct PaletteRule {
    pub hue: HueRule,
    pub chroma: ChromaRule,
}

/// The rules of the six palettes of a core palette.
#[derive(Clone, Copy, Debug, PartialEq, Eq, Structural)]
pub struct CoreRules {
    pub a1: PaletteRule,
    pub a2: PaletteRule,
    pub a3: PaletteRule,
    pub n1: PaletteRule,
    pub n2: PaletteRule,
    pub error: PaletteRule,
}

/// The rule of a palette that has the hue of the seed color, turned on by
/// `turn` degrees; its chroma is the seed color's divided by `divisor` in a
/// content palette, and `chroma` in a plain one.
pub open spec fn seeded_rule(is_content: bool, turn: u32, divisor: u32, chroma: u32) -> PaletteRule {
    PaletteRule {
        hue: HueRule::OfSeed { turn },
        chroma: if is_content {
            ChromaRule::OfSeed { divisor }
        } else {
            ChromaRule::Fixed { chroma }
        },
    }
}

/// The rules of a core palette, plain or content.
///
/// The accents have the chroma of the seed color, a third and half of it,
/// or else 48, 16 and 24, and the third accent is 60 degrees on from the
/// seed color. The neutrals have a fourth and a sixth of the chroma, or
/// else 4 and 8. The error palette is always of hue 25 and chroma 84.
pub open spec fn core_rules(is_content: bool) -> CoreRules {
    CoreRules {
        a1: seeded_rule(is_content, 0, 1, 48),
        a2: seeded_rule(is_content, 0, 3, 16),
        a3: seeded_rule(is_content, 60, 2, 24),
        n1: seeded_rule(is_content, 0, 4, 4),
        n2: seeded_rule(is_content, 0, 6, 8),
        error: PaletteRule {
            hue: HueRule::Fixed { degrees: 25 },
            chroma: ChromaRule::Fixed { chroma: 84 },
        },
    }
}

/// Whether a rule can be followed: it divides by no zero, and its angles
/// are less than a turn.
pub open spec fn rule_is_sound(rule: PaletteRule) -> bool {
    &&& rule.chroma matches ChromaRule::OfSeed { divisor } ==> divisor >= 1
    &&& rule.hue matches HueRule::OfSeed { turn } ==> turn < 360
    &&& rule.hue matches HueRule::Fixed { degrees } ==> degrees < 360
}

fn seeded(is_content: bool, turn: u32, divisor: u32, chroma: u32) -> (rule: PaletteRule)
    ensures
        rule == seeded_rule(is_content, turn, divisor, chroma),
{
    PaletteRule {
        hue: HueRule::OfSeed { turn },
        chroma: if is_content {
            ChromaRule::OfSeed { divisor }
        } else {
            ChromaRule::Fixed { chroma }
        },
    }
}

/// The hue and the chroma that each palette of a core palette is asked
/// for, given the seed color's.
pub fn core_palette_rules(is_content: bool) -> (rules: CoreRules)
    ensures
        rules == core_rules(is_content),
        rule_is_sound(rules.a1),
        rule_is_sound(rules.a2),
        rule_is_sound(rules.a3),
        rule_is_sound(rules.n1),
        rule_is_sound(rules.n2),
        rule_is_sound(rules.error),
{
    CoreRules {
        a1: seeded(is_content, 0, 1, 48),
        a2: seeded(is_content, 0, 3, 16),
        a3: seeded(is_content, 60, 2, 24),
        n1: seeded(is_content, 0, 4, 4),
        n2: seeded(is_content, 0, 6, 8),
        error: PaletteRule {
            hue: HueRule::Fixed { degrees: 25 },
            chroma: ChromaRule::Fixed { chroma: 84 },
        },
    }
}

/// Whether `make` takes every color and either kind, and gives only
/// well-formed core palettes.
pub open spec fn makes_core_palettes<R: Fn(u32) -> u32, M: Fn(u32, bool) -> CorePalette<R>>(
    make: M,
) -> bool {
    &&& forall|argb: u32, is_content: bool| #[trigger] make.requires((argb, is_content))
    &&& forall|argb: u32, is_content: bool, made: CorePalette<R>| #[trigger]
        make.ensures((argb, is_content), made) ==> made.wf()
}

/// Whether `part` is the first accent palette of a core palette that `make`
/// gives for the color `seed`, if there is one, and else is `kept`.
pub open spec fn accent_from<R: Fn(u32) -> u32, M: Fn(u32, bool) -> CorePalette<R>>(
    make: M,
    is_content: bool,
    seed: Option<u32>,
    kept: TonalPalette<R>,
    part: TonalPalette<R>,
) -> bool {
    match seed {
        Some(argb) => exists|made: CorePalette<R>| #[trigger]
            make.ensures((argb, is_content), made) && part == made.a1,
        None => part == kept,
    }
}

/// Whether `part` is the neutral palette of a core palette that `make`
/// gives for the color `seed`, if there is one, and else is `kept`.
pub open spec fn neutral_from<R: Fn(u32) -> u32, M: Fn(u32, bool) -> CorePalette<R>>(
    make: M,
    is_content: bool,
    seed: Option<u32>,
    kept: TonalPalette<R>,
    part: TonalPalette<R>,
) -> bool {
    match seed {
        Some(argb) => exists|made: CorePalette<R>| #[trigger]
            make.ensures((argb, is_content), made) && part == made.n1,
        None => part == kept,
    }
}

/// Whether `part` is the neutral variant palette of a core palette that
/// `make` gives for the color `seed`, if there is one, and else is `kept`.
pub open spec fn neutral_variant_from<R: Fn(u32) -> u32, M: Fn(u32, bool) -> CorePalette<R>>(
    make: M,
    is_content: bool,
    seed: Option<u32>,
    kept: TonalPalette<R>,
    part: TonalPalette<R>,
) -> bool {
    match seed {
        Some(argb) => exists|made: CorePalette<R>| #[trigger]
            make.ensures((argb, is_content), made) && part == made.n2,
        None => part == kept,
    }
}

/// Whether `palette` is put together from `colors` as a core palette is.
///
/// Its base is a core palette that `make` gives for the primary color, and
/// the first accent palette is the base's. The secondary, the tertiary and
/// the error color each put the first accent palette of a core palette of
/// their own in the place of the base's second accent, third accent and
/// error palette. The neutral and the neutral variant color each put the
/// neutral and the neutral variant palette of a core palette of their own
/// in the place of the base's.
pub open spec fn assembled<R: Fn(u32) -> u32, M: Fn(u32, bool) -> CorePalette<R>>(
    make: M,
    is_content: bool,
    colors: CorePaletteColors,
    palette: CorePalette<R>,
) -> bool {
    exists|base: CorePalette<R>| #[trigger]
        make.ensures((colors.primary, is_content), base) && {
            &&& palette.a1 == base.a1
            &&& accent_from(make, is_content, colors.secondary, base.a2, palette.a2)
            &&& accent_from(make, is_content, colors.tertiary, base.a3, palette.a3)
            &&& accent_from(make, is_content, colors.error, base.error, palette.error)
            &&& neutral_from(make, is_content, colors.neutral, base.n1, palette.n1)
            &&& neutral_variant_from(
                make,
                is_content,
                colors.neutral_variant,
                base.n2,
                palette.n2,
            )
        }
}

impl<R: Fn(u32) -> u32> CorePalette<R> {
    /// A core palette is well formed when its six palettes are.
    pub open spec fn wf(&self) -> bool {
        &&& self.a1.wf()
        &&& self.a2.wf()
        &&& self.a3.wf()
        &&& self.n1.wf()
        &&& self.n2.wf()
        &&& self.error.wf()
    }

    /// Whether this core palette is `before` with more tones rendered.
    pub open spec fn extends(&self, before: Self) -> bool {
        &&& self.a1.extends(before.a1)
        &&& self.a2.extends(before.a2)
        &&& self.a3.extends(before.a3)
        &&& self.n1.extends(before.n1)
        &&& self.n2.extends(before.n2)
        &&& self.error.extends(before.error)
    }

    /// Create a `CorePalette` from an ARGB color representation
    ///
    /// # Arguments
    ///
    /// * `argb` - ARGB representation of a color
    /// * `make` - gives the core palette of a color; the flag says whether
    ///   it is to be a content palette
    pub fn of<M: Fn(u32, bool) -> CorePalette<R>>(argb: u32, make: M) -> (palette: CorePalette<R>)
        requires
            makes_core_palettes(make),
        ensures
            palette.wf(),
            make.ensures((argb, false), palette),
    {
        make(argb, false)
    }

    /// Create a content `CorePalette` from an ARGB color representation
    ///
    /// # Arguments
    ///
    /// * `argb` - ARGB representation of a color
    /// * `make` - gives the core palette of a color; the flag says whether
    ///   it is to be a content palette
    pub fn content_of<M: Fn(u32, bool) -> CorePalette<R>>(argb: u32, make: M) -> (palette:
        CorePalette<R>)
        requires
            makes_core_palettes(make),
        ensures
            palette.wf(),
            make.ensures((argb, true), palette),
    {
        make(argb, true)
    }

    /// Create a `CorePalette` from a set of colors
    ///
    /// # Arguments
    ///
    /// * `colors` - Set of colors
    /// * `make` - gives the core palette of a color; the flag says whether
    ///   it is to be a content palette
    pub fn from_colors<M: Fn(u32, bool) -> CorePalette<R>>(
        colors: CorePaletteColors,
        make: M,
    ) -> (palette: CorePalette<R>)
        requires
            makes_core_palettes(make),
        ensures
            palette.wf(),
            assembled(make, false, colors, palette),
    {
        CorePalette::create_palette_from_colors(false, colors, make)
    }

    /// Create a content `CorePalette` from a set of colors
    ///
    /// # Arguments
    ///
    /// * `colors` - Set of colors
    /// * `make` - gives the core palette of a color; the flag says whether
    ///   it is to be a content palette
    pub fn content_from_colors<M: Fn(u32, bool) -> CorePalette<R>>(
        colors: CorePaletteColors,
        make: M,
    ) -> (palette: CorePalette<R>)
        requires
            makes_core_palettes(make),
        ensures
            palette.wf(),
            assembled(make, true, colors, palette),
    {
        CorePalette::create_palette_from_colors(true, colors, make)
    }

    fn create_palette_from_colors<M: Fn(u32, bool) -> CorePalette<R>>(
        content: bool,
        colors: CorePaletteColors,
        make: M,
    ) -> (palette: CorePalette<R>)
        requires
            makes_core_palettes(make),
        ensures
            palette.wf(),
            assembled(make, content, colors, palette),
    {
        let base = make(colors.primary, content);
        let ghost start = base;
        let CorePalette { a1, mut a2, mut a3, mut n1, mut n2, mut error } = base;
        if let Some(secondary) = colors.secondary {
            let p = make(secondary, content);
            a2 = p.a1;
        }
        if let Some(tertiary) = colors.tertiary {
            let p = make(tertiary, content);
            a3 = p.a1;
        }
        if let Some(seed) = colors.error {
            let p = make(seed, content);
            error = p.a1;
        }
        if let Some(neutral) = colors.neutral {
            let p = make(neutral, content);
            n1 = p.n1;
        }
        if let Some(neutral_variant) = colors.neutral_variant {
            let p = make(neutral_variant, content);
            n2 = p.n2;
        }
        let palette = CorePalette { a1, a2, a3, n1, n2, error };
        assert(make.ensures((colors.primary, content), start));
        palette
    }
}

} // verus!
