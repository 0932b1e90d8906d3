use material_color_utilities::palettes::{
    core_palette_rules, ChromaRule, CorePalette, CorePaletteColors, HueRule, PaletteRule,
    TonalPalette,
};
use std::cell::RefCell;

// A renderer that tells which palette it belongs to: the seed color in the
// upper bits, the place in the core palette and the tone below.
fn tagged_renderer(seed: u32, place: u32) -> impl Fn(u32) -> u32 {
    move |tone: u32| (seed << 16) | (place << 8) | tone
}

fn tagged_core(seed: u32, is_content: bool) -> CorePalette<impl Fn(u32) -> u32> {
    let kind = if is_content { 0x8000 } else { 0 };
    let seed = seed | kind;
    CorePalette {
        a1: TonalPalette::new(seed * 10 + 1, tagged_renderer(seed, 1)),
        a2: TonalPalette::new(seed * 10 + 2, tagged_renderer(seed, 2)),
        a3: TonalPalette::new(seed * 10 + 3, tagged_renderer(seed, 3)),
        n1: TonalPalette::new(seed * 10 + 4, tagged_renderer(seed, 4)),
        n2: TonalPalette::new(seed * 10 + 5, tagged_renderer(seed, 5)),
        error: TonalPalette::new(seed * 10 + 6, tagged_renderer(seed, 6)),
    }
}

fn keys_of<R: Fn(u32) -> u32>(core: &CorePalette<R>) -> [u32; 6] {
    [
        core.a1.key_color(),
        core.a2.key_color(),
        core.a3.key_color(),
        core.n1.key_color(),
        core.n2.key_color(),
        core.error.key_color(),
    ]
}

fn only_primary(primary: u32) -> CorePaletteColors {
    CorePaletteColors {
        primary,
        secondary: None,
        tertiary: None,
        neutral: None,
        neutral_variant: None,
        error: None,
    }
}

#[test]
fn of_makes_a_plain_core_palette_of_the_color() {
    let asked = RefCell::new(Vec::new());
    let core = CorePalette::of(7, |argb, is_content| {
        asked.borrow_mut().push((argb, is_content));
        tagged_core(argb, is_content)
    });
    assert_eq!(asked.into_inner(), vec![(7, false)]);
    assert_eq!(keys_of(&core), [71, 72, 73, 74, 75, 76]);
}

#[test]
fn content_of_makes_a_content_core_palette_of_the_color() {
    let asked = RefCell::new(Vec::new());
    let core = CorePalette::content_of(7, |argb, is_content| {
        asked.borrow_mut().push((argb, is_content));
        tagged_core(argb, is_content)
    });
    assert_eq!(asked.into_inner(), vec![(7, true)]);
    assert_eq!(keys_of(&core)[0], (7 | 0x8000) * 10 + 1);
}

#[test]
fn from_colors_with_only_a_primary_color_is_the_primary_core_palette() {
    let core = CorePalette::from_colors(only_primary(3), tagged_core);
    assert_eq!(keys_of(&core), [31, 32, 33, 34, 35, 36]);
}

#[test]
fn from_colors_puts_each_color_in_its_place() {
    let colors = CorePaletteColors {
        primary: 1,
        secondary: Some(2),
        tertiary: Some(3),
        neutral: Some(4),
        neutral_variant: Some(5),
        error: Some(6),
    };
    let mut core = CorePalette::from_colors(colors, tagged_core);
    // a2, a3 and error are first accent palettes; n1 and n2 keep their kind.
    assert_eq!(keys_of(&core), [11, 21, 31, 44, 55, 61]);
    assert_eq!(core.a1.tone(40), (1 << 16) | (1 << 8) | 40);
    assert_eq!(core.a2.tone(40), (2 << 16) | (1 << 8) | 40);
    assert_eq!(core.a3.tone(40), (3 << 16) | (1 << 8) | 40);
    assert_eq!(core.n1.tone(40), (4 << 16) | (4 << 8) | 40);
    assert_eq!(core.n2.tone(40), (5 << 16) | (5 << 8) | 40);
    assert_eq!(core.error.tone(40), (6 << 16) | (1 << 8) | 40);
}

#[test]
fn from_colors_keeps_the_primary_palettes_where_no_color_is_given() {
    let colors = CorePaletteColors {
        primary: 1,
        secondary: Some(2),
        tertiary: None,
        neutral: None,
        neutral_variant: Some(5),
        error: None,
    };
    let core = CorePalette::from_colors(colors, tagged_core);
    assert_eq!(keys_of(&core), [11, 21, 13, 14, 55, 16]);
}

#[test]
fn from_colors_asks_for_plain_palettes_only_of_the_colors_given() {
    let asked = RefCell::new(Vec::new());
    let colors = CorePaletteColors {
        primary: 1,
        secondary: Some(2),
        tertiary: None,
        neutral: None,
        neutral_variant: None,
        error: Some(6),
    };
    let _core = CorePalette::from_colors(colors, |argb, is_content| {
        asked.borrow_mut().push((argb, is_content));
        tagged_core(argb, is_content)
    });
    assert_eq!(asked.into_inner(), vec![(1, false), (2, false), (6, false)]);
}

#[test]
fn content_from_colors_asks_for_content_palettes() {
    let asked = RefCell::new(Vec::new());
    let colors = CorePaletteColors {
        primary: 1,
        secondary: None,
        tertiary: Some(3),
        neutral: Some(4),
        neutral_variant: None,
        error: None,
    };
    let core = CorePalette::content_from_colors(colors, |argb, is_content| {
        asked.borrow_mut().push((argb, is_content));
        tagged_core(argb, is_content)
    });
    assert_eq!(asked.into_inner(), vec![(1, true), (3, true), (4, true)]);
    let c = 0x8000;
    assert_eq!(
        keys_of(&core),
        [
            (1 | c) * 10 + 1,
            (1 | c) * 10 + 2,
            (3 | c) * 10 + 1,
            (4 | c) * 10 + 4,
            (1 | c) * 10 + 5,
            (1 | c) * 10 + 6
        ]
    );
}

#[test]
fn plain_core_palette_has_fixed_chromas() {
    let rules = core_palette_rules(false);
    let seed_hue = HueRule::OfSeed { turn: 0 };
    assert_eq!(rules.a1, PaletteRule { hue: seed_hue, chroma: ChromaRule::Fixed { chroma: 48 } });
    assert_eq!(rules.a2, PaletteRule { hue: seed_hue, chroma: ChromaRule::Fixed { chroma: 16 } });
    assert_eq!(
        rules.a3,
        PaletteRule { hue: HueRule::OfSeed { turn: 60 }, chroma: ChromaRule::Fixed { chroma: 24 } }
    );
    assert_eq!(rules.n1, PaletteRule { hue: seed_hue, chroma: ChromaRule::Fixed { chroma: 4 } });
    assert_eq!(rules.n2, PaletteRule { hue: seed_hue, chroma: ChromaRule::Fixed { chroma: 8 } });
}

#[test]
fn content_core_palette_divides_the_chroma_of_the_seed() {
    let rules = core_palette_rules(true);
    let seed_hue = HueRule::OfSeed { turn: 0 };
    assert_eq!(rules.a1, PaletteRule { hue: seed_hue, chroma: ChromaRule::OfSeed { divisor: 1 } });
    assert_eq!(rules.a2, PaletteRule { hue: seed_hue, chroma: ChromaRule::OfSeed { divisor: 3 } });
    assert_eq!(
        rules.a3,
        PaletteRule { hue: HueRule::OfSeed { turn: 60 }, chroma: ChromaRule::OfSeed { divisor: 2 } }
    );
    assert_eq!(rules.n1, PaletteRule { hue: seed_hue, chroma: ChromaRule::OfSeed { divisor: 4 } });
    assert_eq!(rules.n2, PaletteRule { hue: seed_hue, chroma: ChromaRule::OfSeed { divisor: 6 } });
}

#[test]
fn error_palette_is_the_same_in_every_core_palette() {
    let error =
        PaletteRule { hue: HueRule::Fixed { degrees: 25 }, chroma: ChromaRule::Fixed { chroma: 84 } };
    assert_eq!(core_palette_rules(false).error, error);
    assert_eq!(core_palette_rules(true).error, error);
}
