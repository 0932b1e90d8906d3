//! Color schemes: the named colors of a theme, each read off one palette
//! of a core palette at one tone.

use crate::palettes::core_palette::{makes_core_palettes, CorePalette};
use vstd::prelude::*;

verus! {

/// The colors of a theme, by role.
#[derive(Clone, Copy, Debug, PartialEq, Eq, Structural)]
pub struct Scheme {
    pub primary: u32,
    pub on_primary: u32,
    pub primary_container: u32,
    pub on_primary_container: u32,
    pub secondary: u32,
    pub on_secondary: u32,
    pub secondary_container: u32,
    pub on_secondary_container: u32,
    pub tertiary: u32,
    pub on_tertiary: u32,
    pub tertiary_container: u32,
    pub on_tertiary_container: u32,
    pub error: u32,
    pub on_error: u32,
    pub error_container: u32,
    pub on_error_container: u32,
    pub surface_dim: u32,
    pub surface: u32,
    pub surface_bright: u32,
    pub surface_container_lowest: u32,
    pub surface_container_low: u32,
    pub surface_container: u32,
    pub surface_container_high: u32,
    pub surface_container_highest: u32,
    pub on_surface: u32,
    pub on_surface_variant: u32,
    pub outline: u32,
    pub outline_variant: u32,
    pub inverse_surface: u32,
    pub inverse_on_surface: u32,
    pub inverse_primary: u32,
    pub scrim: u32,
    pub shadow: u32,
}

impl Scheme {
    /// The light scheme that the colors remembered in `core` give: each
    /// color is the one that its palette remembers for its tone.
    pub open spec fn light_of<R: Fn(u32) -> u32>(core: CorePalette<R>) -> Scheme {
        Scheme {
            primary: core.a1@[40],
            on_primary: core.a1@[100],
            primary_container: core.a1@[90],
            on_primary_container: core.a1@[10],
            secondary: core.a2@[40],
            on_secondary: core.a2@[100],
            secondary_container: core.a2@[90],
            on_secondary_container: core.a2@[10],
            tertiary: core.a3@[40],
            on_tertiary: core.a3@[100],
            tertiary_container: core.a3@[90],
            on_tertiary_container: core.a3@[10],
            error: core.error@[40],
            on_error: core.error@[100],
            error_container: core.error@[90],
            on_error_container: core.error@[10],
            surface_dim: core.n1@[87],
            surface: core.n1@[98],
            surface_bright: core.n1@[98],
            surface_container_lowest: core.n1@[100],
            surface_container_low: core.n1@[96],
            surface_container: core.n1@[94],
            surface_container_high: core.n1@[92],
            surface_container_highest: core.n1@[90],
            on_surface: core.n1@[10],
            on_surface_variant: core.n2@[30],
            outline: core.n2@[50],
            outline_variant: core.n2@[80],
            shadow: core.n1@[0],
            scrim: core.n1@[0],
            inverse_surface: core.n1@[20],
            inverse_on_surface: core.n1@[95],
            inverse_primary: core.a1@[80],
        }
    }

    /// The dark scheme that the colors remembered in `core` give: each
    /// color is the one that its palette remembers for its tone.
    pub open spec fn dark_of<R: Fn(u32) -> u32>(core: CorePalette<R>) -> Scheme {
        Scheme {
            primary: core.a1@[80],
            on_primary: core.a1@[20],
            primary_container: core.a1@[30],
            on_primary_container: core.a1@[90],
            secondary: core.a2@[80],
            on_secondary: core.a2@[20],
            secondary_container: core.a2@[30],
            on_secondary_container: core.a2@[90],
            tertiary: core.a3@[80],
            on_tertiary: core.a3@[20],
            tertiary_container: core.a3@[30],
            on_tertiary_container: core.a3@[90],
            error: core.error@[80],
            on_error: core.error@[20],
            error_container: core.error@[30],
            on_error_container: core.error@[90],
            surface_dim: core.n1@[6],
            surface: core.n1@[6],
            surface_bright: core.n1@[24],
            surface_container_lowest: core.n1@[4],
            surface_container_low: core.n1@[10],
            surface_container: core.n1@[12],
            surface_container_high: core.n1@[17],
            surface_container_highest: core.n1@[22],
            on_surface: core.n1@[90],
            on_surface_variant: core.n2@[80],
            outline: core.n2@[60],
            outline_variant: core.n2@[30],
            shadow: core.n1@[0],
            scrim: core.n1@[0],
            inverse_surface: core.n1@[90],
            inverse_on_surface: core.n1@[20],
            inverse_primary: core.a1@[40],
        }
    }

    /// What reading a light scheme does: `after` is `before` with the tones
    /// of the light scheme rendered, those and no others, and `scheme`
    /// holds the colors that `after` remembers for them.
    pub open spec fn reads_light<R: Fn(u32) -> u32>(
        before: CorePalette<R>,
        after: CorePalette<R>,
        scheme: Scheme,
    ) -> bool {
        &&& after.wf()
        &&& after.a1.renders(before.a1, set![40, 100, 90, 10, 80])
        &&& after.a2.renders(before.a2, set![40, 100, 90, 10])
        &&& after.a3.renders(before.a3, set![40, 100, 90, 10])
        &&& after.n1.renders(before.n1, set![87, 98, 100, 96, 94, 92, 90, 10, 0, 20, 95])
        &&& after.n2.renders(before.n2, set![30, 50, 80])
        &&& after.error.renders(before.error, set![40, 100, 90, 10])
        &&& scheme == Scheme::light_of(after)
    }

    /// What reading a dark scheme does: `after` is `before` with the tones
    /// of the dark scheme rendered, those and no others, and `scheme`
    /// holds the colors that `after` remembers for them.
    pub open spec fn reads_dark<R: Fn(u32) -> u32>(
        before: CorePalette<R>,
        after: CorePalette<R>,
        scheme: Scheme,
    ) -> bool {
        &&& after.wf()
        &&& after.a1.renders(before.a1, set![80, 20, 30, 90, 40])
        &&& after.a2.renders(before.a2, set![80, 20, 30, 90])
        &&& after.a3.renders(before.a3, set![80, 20, 30, 90])
        &&& after.n1.renders(before.n1, set![6, 24, 4, 10, 12, 17, 22, 90, 0, 20])
        &&& after.n2.renders(before.n2, set![80, 60, 30])
        &&& after.error.renders(before.error, set![80, 20, 30, 90])
        &&& scheme == Scheme::dark_of(after)
    }

    /// Every color of a light scheme is one that the renderer of its
    /// palette gives for its tone.
    pub proof fn lemma_light_rendered<R: Fn(u32) -> u32>(
        before: CorePalette<R>,
        after: CorePalette<R>,
        scheme: Scheme,
    )
        requires
            Scheme::reads_light(before, after, scheme),
        ensures
            before.a1.renderer().ensures((40u32,), scheme.primary),
            before.a1.renderer().ensures((100u32,), scheme.on_primary),
            before.a1.renderer().ensures((90u32,), scheme.primary_container),
            before.a1.renderer().ensures((10u32,), scheme.on_primary_container),
            before.a2.renderer().ensures((40u32,), scheme.secondary),
            before.a2.renderer().ensures((100u32,), scheme.on_secondary),
            before.a2.renderer().ensures((90u32,), scheme.secondary_container),
            before.a2.renderer().ensures((10u32,), scheme.on_secondary_container),
            before.a3.renderer().ensures((40u32,), scheme.tertiary),
            before.a3.renderer().ensures((100u32,), scheme.on_tertiary),
            before.a3.renderer().ensures((90u32,), scheme.tertiary_container),
            before.a3.renderer().ensures((10u32,), scheme.on_tertiary_container),
            before.error.renderer().ensures((40u32,), scheme.error),
            before.error.renderer().ensures((100u32,), scheme.on_error),
            before.error.renderer().ensures((90u32,), scheme.error_container),
            before.error.renderer().ensures((10u32,), scheme.on_error_container),
            before.n1.renderer().ensures((87u32,), scheme.surface_dim),
            before.n1.renderer().ensures((98u32,), scheme.surface),
            before.n1.renderer().ensures((98u32,), scheme.surface_bright),
            before.n1.renderer().ensures((100u32,), scheme.surface_container_lowest),
            before.n1.renderer().ensures((96u32,), scheme.surface_container_low),
            before.n1.renderer().ensures((94u32,), scheme.surface_container),
            before.n1.renderer().ensures((92u32,), scheme.surface_container_high),
            before.n1.renderer().ensures((90u32,), scheme.surface_container_highest),
            before.n1.renderer().ensures((10u32,), scheme.on_surface),
            before.n2.renderer().ensures((30u32,), scheme.on_surface_variant),
            before.n2.renderer().ensures((50u32,), scheme.outline),
            before.n2.renderer().ensures((80u32,), scheme.outline_variant),
            before.n1.renderer().ensures((0u32,), scheme.shadow),
            before.n1.renderer().ensures((0u32,), scheme.scrim),
            before.n1.renderer().ensures((20u32,), scheme.inverse_surface),
            before.n1.renderer().ensures((95u32,), scheme.inverse_on_surface),
            before.a1.renderer().ensures((80u32,), scheme.inverse_primary),
    {
        assert(after.a1@.contains_key(40u32));
        assert(after.a1@.contains_key(100u32));
        assert(after.a1@.contains_key(90u32));
        assert(after.a1@.contains_key(10u32));
        assert(after.a2@.contains_key(40u32));
        assert(after.a2@.contains_key(100u32));
        assert(after.a2@.contains_key(90u32));
        assert(after.a2@.contains_key(10u32));
        assert(after.a3@.contains_key(40u32));
        assert(after.a3@.contains_key(100u32));
        assert(after.a3@.contains_key(90u32));
        assert(after.a3@.contains_key(10u32));
        assert(after.error@.contains_key(40u32));
        assert(after.error@.contains_key(100u32));
        assert(after.error@.contains_key(90u32));
        assert(after.error@.contains_key(10u32));
        assert(after.n1@.contains_key(87u32));
        assert(after.n1@.contains_key(98u32));
        assert(after.n1@.contains_key(100u32));
        assert(after.n1@.contains_key(96u32));
        assert(after.n1@.contains_key(94u32));
        assert(after.n1@.contains_key(92u32));
        assert(after.n1@.contains_key(90u32));
        assert(after.n1@.contains_key(10u32));
        assert(after.n2@.contains_key(30u32));
        assert(after.n2@.contains_key(50u32));
        assert(after.n2@.contains_key(80u32));
        assert(after.n1@.contains_key(0u32));
        assert(after.n1@.contains_key(20u32));
        assert(after.n1@.contains_key(95u32));
        assert(after.a1@.contains_key(80u32));
    }

    /// Every color of a dark scheme is one that the renderer of its
    /// palette gives for its tone.
    pub proof fn lemma_dark_rendered<R: Fn(u32) -> u32>(
        before: CorePalette<R>,
        after: CorePalette<R>,
        scheme: Scheme,
    )
        requires
            Scheme::reads_dark(before, after, scheme),
        ensures
            before.a1.renderer().ensures((80u32,), scheme.primary),
            before.a1.renderer().ensures((20u32,), scheme.on_primary),
            before.a1.renderer().ensures((30u32,), scheme.primary_container),
            before.a1.renderer().ensures((90u32,), scheme.on_primary_container),
            before.a2.renderer().ensures((80u32,), scheme.secondary),
            before.a2.renderer().ensures((20u32,), scheme.on_secondary),
            before.a2.renderer().ensures((30u32,), scheme.secondary_container),
            before.a2.renderer().ensures((90u32,), scheme.on_secondary_container),
            before.a3.renderer().ensures((80u32,), scheme.tertiary),
            before.a3.renderer().ensures((20u32,), scheme.on_tertiary),
            before.a3.renderer().ensures((30u32,), scheme.tertiary_container),
            before.a3.renderer().ensures((90u32,), scheme.on_tertiary_container),
            before.error.renderer().ensures((80u32,), scheme.error),
            before.error.renderer().ensures((20u32,), scheme.on_error),
            before.error.renderer().ensures((30u32,), scheme.error_container),
            before.error.renderer().ensures((90u32,), scheme.on_error_container),
            before.n1.renderer().ensures((6u32,), scheme.surface_dim),
            before.n1.renderer().ensures((6u32,), scheme.surface),
            before.n1.renderer().ensures((24u32,), scheme.surface_bright),
            before.n1.renderer().ensures((4u32,), scheme.surface_container_lowest),
            before.n1.renderer().ensures((10u32,), scheme.surface_container_low),
            before.n1.renderer().ensures((12u32,), scheme.surface_container),
            before.n1.renderer().ensures((17u32,), scheme.surface_container_high),
            before.n1.renderer().ensures((22u32,), scheme.surface_container_highest),
            before.n1.renderer().ensures((90u32,), scheme.on_surface),
            before.n2.renderer().ensures((80u32,), scheme.on_surface_variant),
            before.n2.renderer().ensures((60u32,), scheme.outline),
            before.n2.renderer().ensures((30u32,), scheme.outline_variant),
            before.n1.renderer().ensures((0u32,), scheme.shadow),
            before.n1.renderer().ensures((0u32,), scheme.scrim),
            before.n1.renderer().ensures((90u32,), scheme.inverse_surface),
            before.n1.renderer().ensures((20u32,), scheme.inverse_on_surface),
            before.a1.renderer().ensures((40u32,), scheme.inverse_primary),
    {
        assert(after.a1@.contains_key(80u32));
        assert(after.a1@.contains_key(20u32));
        assert(after.a1@.contains_key(30u32));
        assert(after.a1@.contains_key(90u32));
        assert(after.a2@.contains_key(80u32));
        assert(after.a2@.contains_key(20u32));
        assert(after.a2@.contains_key(30u32));
        assert(after.a2@.contains_key(90u32));
        assert(after.a3@.contains_key(80u32));
        assert(after.a3@.contains_key(20u32));
        assert(after.a3@.contains_key(30u32));
        assert(after.a3@.contains_key(90u32));
        assert(after.error@.contains_key(80u32));
        assert(after.error@.contains_key(20u32));
        assert(after.error@.contains_key(30u32));
        assert(after.error@.contains_key(90u32));
        assert(after.n1@.contains_key(6u32));
        assert(after.n1@.contains_key(24u32));
        assert(after.n1@.contains_key(4u32));
        assert(after.n1@.contains_key(10u32));
        assert(after.n1@.contains_key(12u32));
        assert(after.n1@.contains_key(17u32));
        assert(after.n1@.contains_key(22u32));
        assert(after.n1@.contains_key(90u32));
        assert(after.n2@.contains_key(80u32));
        assert(after.n2@.contains_key(60u32));
        assert(after.n2@.contains_key(30u32));
        assert(after.n1@.contains_key(0u32));
        assert(after.n1@.contains_key(20u32));
        assert(after.a1@.contains_key(40u32));
    }

    /// Light scheme from core palette
    ///
    /// Tones that a palette of `core` has not rendered yet are rendered,
    /// each once, and stay with `core`.
    pub fn light_from_core_palette<R: Fn(u32) -> u32>(core: &mut CorePalette<R>) -> (scheme:
        Scheme)
        requires
            old(core).wf(),
        ensures
            Scheme::reads_light(*old(core), *final(core), scheme),
    {
        let scheme = Scheme {
            primary: core.a1.tone(40),
            on_primary: core.a1.tone(100),
            primary_container: core.a1.tone(90),
            on_primary_container: core.a1.tone(10),
            secondary: core.a2.tone(40),
            on_secondary: core.a2.tone(100),
            secondary_container: core.a2.tone(90),
            on_secondary_container: core.a2.tone(10),
            tertiary: core.a3.tone(40),
            on_tertiary: core.a3.tone(100),
            tertiary_container: core.a3.tone(90),
            on_tertiary_container: core.a3.tone(10),
            error: core.error.tone(40),
            on_error: core.error.tone(100),
            error_container: core.error.tone(90),
            on_error_container: core.error.tone(10),
            surface_dim: core.n1.tone(87),
            surface: core.n1.tone(98),
            surface_bright: core.n1.tone(98),
            surface_container_lowest: core.n1.tone(100),
            surface_container_low: core.n1.tone(96),
            surface_container: core.n1.tone(94),
            surface_container_high: core.n1.tone(92),
            surface_container_highest: core.n1.tone(90),
            on_surface: core.n1.tone(10),
            on_surface_variant: core.n2.tone(30),
            outline: core.n2.tone(50),
            outline_variant: core.n2.tone(80),
            shadow: core.n1.tone(0),
            scrim: core.n1.tone(0),
            inverse_surface: core.n1.tone(20),
            inverse_on_surface: core.n1.tone(95),
            inverse_primary: core.a1.tone(80),
        };
        proof {
            assert(core.a1@.dom() =~= old(core).a1@.dom().union(set![40, 100, 90, 10, 80]));
            assert(core.a2@.dom() =~= old(core).a2@.dom().union(set![40, 100, 90, 10]));
            assert(core.a3@.dom() =~= old(core).a3@.dom().union(set![40, 100, 90, 10]));
            assert(core.n1@.dom() =~= old(core).n1@.dom().union(set![87, 98, 100, 96, 94, 92, 90, 10, 0, 20, 95]));
            assert(core.n2@.dom() =~= old(core).n2@.dom().union(set![30, 50, 80]));
            assert(core.error@.dom() =~= old(core).error@.dom().union(set![40, 100, 90, 10]));
        }
        scheme
    }

    /// Dark scheme from core palette
    ///
    /// Tones that a palette of `core` has not rendered yet are rendered,
    /// each once, and stay with `core`.
    pub fn dark_from_core_palette<R: Fn(u32) -> u32>(core: &mut CorePalette<R>) -> (scheme:
        Scheme)
        requires
            old(core).wf(),
        ensures
            Scheme::reads_dark(*old(core), *final(core), scheme),
    {
        let scheme = Scheme {
            primary: core.a1.tone(80),
            on_primary: core.a1.tone(20),
            primary_container: core.a1.tone(30),
            on_primary_container: core.a1.tone(90),
            secondary: core.a2.tone(80),
            on_secondary: core.a2.tone(20),
            secondary_container: core.a2.tone(30),
            on_secondary_container: core.a2.tone(90),
            tertiary: core.a3.tone(80),
            on_tertiary: core.a3.tone(20),
            tertiary_container: core.a3.tone(30),
            on_tertiary_container: core.a3.tone(90),
            error: core.error.tone(80),
            on_error: core.error.tone(20),
            error_container: core.error.tone(30),
            on_error_container: core.error.tone(90),
            surface_dim: core.n1.tone(6),
            surface: core.n1.tone(6),
            surface_bright: core.n1.tone(24),
            surface_container_lowest: core.n1.tone(4),
            surface_container_low: core.n1.tone(10),
            surface_container: core.n1.tone(12),
            surface_container_high: core.n1.tone(17),
            surface_container_highest: core.n1.tone(22),
            on_surface: core.n1.tone(90),
            on_surface_variant: core.n2.tone(80),
            outline: core.n2.tone(60),
            outline_variant: core.n2.tone(30),
            shadow: core.n1.tone(0),
            scrim: core.n1.tone(0),
            inverse_surface: core.n1.tone(90),
            inverse_on_surface: core.n1.tone(20),
            inverse_primary: core.a1.tone(40),
        };
        proof {
            assert(core.a1@.dom() =~= old(core).a1@.dom().union(set![80, 20, 30, 90, 40]));
            assert(core.a2@.dom() =~= old(core).a2@.dom().union(set![80, 20, 30, 90]));
            assert(core.a3@.dom() =~= old(core).a3@.dom().union(set![80, 20, 30, 90]));
            assert(core.n1@.dom() =~= old(core).n1@.dom().union(set![6, 24, 4, 10, 12, 17, 22, 90, 0, 20]));
            assert(core.n2@.dom() =~= old(core).n2@.dom().union(set![80, 60, 30]));
            assert(core.error@.dom() =~= old(core).error@.dom().union(set![80, 20, 30, 90]));
        }
        scheme
    }

    /// Returns a light Material color scheme based on the color's hue.
    ///
    /// # Arguments
    ///
    /// * `argb` - ARGB representation of a color.
    /// * `make` - gives the core palette of a color; the flag says whether
    ///   it is to be a content palette
    ///
    /// # Returns
    ///
    /// A light Material color scheme, read off a core palette that `make` gives for the color.
    pub fn light<R: Fn(u32) -> u32, M: Fn(u32, bool) -> CorePalette<R>>(argb: u32, make: M) -> (scheme:
        Scheme)
        requires
            makes_core_palettes(make),
        ensures
            exists|made: CorePalette<R>, after: CorePalette<R>| #[trigger]
                make.ensures((argb, false), made) && #[trigger] Scheme::reads_light(
                    made,
                    after,
                    scheme,
                ),
    {
        let mut core = CorePalette::of(argb, make);
        let ghost made = core;
        let scheme = Scheme::light_from_core_palette(&mut core);
        assert(make.ensures((argb, false), made) && Scheme::reads_light(made, core, scheme));
        scheme
    }

    /// Returns a dark Material color scheme based on the color's hue.
    ///
    /// # Arguments
    ///
    /// * `argb` - ARGB representation of a color.
    /// * `make` - gives the core palette of a color; the flag says whether
    ///   it is to be a content palette
    ///
    /// # Returns
    ///
    /// A dark Material color scheme, read off a core palette that `make` gives for the color.
    pub fn dark<R: Fn(u32) -> u32, M: Fn(u32, bool) -> CorePalette<R>>(argb: u32, make: M) -> (scheme:
        Scheme)
        requires
            makes_core_palettes(make),
        ensures
            exists|made: CorePalette<R>, after: CorePalette<R>| #[trigger]
                make.ensures((argb, false), made) && #[trigger] Scheme::reads_dark(
                    made,
                    after,
                    scheme,
                ),
    {
        let mut core = CorePalette::of(argb, make);
        let ghost made = core;
        let scheme = Scheme::dark_from_core_palette(&mut core);
        assert(make.ensures((argb, false), made) && Scheme::reads_dark(made, core, scheme));
        scheme
    }

    /// Returns a light Material content color scheme based on the color's hue.
    ///
    /// # Arguments
    ///
    /// * `argb` - ARGB representation of a color.
    /// * `make` - gives the core palette of a color; the flag says whether
    ///   it is to be a content palette
    ///
    /// # Returns
    ///
    /// A light Material content color scheme, read off a core palette that `make` gives for the color.
    pub fn light_content<R: Fn(u32) -> u32, M: Fn(u32, bool) -> CorePalette<R>>(argb: u32, make: M) -> (scheme:
        Scheme)
        requires
            makes_core_palettes(make),
        ensures
            exists|made: CorePalette<R>, after: CorePalette<R>| #[trigger]
                make.ensures((argb, true), made) && #[trigger] Scheme::reads_light(
                    made,
                    after,
                    scheme,
                ),
    {
        let mut core = CorePalette::content_of(argb, make);
        let ghost made = core;
        let scheme = Scheme::light_from_core_palette(&mut core);
        assert(make.ensures((argb, true), made) && Scheme::reads_light(made, core, scheme));
        scheme
    }

    /// Returns a dark Material content color scheme based on the color's hue.
    ///
    /// # Arguments
    ///
    /// * `argb` - ARGB representation of a color.
    /// * `make` - gives the core palette of a color; the flag says whether
    ///   it is to be a content palette
    ///
    /// # Returns
    ///
    /// A dark Material content color scheme, read off a core palette that `make` gives for the color.
    pub fn dark_content<R: Fn(u32) -> u32, M: Fn(u32, bool) -> CorePalette<R>>(argb: u32, make: M) -> (scheme:
        Scheme)
        requires
            makes_core_palettes(make),
        ensures
            exists|made: CorePalette<R>, after: CorePalette<R>| #[trigger]
                make.ensures((argb, true), made) && #[trigger] Scheme::reads_dark(
                    made,
                    after,
                    scheme,
                ),
    {
        let mut core = CorePalette::content_of(argb, make);
        let ghost made = core;
        let scheme = Scheme::dark_from_core_palette(&mut core);
        assert(make.ensures((argb, true), made) && Scheme::reads_dark(made, core, scheme));
        scheme
    }
}

} // verus!
