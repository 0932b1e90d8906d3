//! A tonal palette: the colors of one hue and chroma at the tones 0 to 100,
//! rendered on demand and remembered, and the search for its key color.

use std::collections::HashMap;
use vstd::prelude::*;

verus! {

/// The tone at which the search for a key color starts.
pub const START_TONE: u32 = 50;

/// The number of rounds of the search after its start: round `d` probes the
/// tones `50 + d` and `50 - d`.
pub const SEARCH_ROUNDS: u32 = 49;

/// What rendering one tone tells the search for a key color.
#[derive(Clone, Copy, Debug)]
pub struct Probe {
    /// The color rendered at the tone.
    pub argb: u32,
    /// How far the chroma of that color lies from the chroma asked for, on
    /// any scale that keeps the order: a smaller number is a smaller
    /// distance. `None` where the distance is not a number.
    pub gap: Option<u64>,
    /// Whether the chroma of that color and the chroma asked for round to
    /// the same whole number.
    pub on_target: bool,
}

/// The outcome of the search: a tone and the color rendered at it.
#[derive(Clone, Copy, Debug)]
pub struct KeyColor {
    pub tone: u32,
    pub argb: u32,
}

/// Whether the gap `a` is smaller than the gap `b`. A distance that is not
/// a number is not smaller than any other, and none is smaller than it.
pub open spec fn closer(a: Option<u64>, b: Option<u64>) -> bool {
    a matches Some(x) && b matches Some(y) && x < y
}

/// The tone that holds the best probe once the rounds `1..=rounds` are
/// done, where `answers` gives the probe of each tone.
///
/// A best probe that is on target stays: the search stops at it. Otherwise
/// the upper tone of the round replaces the best probe if it is closer, and
/// then the lower tone replaces what is best by then if it is closer still,
/// so that of equally close probes the one seen first stays.
pub open spec fn best_tone(answers: spec_fn(u32) -> Probe, rounds: nat) -> u32
    decreases rounds,
{
    if rounds == 0 {
        START_TONE
    } else {
        let before = best_tone(answers, (rounds - 1) as nat);
        if answers(before).on_target {
            before
        } else {
            let up = (START_TONE + rounds) as u32;
            let down = (START_TONE - rounds) as u32;
            let best = if closer(answers(up).gap, answers(before).gap) {
                up
            } else {
                before
            };
            if closer(answers(down).gap, answers(best).gap) {
                down
            } else {
                best
            }
        }
    }
}

/// The tone of the key color for the probes that `answers` gives.
pub open spec fn key_tone(answers: spec_fn(u32) -> Probe) -> u32 {
    best_tone(answers, SEARCH_ROUNDS as nat)
}

/// Whether `probe` is the function `answers` on the tones of the search:
/// whatever it returns for a tone is what `answers` gives for it.
pub open spec fn answers_with<P: Fn(u32) -> Probe>(
    probe: P,
    answers: spec_fn(u32) -> Probe,
) -> bool {
    forall|tone: u32, found: Probe|
        1 <= tone <= 99 && #[trigger] probe.ensures((tone,), found) ==> found == answers(tone)
}

/// The best tone after any number of rounds up to 49 is one that those
/// rounds probe.
pub proof fn lemma_best_tone_in_reach(answers: spec_fn(u32) -> Probe, rounds: nat)
    requires
        rounds <= SEARCH_ROUNDS,
    ensures
        START_TONE - rounds <= best_tone(answers, rounds) <= START_TONE + rounds,
    decreases rounds,
{
    if rounds > 0 {
        lemma_best_tone_in_reach(answers, (rounds - 1) as nat);
    }
}

/// Once the best probe is on target, later rounds leave it in place.
pub proof fn lemma_on_target_stays(answers: spec_fn(u32) -> Probe, stop: nat, rounds: nat)
    requires
        stop <= rounds,
        answers(best_tone(answers, stop)).on_target,
    ensures
        best_tone(answers, rounds) == best_tone(answers, stop),
    decreases rounds,
{
    if stop < rounds {
        lemma_on_target_stays(answers, stop, (rounds - 1) as nat);
    }
}

/// The search is a function of what the probes tell: two searches that
/// are told the same of each tone from 1 to 99 end at the same tone.
pub proof fn lemma_same_answers_same_key(
    first: spec_fn(u32) -> Probe,
    second: spec_fn(u32) -> Probe,
    rounds: nat,
)
    requires
        rounds <= SEARCH_ROUNDS,
        forall|tone: u32| 1 <= tone <= 99 ==> #[trigger] first(tone) == second(tone),
    ensures
        best_tone(first, rounds) == best_tone(second, rounds),
    decreases rounds,
{
    if rounds > 0 {
        lemma_same_answers_same_key(first, second, (rounds - 1) as nat);
        lemma_best_tone_in_reach(first, (rounds - 1) as nat);
        let before = best_tone(first, (rounds - 1) as nat);
        let up = (START_TONE + rounds) as u32;
        let down = (START_TONE - rounds) as u32;
        assert(first(before) == second(before));
        assert(first(up) == second(up));
        assert(first(down) == second(down));
    }
}

/// A key color that is not on target is the closest of all: where the
/// distance at tone 50 is a number, no tone from 1 to 99 has a smaller one.
pub proof fn lemma_key_is_closest(answers: spec_fn(u32) -> Probe, rounds: nat, tone: u32)
    requires
        rounds <= SEARCH_ROUNDS,
        START_TONE - rounds <= tone <= START_TONE + rounds,
        answers(START_TONE).gap is Some,
        !answers(best_tone(answers, rounds)).on_target,
    ensures
        answers(best_tone(answers, rounds)).gap is Some,
        !closer(answers(tone).gap, answers(best_tone(answers, rounds)).gap),
    decreases rounds,
{
    if rounds > 0 {
        let before = best_tone(answers, (rounds - 1) as nat);
        if answers(before).on_target {
        } else {
            lemma_key_is_closest(answers, (rounds - 1) as nat, START_TONE);
            if START_TONE - (rounds - 1) <= tone <= START_TONE + (rounds - 1) {
                lemma_key_is_closest(answers, (rounds - 1) as nat, tone);
            }
        }
    }
}

/// The place of a tone in the order in which the search probes the tones:
/// tone 50 comes first, and then in turn the tones `50 + d` and `50 - d` for
/// `d` from 1 on.
pub open spec fn probe_order(tone: u32) -> int {
    if tone == START_TONE {
        0
    } else if tone > START_TONE {
        2 * (tone - START_TONE) - 1
    } else {
        2 * (START_TONE - tone)
    }
}

/// Of equally close probes the one seen first is kept: where the key color
/// is not on target and the distance at tone 50 is a number, no tone from
/// 1 to 99 that is as close as the key color was probed before it.
pub proof fn lemma_key_is_first_of_closest(
    answers: spec_fn(u32) -> Probe,
    rounds: nat,
    tone: u32,
)
    requires
        rounds <= SEARCH_ROUNDS,
        START_TONE - rounds <= tone <= START_TONE + rounds,
        answers(START_TONE).gap is Some,
        !answers(best_tone(answers, rounds)).on_target,
        answers(tone).gap == answers(best_tone(answers, rounds)).gap,
    ensures
        probe_order(best_tone(answers, rounds)) <= probe_order(tone),
    decreases rounds,
{
    if rounds > 0 {
        let before = best_tone(answers, (rounds - 1) as nat);
        lemma_best_tone_in_reach(answers, (rounds - 1) as nat);
        if !answers(before).on_target {
            lemma_key_is_closest(answers, (rounds - 1) as nat, START_TONE);
            if START_TONE - (rounds - 1) <= tone <= START_TONE + (rounds - 1) {
                lemma_key_is_closest(answers, (rounds - 1) as nat, tone);
                if best_tone(answers, rounds) == before {
                    lemma_key_is_first_of_closest(answers, (rounds - 1) as nat, tone);
                }
            }
        }
    }
}

/// Whether the gap `a` is smaller than the gap `b`.
fn is_closer(a: Option<u64>, b: Option<u64>) -> (yes: bool)
    ensures
        yes == closer(a, b),
{
    match (a, b) {
        (Some(x), Some(y)) => x < y,
        _ => false,
    }
}

/// Finds the key color of a palette: the tone whose rendered chroma is
/// nearest to the chroma asked for.
///
/// `probe` renders a tone and tells how near its chroma came. The search
/// starts at tone 50 and stops there if that probe is on target. Otherwise
/// it goes outwards, in round `d` to the tones `50 + d` and then `50 - d`,
/// keeps the closest probe seen, the earlier one of two equally close ones,
/// and stops before a round when the best probe so far is on target, and
/// after round 49 at the latest.
pub fn create_key_color<P: Fn(u32) -> Probe>(probe: P) -> (key: KeyColor)
    requires
        forall|tone: u32| 1 <= tone <= 99 ==> #[trigger] probe.requires((tone,)),
    ensures
        1 <= key.tone <= 99,
        exists|found: Probe| #[trigger] probe.ensures((key.tone,), found) && found.argb == key.argb,
        forall|answers: spec_fn(u32) -> Probe| #[trigger]
            answers_with(probe, answers) ==> key.tone == key_tone(answers) && key.argb == answers(
                key.tone,
            ).argb,
{
    assert(probe.requires((START_TONE,)));
    let mut best: Probe = probe(START_TONE);
    let mut tone: u32 = START_TONE;
    let mut round: u32 = 1;
    while round <= SEARCH_ROUNDS
        invariant
            1 <= round <= SEARCH_ROUNDS + 1,
            START_TONE - (round - 1) <= tone <= START_TONE + (round - 1),
            forall|tone: u32| 1 <= tone <= 99 ==> #[trigger] probe.requires((tone,)),
            probe.ensures((tone,), best),
            forall|answers: spec_fn(u32) -> Probe| #[trigger]
                answers_with(probe, answers) ==> tone == best_tone(answers, (round - 1) as nat),
        decreases SEARCH_ROUNDS + 1 - round,
    {
        if best.on_target {
            proof {
                assert forall|answers: spec_fn(u32) -> Probe| #[trigger]
                    answers_with(probe, answers) implies tone == key_tone(answers) && best.argb
                    == answers(tone).argb by {
                    assert(best == answers(tone));
                    lemma_on_target_stays(answers, (round - 1) as nat, SEARCH_ROUNDS as nat);
                }
            }
            return KeyColor { tone, argb: best.argb };
        }
        let ghost before = tone;
        let ghost before_probe = best;
        let up_tone: u32 = START_TONE + round;
        let down_tone: u32 = START_TONE - round;
        assert(probe.requires((up_tone,)));
        let up: Probe = probe(up_tone);
        if is_closer(up.gap, best.gap) {
            best = up;
            tone = up_tone;
        }
        let ghost middle = tone;
        let ghost middle_probe = best;
        assert(probe.requires((down_tone,)));
        let down: Probe = probe(down_tone);
        if is_closer(down.gap, best.gap) {
            best = down;
            tone = down_tone;
        }
        proof {
            assert forall|answers: spec_fn(u32) -> Probe| #[trigger]
                answers_with(probe, answers) implies tone == best_tone(answers, round as nat) by {
                assert(before == best_tone(answers, (round - 1) as nat));
                assert(before_probe == answers(before));
                assert(up == answers(up_tone));
                assert(down == answers(down_tone));
                assert(middle_probe == answers(middle));
            }
        }
        round = round + 1;
    }
    proof {
        assert forall|answers: spec_fn(u32) -> Probe| #[trigger]
            answers_with(probe, answers) implies best.argb == answers(tone).argb by {
            assert(best == answers(tone));
        }
    }
    KeyColor { tone, argb: best.argb }
}


/// The colors of one hue and chroma at the tones 0 to 100.
///
/// A palette holds its key color, the renderer that gives the color of a
/// tone, and the colors rendered so far: each tone is rendered when it is
/// first asked for, and never again.
pub struct TonalPalette<R: Fn(u32) -> u32> {
    key_color: u32,
    render: R,
    cache: HashMap<u32, u32>,
}

/// What a call of [`TonalPalette::tone`] does to the colors that a palette
/// remembers: `tone` is mapped to the color returned, which is the color
/// remembered for it if there was one, and every other tone stays as it
/// was.
pub open spec fn remembers(
    before: Map<u32, u32>,
    tone: u32,
    argb: u32,
    after: Map<u32, u32>,
) -> bool {
    &&& after == before.insert(tone, argb)
    &&& before.contains_key(tone) ==> argb == before[tone]
}

/// Asking for a tone twice gives the same color both times, and the
/// second call changes nothing.
pub proof fn lemma_tone_twice(
    before: Map<u32, u32>,
    tone: u32,
    first: u32,
    between: Map<u32, u32>,
    second: u32,
    after: Map<u32, u32>,
)
    requires
        remembers(before, tone, first, between),
        remembers(between, tone, second, after),
    ensures
        second == first,
        after == between,
{
    assert(between.insert(tone, first) =~= between);
}

/// A color once remembered stays: asking for any tone leaves the colors of
/// the tones rendered before as they were.
pub proof fn lemma_tone_keeps(
    before: Map<u32, u32>,
    tone: u32,
    argb: u32,
    after: Map<u32, u32>,
    other: u32,
)
    requires
        remembers(before, tone, argb, after),
        before.contains_key(other),
    ensures
        after.contains_key(other),
        after[other] == before[other],
{
}

impl<R: Fn(u32) -> u32> View for TonalPalette<R> {
    type V = Map<u32, u32>;

    /// The colors rendered so far, by tone.
    closed spec fn view(&self) -> Map<u32, u32> {
        self.cache@
    }
}

impl<R: Fn(u32) -> u32> TonalPalette<R> {
    /// The function that renders this palette's tones.
    pub closed spec fn renderer(&self) -> R {
        self.render
    }

    /// The key color that the palette was made with.
    pub closed spec fn key(&self) -> u32 {
        self.key_color
    }

    /// A palette is well formed when its renderer takes every tone up to
    /// 100, and every color that it remembers is one that the renderer
    /// gives for its tone.
    pub open spec fn wf(&self) -> bool {
        &&& forall|tone: u32| tone <= 100 ==> #[trigger] self.renderer().requires((tone,))
        &&& forall|tone: u32| #[trigger]
            self@.contains_key(tone) ==> tone <= 100 && self.renderer().ensures(
                (tone,),
                self@[tone],
            )
    }

    /// Whether this palette is `before` with more tones rendered: the same
    /// key color and renderer, and every color that `before` remembers.
    pub open spec fn extends(&self, before: Self) -> bool {
        &&& self.key() == before.key()
        &&& self.renderer() == before.renderer()
        &&& forall|tone: u32| #[trigger]
            before@.contains_key(tone) ==> self@.contains_key(tone) && self@[tone] == before@[tone]
    }

    /// Whether this palette is `before` with the tones `tones` rendered,
    /// those and no others.
    pub open spec fn renders(&self, before: Self, tones: Set<u32>) -> bool {
        &&& self.extends(before)
        &&& self@.dom() == before@.dom().union(tones)
    }

    /// Makes a palette with the given key color, whose tones `render`
    /// gives. No tone is rendered yet.
    pub fn new(key_color: u32, render: R) -> (palette: Self)
        requires
            forall|tone: u32| tone <= 100 ==> #[trigger] render.requires((tone,)),
        ensures
            palette.wf(),
            palette.key() == key_color,
            palette.renderer() == render,
            palette@ == Map::<u32, u32>::empty(),
    {
        TonalPalette { key_color, render, cache: HashMap::new() }
    }

    /// The key color that the palette was made with.
    pub fn key_color(&self) -> (argb: u32)
        ensures
            argb == self.key(),
    {
        self.key_color
    }

    /// Returns the ARGB representation of a color with the given tone.
    ///
    /// # Arguments
    ///
    /// * `tone` - HCT tone, measured from 0 to 100.
    ///
    /// # Returns
    ///
    /// ARGB representation of a color with that tone: the color remembered
    /// for the tone, or else what the renderer gives for it, which is then
    /// remembered.
    pub fn tone(&mut self, tone: u32) -> (argb: u32)
        requires
            old(self).wf(),
            tone <= 100,
        ensures
            final(self).wf(),
            final(self).extends(*old(self)),
            remembers(old(self)@, tone, argb, final(self)@),
            old(self).renderer().ensures((tone,), argb),
    {
        match self.cache.get(&tone) {
            Some(found) => {
                let argb: u32 = *found;
                assert(self@.insert(tone, argb) =~= self@);
                argb
            },
            None => {
                assert(self.renderer().requires((tone,)));
                let argb: u32 = (self.render)(tone);
                self.cache.insert(tone, argb);
                assert forall|other: u32| #[trigger] self@.contains_key(other) implies other
                    <= 100 && self.renderer().ensures((other,), self@[other]) by {
                    if other != tone {
                        assert(old(self)@.contains_key(other));
                    }
                }
                argb
            },
        }
    }
}

} // verus!
