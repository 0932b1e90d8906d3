use material_color_utilities::palettes::{create_key_color, KeyColor, Probe, TonalPalette};
use std::cell::Cell;

fn probe_with_gap(tone: u32, gap: Option<u64>, on_target: bool) -> Probe {
    Probe { argb: 0xff000000 | tone, gap, on_target }
}

fn key_of(gaps: &dyn Fn(u32) -> Option<u64>, hits: &dyn Fn(u32) -> bool) -> (KeyColor, u32) {
    let calls = Cell::new(0u32);
    let key = create_key_color(|tone| {
        calls.set(calls.get() + 1);
        probe_with_gap(tone, gaps(tone), hits(tone))
    });
    (key, calls.get())
}

#[test]
fn search_stops_at_once_when_tone_50_is_on_target() {
    let (key, calls) = key_of(&|tone| Some(1000 - tone as u64), &|tone| tone == 50);
    assert_eq!(key.tone, 50);
    assert_eq!(key.argb, 0xff000000 | 50);
    assert_eq!(calls, 1);
}

#[test]
fn search_probes_all_tones_from_1_to_99_when_none_is_on_target() {
    let seen = std::cell::RefCell::new(Vec::new());
    let key = create_key_color(|tone| {
        seen.borrow_mut().push(tone);
        probe_with_gap(tone, Some(5), false)
    });
    let seen = seen.into_inner();
    assert_eq!(seen.len(), 99);
    assert_eq!(&seen[..5], &[50, 51, 49, 52, 48]);
    assert_eq!(&seen[97..], &[99, 1]);
    assert_eq!(key.tone, 50);
}

#[test]
fn search_keeps_the_closest_probe() {
    let (key, calls) = key_of(&|tone| Some((tone as i64 - 73).unsigned_abs()), &|_| false);
    assert_eq!(key.tone, 73);
    assert_eq!(key.argb, 0xff000000 | 73);
    assert_eq!(calls, 99);
    let (key, _) = key_of(&|tone| Some((tone as i64 - 12).unsigned_abs()), &|_| false);
    assert_eq!(key.tone, 12);
}

#[test]
fn of_equally_close_probes_the_first_seen_stays() {
    // 50 + d is probed before 50 - d.
    let (key, _) = key_of(&|tone| if tone == 60 || tone == 40 { Some(1) } else { Some(9) }, &|_| false);
    assert_eq!(key.tone, 60);
    // A later probe that is only as close does not take the place.
    let (key, _) = key_of(&|tone| if tone == 45 || tone == 70 { Some(1) } else { Some(9) }, &|_| false);
    assert_eq!(key.tone, 45);
    let (key, _) = key_of(&|_| Some(0), &|_| false);
    assert_eq!(key.tone, 50);
}

#[test]
fn search_stops_before_the_round_after_the_best_probe_is_on_target() {
    // Tone 53 is the closest so far when round 3 ends, and it is on target:
    // rounds 1 to 3 and the start make 7 probes.
    let (key, calls) = key_of(
        &|tone| if tone == 53 { Some(1) } else if tone == 90 { Some(0) } else { Some(10) },
        &|tone| tone == 53,
    );
    assert_eq!(key.tone, 53);
    assert_eq!(calls, 7);
}

#[test]
fn a_probe_on_target_that_is_not_the_best_does_not_stop_the_search() {
    let (key, calls) = key_of(
        &|tone| if tone == 50 { Some(1) } else if tone == 99 { Some(0) } else { Some(10) },
        &|tone| tone == 51,
    );
    assert_eq!(key.tone, 99);
    assert_eq!(calls, 99);
}

#[test]
fn the_lower_tone_is_compared_with_the_best_after_the_upper_tone() {
    let (key, _) = key_of(
        &|tone| match tone {
            50 => Some(10),
            51 => Some(5),
            49 => Some(7),
            _ => Some(10),
        },
        &|_| false,
    );
    assert_eq!(key.tone, 51);
}

#[test]
fn an_undefined_gap_is_never_closer_and_nothing_is_closer_than_it() {
    // Undefined at the start: nothing replaces tone 50.
    let (key, calls) = key_of(&|tone| if tone == 50 { None } else { Some(0) }, &|_| false);
    assert_eq!(key.tone, 50);
    assert_eq!(calls, 99);
    // Undefined later: it does not win.
    let (key, _) = key_of(&|tone| if tone == 50 { Some(3) } else { None }, &|_| false);
    assert_eq!(key.tone, 50);
    let (key, _) = key_of(
        &|tone| if tone == 50 { Some(3) } else if tone == 20 { Some(2) } else { None },
        &|_| false,
    );
    assert_eq!(key.tone, 20);
}

#[test]
fn search_twice_with_the_same_answers_gives_the_same_key() {
    let gaps = |tone: u32| Some(((tone as u64) * 7919) % 31);
    let (first, _) = key_of(&gaps, &|_| false);
    let (second, _) = key_of(&gaps, &|_| false);
    assert_eq!(first.tone, second.tone);
    assert_eq!(first.argb, second.argb);
    assert_eq!(first.tone, 62);
}

#[test]
fn new_palette_has_its_key_color() {
    let palette = TonalPalette::new(0xff123456, |tone: u32| tone);
    assert_eq!(palette.key_color(), 0xff123456);
}

#[test]
fn tone_gives_what_the_renderer_gives() {
    let mut palette = TonalPalette::new(0, |tone: u32| 0xff000000 | (tone * 2));
    assert_eq!(palette.tone(0), 0xff000000);
    assert_eq!(palette.tone(40), 0xff000000 | 80);
    assert_eq!(palette.tone(100), 0xff000000 | 200);
}

#[test]
fn tone_asked_twice_is_rendered_once() {
    let calls = Cell::new(0u32);
    let mut palette = TonalPalette::new(0, |tone: u32| {
        calls.set(calls.get() + 1);
        tone + 1000 * calls.get()
    });
    let first = palette.tone(40);
    let other = palette.tone(41);
    let second = palette.tone(40);
    assert_eq!(first, 1040);
    assert_eq!(other, 2041);
    assert_eq!(second, first);
    assert_eq!(calls.get(), 2);
    assert_eq!(palette.tone(41), other);
    assert_eq!(calls.get(), 2);
}

#[test]
fn each_tone_from_0_to_100_is_remembered_on_its_own() {
    let calls = Cell::new(0u32);
    let mut palette = TonalPalette::new(0, |tone: u32| {
        calls.set(calls.get() + 1);
        tone * 3
    });
    for round in 0..3 {
        for tone in 0..=100u32 {
            assert_eq!(palette.tone(tone), tone * 3);
        }
        assert_eq!(calls.get(), 101, "round {}", round);
    }
}
