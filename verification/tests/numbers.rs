//! Single-precision numbers, decimals, noise and text.

use synth_rs::decimal::{decimal, half_wave, minus, ratio};
use synth_rs::files;
use synth_rs::noise;
use synth_rs::single::{whole, Single};
use synth_rs::text;
use synth_rs::wav;

fn s(x: f32) -> Single {
    Single { bits: x.to_bits() }
}

#[test]
fn decimals_round_as_literals_do() {
    for (t, x) in [
        (0u32, 0.0f32),
        (1, 0.0001),
        (4, 0.0004),
        (18, 0.0018),
        (73, 0.0073),
        (6_480, 0.648),
        (6_555, 0.6555),
        (9_999, 0.9999),
        (10_000, 1.0),
        (146_8300, 146.83),
        (261_6300, 261.63),
        (2500_0000, 2500.0),
        (8900_0000, 8900.0),
        (u32::MAX, 429496.7295),
    ] {
        assert_eq!(decimal(t), s(x), "{t}");
    }
    assert_eq!(minus(0_7000), s(-0.7));
    assert_eq!(minus(0), s(-0.0));
}

#[test]
fn ratios_round_to_even_at_the_middle() {
    // 2^24 + 1 lies halfway between two singles.
    assert_eq!(ratio(16_777_217, 2), s(8_388_608.5));
    assert_eq!(ratio(33_554_433, 4), s(8_388_608.0));
    assert_eq!(ratio(33_554_435, 4), s(8_388_609.0));
    assert_eq!(ratio(1, 3), s(1.0 / 3.0));
    assert_eq!(ratio(1, 0x1_0000_0000), s(1.0 / 4_294_967_296.0));
}

#[test]
fn half_waves_are_divisions() {
    for hz in [1.0f32, 36.71, 51.91, 146.83, 196.0, 207.65, 4095.0] {
        assert_eq!(half_wave(s(hz)), s(343.0 / (2.0 * hz)), "{hz}");
    }
}

#[test]
fn comparisons_follow_the_numbers() {
    let xs = [f32::NEG_INFINITY, -2.5, -1.0, -1e-45, -0.0, 0.0, 1e-45, 0.5, 1.0, 3e38, f32::INFINITY, f32::NAN];
    for a in xs {
        assert_eq!(s(a).nan(), a.is_nan());
        for b in xs {
            assert_eq!(s(a).less(s(b)), a < b, "{a} < {b}");
            assert_eq!(s(a).less_eq(s(b)), a <= b, "{a} <= {b}");
            if a != b && !a.is_nan() && !b.is_nan() {
                assert_eq!(s(a).max(s(b)), s(a.max(b)));
                assert_eq!(s(a).min(s(b)), s(a.min(b)));
            }
        }
    }
    assert_eq!(s(f32::NAN).max(s(2.0)), s(2.0));
    assert_eq!(s(1.5).clamp(s(0.0), s(1.0)), s(1.0));
    assert_eq!(s(-1.5).clamp(s(0.0), s(1.0)), s(0.0));
    assert_eq!(s(0.25).clamp(s(0.0), s(1.0)), s(0.25));
}

#[test]
fn whole_numbers_are_exact() {
    for n in [0u32, 1, 2, 3, 127, 512, 48_000, 16_777_215] {
        assert_eq!(whole(n), s(n as f32));
    }
}

#[test]
fn the_noise_generator_steps_and_seeds() {
    let mut x: u32 = 1;
    x ^= x << 13;
    x ^= x >> 17;
    x ^= x << 5;
    assert_eq!(noise::next(1), x);
    assert_eq!(noise::next(1), 270_369);
    assert_ne!(noise::seed(0, 0), 0);
    assert_ne!(noise::seed(1, 0), noise::seed(2, 0));
}

#[test]
fn text_is_trimmed_compared_and_padded() {
    assert_eq!(text::trim("\u{3000} a b \n"), "a b");
    assert_eq!(text::trim(" \t "), "");
    assert!(text::same_text("größe", "größe"));
    assert!(!text::same_text("a", "ab"));
    assert!(text::contains_text("Launchkey MK4 DAW", "MK4"));
    assert!(text::contains_text("abc", ""));
    assert!(!text::contains_text("ab", "abc"));
    assert!(text::text_before("abc", "abd"));
    assert!(text::text_before("ab", "abc"));
    assert!(!text::text_before("abc", "abc"));
    assert_eq!(text::decimal_text(0), "0");
    assert_eq!(text::decimal_text(1_234_567), "1234567");
    assert_eq!(text::pad_right("CC", 4), "CC  ");
    assert_eq!(text::pad_left("7", 3), "  7");
    assert_eq!(text::pad_left("1234", 3), "1234");
    assert_eq!(text::hex_text(0x7f), "7F");
    assert_eq!(text::hex_text(5), "05");
}

#[test]
fn names_are_ordered_by_their_lower_case() {
    let names: Vec<String> = ["b", "A", "Ä", "a", "Z"].iter().map(|x| x.to_string()).collect();
    assert_eq!(files::sorted_names(&names), vec!["A", "a", "b", "Z", "Ä"]);
    assert_eq!(files::name_order(&names), vec![1, 3, 0, 4, 2]);
    assert!(files::is_json_file("song.json"));
    assert!(!files::is_json_file("song.jsonx"));
    assert!(!files::is_json_file(".json"));
}

#[test]
fn a_wav_file_has_its_header() {
    let bytes = wav::pcm16_mono(48_000, &vec![0i16, 1, -1, i16::MAX]);
    assert_eq!(bytes.len(), 44 + 4 * 2);
    assert_eq!(&bytes[0..4], b"RIFF");
    assert_eq!(u32::from_le_bytes([bytes[4], bytes[5], bytes[6], bytes[7]]), 36 + 8);
    assert_eq!(&bytes[8..16], b"WAVEfmt ");
    assert_eq!(u32::from_le_bytes([bytes[24], bytes[25], bytes[26], bytes[27]]), 48_000);
    assert_eq!(&bytes[36..40], b"data");
    assert_eq!(&bytes[44..], &[0, 0, 1, 0, 0xFF, 0xFF, 0xFF, 0x7F]);
}
