use hdrview::tone_map::{ToneMapMode, TONE_MAP_MODE_COUNT};

const ALL: [ToneMapMode; 6] = [
    ToneMapMode::Off,
    ToneMapMode::Aces,
    ToneMapMode::RenoAces,
    ToneMapMode::GranTurismo7,
    ToneMapMode::Reinhard,
    ToneMapMode::Neutwo,
];

#[test]
fn next_follows_the_cycle() {
    assert_eq!(ToneMapMode::Off.next(), ToneMapMode::Aces);
    assert_eq!(ToneMapMode::Aces.next(), ToneMapMode::RenoAces);
    assert_eq!(ToneMapMode::RenoAces.next(), ToneMapMode::GranTurismo7);
    assert_eq!(ToneMapMode::GranTurismo7.next(), ToneMapMode::Reinhard);
    assert_eq!(ToneMapMode::Reinhard.next(), ToneMapMode::Neutwo);
    assert_eq!(ToneMapMode::Neutwo.next(), ToneMapMode::Off);
}

#[test]
fn six_presses_return_to_the_start() {
    for m in ALL {
        let mut x = m;
        for n in 1..=TONE_MAP_MODE_COUNT {
            x = x.next();
            if n < TONE_MAP_MODE_COUNT {
                assert_ne!(x, m);
            }
        }
        assert_eq!(x, m);
    }
}

#[test]
fn labels_and_tags() {
    let labels: Vec<&str> = ALL.iter().map(|m| m.label()).collect();
    assert_eq!(labels, vec!["off", "aces", "reno-aces", "gt7", "reinhard", "neutwo"]);
    let tags: Vec<&str> = ALL.iter().map(|m| m.overlay_tag()).collect();
    assert_eq!(tags, vec!["OFF", "ACES", "RENO-ACES", "GT7", "RH", "NEU"]);
}

#[test]
fn shader_codes_are_declaration_order() {
    for (i, m) in ALL.iter().enumerate() {
        assert_eq!(m.shader_code(), i as u32);
        assert_eq!(m.next().shader_code(), (i as u32 + 1) % 6);
    }
}
