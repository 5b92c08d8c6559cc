use ayuz::tippen::{
    gestures_suppressed, is_typing_key, ist_tastenanschlag, touchpad_ziel, TypingConfig, WatcherAktion,
    WatcherEreignis, WatcherZustand,
};

fn cfg(g: bool, t: bool, ms: u32) -> TypingConfig {
    TypingConfig { disable_gestures: g, disable_touchpad: t, reactivation_delay_ms: ms }
}

const NICHTS: WatcherAktion = WatcherAktion { gesten: None, touchpad: None, beenden: false };

#[test]
fn any_enabled_wenn_eine_option_an() {
    assert!(!cfg(false, false, 500).any_enabled());
    assert!(cfg(true, false, 500).any_enabled());
    assert!(cfg(false, true, 500).any_enabled());
    assert!(cfg(true, true, 500).any_enabled());
}

#[test]
fn tipptasten() {
    assert!(is_typing_key(1)); // KEY_ESC
    assert!(is_typing_key(30)); // KEY_A
    assert!(is_typing_key(57)); // KEY_SPACE
    assert!(is_typing_key(127)); // KEY_COMPOSE
    assert!(!is_typing_key(0));
    assert!(!is_typing_key(128));
    for m in [42u16, 54, 29, 97, 56, 100, 125, 126] {
        assert!(!is_typing_key(m));
    }
    assert!(!is_typing_key(272)); // BTN_LEFT
    assert!(!is_typing_key(113)); // KEY_MUTE
    assert!(!is_typing_key(114)); // KEY_VOLUMEDOWN
    assert!(!is_typing_key(115)); // KEY_VOLUMEUP
    assert!(is_typing_key(112)); // KEY_MACRO lies before the media keys
}

#[test]
fn gestensperre_folgt_neuer_konfig_beim_tippen() {
    let c = cfg(true, true, 5000);
    let mut z = WatcherZustand::new();
    z.schritt(&c, WatcherEreignis::Taste(true));
    assert!(gestures_suppressed(&z));
    assert_eq!(
        z.schritt(&c, WatcherEreignis::KonfigGeaendert(Some(cfg(false, true, 5000)))),
        WatcherAktion { gesten: Some(false), touchpad: None, beenden: false }
    );
    assert!(!gestures_suppressed(&z));
    let c2 = cfg(false, true, 5000);
    assert_eq!(
        z.schritt(&c2, WatcherEreignis::KonfigGeaendert(Some(cfg(true, true, 5000)))),
        WatcherAktion { gesten: Some(true), touchpad: None, beenden: false }
    );
    assert!(gestures_suppressed(&z));
    // the touchpad that the watcher switched off is still restored at the end of typing
    assert_eq!(
        z.schritt(&c, WatcherEreignis::Zeitablauf),
        WatcherAktion { gesten: Some(false), touchpad: Some(true), beenden: false }
    );
}

#[test]
fn tastenanschlag_nur_bei_druck() {
    assert!(ist_tastenanschlag(30, 1));
    assert!(ist_tastenanschlag(30, 2));
    assert!(!ist_tastenanschlag(30, 0));
    assert!(!ist_tastenanschlag(42, 1));
}

#[test]
fn touchpad_nur_wenn_profil_es_erlaubt() {
    assert_eq!(touchpad_ziel(true, false), Some(false));
    assert_eq!(touchpad_ziel(true, true), Some(true));
    assert_eq!(touchpad_ziel(false, false), None);
}

#[test]
fn tippen_schaltet_aus_und_ruhe_wieder_ein() {
    let c = cfg(true, true, 800);
    let mut z = WatcherZustand::new();
    assert!(!gestures_suppressed(&z));
    assert_eq!(z.wartezeit_ms(&c), None);
    let a = z.schritt(&c, WatcherEreignis::Taste(true));
    assert_eq!(a, WatcherAktion { gesten: Some(true), touchpad: Some(false), beenden: false });
    assert!(gestures_suppressed(&z));
    assert_eq!(z.wartezeit_ms(&c), Some(800));
    assert_eq!(z.schritt(&c, WatcherEreignis::Taste(true)), NICHTS);
    let a = z.schritt(&c, WatcherEreignis::Zeitablauf);
    assert_eq!(a, WatcherAktion { gesten: Some(false), touchpad: Some(true), beenden: false });
    assert!(!gestures_suppressed(&z));
    assert_eq!(z, WatcherZustand::new());
}

#[test]
fn nur_gesten_beruehrt_touchpad_nicht() {
    let c = cfg(true, false, 300);
    let mut z = WatcherZustand::new();
    assert_eq!(
        z.schritt(&c, WatcherEreignis::Taste(true)),
        WatcherAktion { gesten: Some(true), touchpad: None, beenden: false }
    );
    assert_eq!(
        z.schritt(&c, WatcherEreignis::Zeitablauf),
        WatcherAktion { gesten: Some(false), touchpad: None, beenden: false }
    );
}

#[test]
fn ausgeschaltete_optionen_ignorieren_tasten() {
    let c = cfg(false, false, 300);
    let mut z = WatcherZustand::new();
    assert_eq!(z.schritt(&c, WatcherEreignis::Taste(true)), NICHTS);
    assert_eq!(z, WatcherZustand::new());
}

#[test]
fn abschalten_waehrend_tippen_stellt_sofort_her() {
    let c = cfg(false, true, 5000);
    let mut z = WatcherZustand::new();
    z.schritt(&c, WatcherEreignis::Taste(true));
    assert_eq!(
        z.schritt(&c, WatcherEreignis::KonfigGeaendert(Some(cfg(false, true, 100)))),
        WatcherAktion { gesten: Some(false), touchpad: None, beenden: false }
    );
    assert_eq!(
        z.schritt(&c, WatcherEreignis::KonfigGeaendert(Some(cfg(false, false, 100)))),
        WatcherAktion { gesten: Some(false), touchpad: Some(true), beenden: false }
    );
}

#[test]
fn ende_laesst_touchpad_nie_aus() {
    let c = cfg(true, true, 5000);
    let mut z = WatcherZustand::new();
    z.schritt(&c, WatcherEreignis::Taste(true));
    assert_eq!(
        z.schritt(&c, WatcherEreignis::KonfigGeaendert(None)),
        WatcherAktion { gesten: Some(false), touchpad: Some(true), beenden: true }
    );
    let mut z = WatcherZustand::new();
    assert_eq!(
        z.schritt(&c, WatcherEreignis::KonfigGeaendert(None)),
        WatcherAktion { gesten: Some(false), touchpad: None, beenden: true }
    );
}

#[test]
fn ohne_tastaturen_laeuft_der_waechter_weiter() {
    let c = cfg(true, true, 5000);
    let mut z = WatcherZustand::new();
    assert!(z.liest_tasten());
    z.schritt(&c, WatcherEreignis::Taste(true));
    // every keyboard stream ends while typing: restore, but keep running
    assert_eq!(
        z.schritt(&c, WatcherEreignis::Taste(false)),
        WatcherAktion { gesten: Some(false), touchpad: Some(true), beenden: false }
    );
    assert!(!z.liest_tasten());
    assert!(!gestures_suppressed(&z));
    assert_eq!(z.wartezeit_ms(&c), None);
    assert_eq!(z.schritt(&c, WatcherEreignis::KonfigGeaendert(Some(cfg(false, true, 10)))), NICHTS);
    // only the configuration sender going away ends it
    assert_eq!(
        z.schritt(&c, WatcherEreignis::KonfigGeaendert(None)),
        WatcherAktion { gesten: Some(false), touchpad: None, beenden: true }
    );
    let mut z = WatcherZustand::new();
    assert_eq!(
        z.schritt(&c, WatcherEreignis::Taste(false)),
        WatcherAktion { gesten: Some(false), touchpad: None, beenden: false }
    );
    assert!(!z.liest_tasten());
}

#[test]
fn konfig_wechsel_in_ruhe_aendert_nichts() {
    let mut z = WatcherZustand::new();
    assert_eq!(z.schritt(&cfg(true, true, 1), WatcherEreignis::KonfigGeaendert(Some(cfg(false, true, 2)))), NICHTS);
    assert_eq!(z.schritt(&cfg(true, true, 1), WatcherEreignis::Zeitablauf), NICHTS);
    assert_eq!(z, WatcherZustand::new());
}
