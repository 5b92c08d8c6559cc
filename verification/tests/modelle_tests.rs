use ayuz::befehle::{befehl_auswerten, pkexec_argumente, BefehlAusgang, BefehlFehler};
use ayuz::ruhezustand::{
    busctl_brightness_cmd, modus_zahl, swayidle_args, timeout_sekunden, RuhezustandCommandOutput, RuhezustandKonfig,
    RuhezustandModel, RuhezustandMsg, TimeoutModus,
};
use ayuz::sprachen::{sprach_anzeigenamen, sprach_code, sprach_position};
use ayuz::tippen::TypingConfig;
use ayuz::typing::{ProfilAenderung, TypingModel, TypingMsg, WatcherBefehl};
use ayuz::zielmodus::{
    kwin_bool_auswerten, kwin_bool_leseargumente, kwin_effekt_dbus_argumente, kwin_effekt_schreibargumente,
    kwin_nach_schreiben, kwin_schreibargumente, kwin_staerke_dbus_argumente, kwin_staerke_schreibargumente,
    kwin_u32_auswerten, kwin_u32_leseargumente,
    ZielmodusAuftrag, ZielmodusCommandOutput, ZielmodusModel, ZielmodusMsg,
};

fn texte(v: &[&str]) -> Vec<String> {
    v.iter().map(|s| s.to_string()).collect()
}

const BUSCTL: &str = "busctl call --system org.freedesktop.UPower /org/freedesktop/UPower/KbdBacklight org.freedesktop.UPower.KbdBacklight SetBrightness i ";

#[test]
fn timeout_modus_aus_zahl() {
    assert_eq!(TimeoutModus::from(0), TimeoutModus::Nichts);
    assert_eq!(TimeoutModus::from(1), TimeoutModus::AkkuUndNetz);
    assert_eq!(TimeoutModus::from(2), TimeoutModus::NurAkku);
    assert_eq!(TimeoutModus::from(3), TimeoutModus::Nichts);
    assert_eq!(TimeoutModus::from(u32::MAX), TimeoutModus::Nichts);
    assert_eq!(TimeoutModus::default(), TimeoutModus::Nichts);
    for m in [TimeoutModus::Nichts, TimeoutModus::AkkuUndNetz, TimeoutModus::NurAkku] {
        assert_eq!(TimeoutModus::from(modus_zahl(m)), m);
    }
}

#[test]
fn timeouts() {
    assert_eq!(timeout_sekunden(0), 60);
    assert_eq!(timeout_sekunden(1), 120);
    assert_eq!(timeout_sekunden(2), 300);
    assert_eq!(timeout_sekunden(3), 60);
    assert_eq!(timeout_sekunden(u32::MAX), 60);
}

#[test]
fn busctl_befehle() {
    assert_eq!(busctl_brightness_cmd(0, false), format!("{BUSCTL}0"));
    assert_eq!(busctl_brightness_cmd(3, false), format!("{BUSCTL}3"));
    assert_eq!(
        busctl_brightness_cmd(0, true),
        format!("if [ \"$(cat /sys/class/power_supply/*/online | head -n1)\" = \"0\" ]; then {BUSCTL}0; fi")
    );
    assert_eq!(busctl_brightness_cmd(-5, false), format!("{BUSCTL}-5"));
}

#[test]
fn swayidle_argumente() {
    assert_eq!(
        swayidle_args(120, false),
        vec![
            "-w".to_string(),
            "timeout".to_string(),
            "120".to_string(),
            busctl_brightness_cmd(0, false),
            "resume".to_string(),
            busctl_brightness_cmd(3, false),
        ]
    );
}

#[test]
fn ruhezustand_start_und_wechsel() {
    let (mut m, a) = RuhezustandModel::init(0, 1, 2);
    assert_eq!(m.timeout_modus(), TimeoutModus::Nichts);
    assert!(!a.beenden);
    assert!(a.starten.is_none());
    assert!(!m.swayidle_laeuft());

    let (k, a) = m.update(RuhezustandMsg::ModusWechseln(TimeoutModus::AkkuUndNetz));
    assert_eq!(k, RuhezustandKonfig::Modus(1));
    let a = a.unwrap();
    assert!(!a.beenden);
    assert_eq!(a.starten.unwrap(), swayidle_args(120, false));
    assert!(m.swayidle_laeuft());

    // the battery-only timeout does not affect the running mode
    let (k, a) = m.update(RuhezustandMsg::NurAkkuZeitGeaendert(0));
    assert_eq!(k, RuhezustandKonfig::NurAkkuIndex(0));
    assert!(a.is_none());

    let (k, a) = m.update(RuhezustandMsg::AkkuNetzZeitGeaendert(2));
    assert_eq!(k, RuhezustandKonfig::AkkuNetzIndex(2));
    let a = a.unwrap();
    assert!(a.beenden);
    assert_eq!(a.starten.unwrap(), swayidle_args(300, false));

    let (_, a) = m.update(RuhezustandMsg::ModusWechseln(TimeoutModus::NurAkku));
    let a = a.unwrap();
    assert!(a.beenden);
    assert_eq!(a.starten.unwrap(), swayidle_args(60, true));

    let (k, a) = m.update(RuhezustandMsg::ModusWechseln(TimeoutModus::Nichts));
    assert_eq!(k, RuhezustandKonfig::Modus(0));
    let a = a.unwrap();
    assert!(a.beenden);
    assert!(a.starten.is_none());
    assert!(!m.swayidle_laeuft());
}

#[test]
fn ruhezustand_start_mit_timeout() {
    let (m, a) = RuhezustandModel::init(2, 0, 7);
    assert_eq!(m.timeout_modus(), TimeoutModus::NurAkku);
    assert!(!a.beenden);
    assert_eq!(a.starten.unwrap(), swayidle_args(60, true));
    assert_eq!(m.update_cmd(RuhezustandCommandOutput::Fehler("x".to_string())), "x");
}

#[test]
fn zielmodus_start() {
    let (m, speichern) = ZielmodusModel::init(true, Some(true), None, false, 40);
    assert!(m.aktiv());
    assert_eq!(m.staerke(), 40);
    assert!(m.kde_verfuegbar());
    assert_eq!(speichern, Some((true, 40)));

    let (m, speichern) = ZielmodusModel::init(false, Some(true), Some(90), false, 40);
    assert!(!m.aktiv());
    assert_eq!(m.staerke(), 40);
    assert_eq!(speichern, None);
}

#[test]
fn zielmodus_update() {
    let (mut m, _) = ZielmodusModel::init(true, Some(false), Some(50), false, 40);
    assert_eq!(m.update(ZielmodusMsg::AktivSetzen(false)), None);
    assert_eq!(m.update(ZielmodusMsg::AktivSetzen(true)), Some(ZielmodusAuftrag::Effekt(true)));
    assert_eq!(m.update(ZielmodusMsg::AktivSetzen(true)), None);
    assert_eq!(m.update(ZielmodusMsg::StaerkeSetzen(50)), None);
    assert_eq!(m.update(ZielmodusMsg::StaerkeSetzen(75)), Some(ZielmodusAuftrag::Staerke(75)));
    assert_eq!(m.staerke(), 75);
    assert_eq!(m.update_cmd(ZielmodusCommandOutput::AktivGesetzt(true)), None);
    assert_eq!(m.update_cmd(ZielmodusCommandOutput::StaerkeGesetzt(3)), None);
    assert_eq!(m.update_cmd(ZielmodusCommandOutput::Fehler("kaputt".to_string())), Some("kaputt".to_string()));
}

#[test]
fn zielmodus_kwin_argumente() {
    assert_eq!(
        kwin_effekt_schreibargumente(true),
        texte(&["--file", "kwinrc", "--group", "Plugins", "--key", "diminactiveEnabled", "--type", "bool", "true"])
    );
    assert_eq!(kwin_effekt_schreibargumente(false)[8], "false");
    assert_eq!(kwin_effekt_dbus_argumente(true), texte(&["org.kde.KWin", "/Effects", "loadEffect", "diminactive"]));
    assert_eq!(kwin_effekt_dbus_argumente(false)[2], "unloadEffect");
    assert_eq!(
        kwin_staerke_schreibargumente(35),
        texte(&["--file", "kwinrc", "--group", "Effect-DimInactive", "--key", "Strength", "35"])
    );
    assert_eq!(kwin_staerke_dbus_argumente(), texte(&["org.kde.KWin", "/Effects", "reconfigureEffect", "diminactive"]));
    assert_eq!(
        kwin_bool_leseargumente("Plugins", "diminactiveEnabled"),
        texte(&["--file", "kwinrc", "--group", "Plugins", "--key", "diminactiveEnabled", "--default", "false"])
    );
    assert_eq!(
        kwin_u32_leseargumente("Effect-DimInactive", "Strength", 40),
        texte(&["--file", "kwinrc", "--group", "Effect-DimInactive", "--key", "Strength", "--default", "40"])
    );
}

#[test]
fn zielmodus_kwin_ausgabe_lesen() {
    assert!(kwin_bool_auswerten("true\n"));
    assert!(kwin_bool_auswerten("  TRUE "));
    assert!(!kwin_bool_auswerten("false\n"));
    assert!(!kwin_bool_auswerten(""));
    assert!(!kwin_bool_auswerten("truely"));
    assert_eq!(kwin_u32_auswerten("40\n"), Some(40));
    assert_eq!(kwin_u32_auswerten(" 100 "), Some(100));
    assert_eq!(kwin_u32_auswerten("\n"), None);
    assert_eq!(kwin_u32_auswerten("abc"), None);
    assert_eq!(kwin_u32_auswerten("-3"), None);
}

fn cfg(g: bool, t: bool, ms: u32) -> TypingConfig {
    TypingConfig { disable_gestures: g, disable_touchpad: t, reactivation_delay_ms: ms }
}

#[test]
fn typing_start() {
    let (m, b) = TypingModel::init(false, false, 500, true);
    assert_eq!(b, WatcherBefehl::Stoppen);
    assert!(!m.watcher_laeuft());
    let (m, b) = TypingModel::init(false, true, 500, true);
    assert_eq!(b, WatcherBefehl::Starten(cfg(false, true, 500)));
    assert!(m.watcher_laeuft());
    // without desktop support the touchpad option does nothing
    let (m, b) = TypingModel::init(false, true, 500, false);
    assert_eq!(b, WatcherBefehl::Stoppen);
    assert_eq!(m.watcher_config(), cfg(false, false, 500));
}

#[test]
fn typing_update() {
    let (mut m, _) = TypingModel::init(false, false, 500, true);
    assert_eq!(m.update(TypingMsg::ToggleDisableGestures(false)), (None, None));
    assert_eq!(
        m.update(TypingMsg::ToggleDisableGestures(true)),
        (Some(ProfilAenderung::GestenSperre(true)), Some(WatcherBefehl::Starten(cfg(true, false, 500))))
    );
    assert_eq!(
        m.update(TypingMsg::DelayChanged(1200)),
        (Some(ProfilAenderung::Verzoegerung(1200)), Some(WatcherBefehl::Senden(cfg(true, false, 1200))))
    );
    assert_eq!(m.update(TypingMsg::DelayChanged(1200)), (None, None));
    assert_eq!(
        m.update(TypingMsg::ToggleDisableTouchpad(true)),
        (Some(ProfilAenderung::TouchpadSperre(true)), Some(WatcherBefehl::Senden(cfg(true, true, 1200))))
    );
    assert_eq!(
        m.update(TypingMsg::LoadProfile { disable_gestures: false, disable_touchpad: false, delay_ms: 300 }),
        (None, Some(WatcherBefehl::Stoppen))
    );
    assert!(!m.watcher_laeuft());
    assert_eq!(m.delay_ms(), 300);
    assert!(!m.disable_gestures());
    assert!(!m.disable_touchpad());
    assert!(m.desktop_supported());
}

#[test]
fn befehle_auswerten() {
    assert!(befehl_auswerten("gsettings", BefehlAusgang::Beendet(Some(0))).is_ok());
    match befehl_auswerten("gsettings", BefehlAusgang::Beendet(Some(2))) {
        Err(BefehlFehler::ExitCode { cmd, code }) => {
            assert_eq!(cmd, "gsettings");
            assert_eq!(code, 2);
        }
        _ => panic!("exit code error expected"),
    }
    match befehl_auswerten("pkexec", BefehlAusgang::Beendet(None)) {
        Err(BefehlFehler::ExitCode { code, .. }) => assert_eq!(code, -1),
        _ => panic!("exit code error expected"),
    }
    match befehl_auswerten("nope", BefehlAusgang::StartFehler("not found".to_string())) {
        Err(BefehlFehler::Start { cmd, fehler }) => {
            assert_eq!(cmd, "nope");
            assert_eq!(fehler, "not found");
        }
        _ => panic!("start error expected"),
    }
    match befehl_auswerten("x", BefehlAusgang::HintergrundFehler("panicked".to_string())) {
        Err(BefehlFehler::Hintergrund { fehler }) => assert_eq!(fehler, "panicked"),
        _ => panic!("background error expected"),
    }
    assert_eq!(pkexec_argumente("echo 1 > /x"), texte(&["sh", "-c", "echo 1 > /x"]));
}

#[test]
fn sprachen() {
    assert_eq!(sprach_anzeigenamen(), vec!["English", "Deutsch"]);
    assert_eq!(sprach_code(0), Some("en"));
    assert_eq!(sprach_code(1), Some("de"));
    assert_eq!(sprach_code(2), None);
    assert_eq!(sprach_position("en"), Some(0));
    assert_eq!(sprach_position("de"), Some(1));
    assert_eq!(sprach_position("fr"), None);
    for i in 0..2 {
        assert_eq!(sprach_position(sprach_code(i).unwrap()), Some(i));
    }
}

#[test]
fn zielmodus_kwin_reihenfolge() {
    assert_eq!(kwin_schreibargumente(ZielmodusAuftrag::Effekt(true)), kwin_effekt_schreibargumente(true));
    assert_eq!(kwin_schreibargumente(ZielmodusAuftrag::Staerke(20)), kwin_staerke_schreibargumente(20));
    assert_eq!(
        kwin_nach_schreiben(ZielmodusAuftrag::Effekt(false), Ok(())),
        Ok(kwin_effekt_dbus_argumente(false))
    );
    assert_eq!(kwin_nach_schreiben(ZielmodusAuftrag::Staerke(20), Ok(())), Ok(kwin_staerke_dbus_argumente()));
    assert_eq!(
        kwin_nach_schreiben(ZielmodusAuftrag::Staerke(20), Err("kwriteconfig6 failed".to_string())),
        Err("kwriteconfig6 failed".to_string())
    );
}

#[test]
fn zielmodus_standardwert_kommt_zurueck() {
    for n in [0u32, 40, 100, 4294967295] {
        assert_eq!(kwin_u32_auswerten(&format!("{}\n", kwin_u32_leseargumente("G", "K", n)[7])), Some(n));
    }
    // trimming goes by Unicode White_Space, as str::trim does
    assert_eq!(kwin_u32_auswerten("\u{a0}5\u{3000}"), Some(5));
    assert_eq!(kwin_u32_auswerten("\u{200b}5"), None);
}

#[test]
fn ruhezustand_swayidle_nur_wenn_modus() {
    let (mut m, _) = RuhezustandModel::init(1, 0, 0);
    assert!(m.swayidle_laeuft());
    m.update(RuhezustandMsg::AkkuNetzZeitGeaendert(1));
    assert!(m.swayidle_laeuft());
    m.update(RuhezustandMsg::ModusWechseln(TimeoutModus::Nichts));
    assert!(!m.swayidle_laeuft());
    let (_, a) = m.update(RuhezustandMsg::ModusWechseln(TimeoutModus::Nichts));
    assert!(!a.unwrap().beenden);
}
