use ayuz::desktop::{desktop_supported, is_gnome_desktop, is_kde_desktop, touchpad_befehl, TouchpadBefehl};
use ayuz::text::{enthaelt, gleich};
use ayuz::zahlen::{i32_text, u32_lesen, u32_text};

#[test]
fn gleichheit_zeichenweise() {
    assert!(gleich("", ""));
    assert!(gleich("true", "true"));
    assert!(!gleich("true", "tru"));
    assert!(!gleich("true", "True"));
    assert!(gleich("äöü", "äöü"));
}

#[test]
fn teilfolgen_suche() {
    assert!(enthaelt("ubuntu:GNOME", "GNOME"));
    assert!(enthaelt("KDE", "KDE"));
    assert!(enthaelt("abc", ""));
    assert!(!enthaelt("KD", "KDE"));
    assert!(!enthaelt("XFCE", "KDE"));
    assert!(enthaelt("aaab", "aab"));
}

#[test]
fn kde_erkennung_ohne_gross_klein() {
    assert!(is_kde_desktop(Some("KDE")));
    assert!(is_kde_desktop(Some("kde")));
    assert!(is_kde_desktop(Some("plasma:Kde")));
    assert!(!is_kde_desktop(Some("GNOME")));
    assert!(!is_kde_desktop(None));
    assert!(!is_kde_desktop(Some("")));
}

#[test]
fn gnome_erkennung() {
    assert!(is_gnome_desktop(Some("ubuntu:GNOME")));
    assert!(is_gnome_desktop(Some("gnome")));
    assert!(!is_gnome_desktop(Some("KDE")));
    assert!(!is_gnome_desktop(None));
}

#[test]
fn unterstuetzte_desktops() {
    assert!(desktop_supported(Some("KDE")));
    assert!(desktop_supported(Some("GNOME")));
    assert!(!desktop_supported(Some("XFCE")));
    assert!(!desktop_supported(None));
}

fn texte(v: &[&str]) -> Vec<String> {
    v.iter().map(|s| s.to_string()).collect()
}

#[test]
fn touchpad_befehl_gnome() {
    match touchpad_befehl(false, Some("GNOME")) {
        TouchpadBefehl::Gsettings(a) => assert_eq!(
            a,
            texte(&["set", "org.gnome.desktop.peripherals.touchpad", "send-events", "disabled"])
        ),
        _ => panic!("gsettings expected"),
    }
    match touchpad_befehl(true, Some("ubuntu:GNOME")) {
        TouchpadBefehl::Gsettings(a) => assert_eq!(a[3], "enabled"),
        _ => panic!("gsettings expected"),
    }
}

#[test]
fn touchpad_befehl_kde() {
    match touchpad_befehl(true, Some("KDE")) {
        TouchpadBefehl::Qdbus(a) => assert_eq!(
            a,
            texte(&["org.kde.kglobalaccel", "/modules/kded_touchpad", "org.kde.touchpad.enable"])
        ),
        _ => panic!("qdbus expected"),
    }
    match touchpad_befehl(false, Some("KDE")) {
        TouchpadBefehl::Qdbus(a) => assert_eq!(a[2], "org.kde.touchpad.disable"),
        _ => panic!("qdbus expected"),
    }
}

#[test]
fn touchpad_befehl_sonst_fehler() {
    match touchpad_befehl(true, Some("XFCE")) {
        TouchpadBefehl::NichtUnterstuetzt(d) => assert_eq!(d, "xfce"),
        _ => panic!("error expected"),
    }
    match touchpad_befehl(true, None) {
        TouchpadBefehl::NichtUnterstuetzt(d) => assert_eq!(d, ""),
        _ => panic!("error expected"),
    }
}

#[test]
fn zahlen_schreiben() {
    assert_eq!(u32_text(0), "0");
    assert_eq!(u32_text(7), "7");
    assert_eq!(u32_text(80), "80");
    assert_eq!(u32_text(4294967295), "4294967295");
    assert_eq!(i32_text(0), "0");
    assert_eq!(i32_text(3), "3");
    assert_eq!(i32_text(-42), "-42");
    assert_eq!(i32_text(i32::MIN), "-2147483648");
    assert_eq!(i32_text(i32::MAX), "2147483647");
}

#[test]
fn zahlen_lesen_wie_parse() {
    for s in ["0", "42", "+7", "007", "4294967295", "", "+", "-1", "4294967296", " 5", "5 ", "1a", "++1", "99999999999999999999"] {
        assert_eq!(u32_lesen(s), s.parse::<u32>().ok(), "input {:?}", s);
    }
}

#[test]
fn zahlen_rundweg() {
    for n in [0u32, 1, 9, 10, 99, 100, 12345, 4294967295] {
        assert_eq!(u32_lesen(&u32_text(n)), Some(n));
    }
}
