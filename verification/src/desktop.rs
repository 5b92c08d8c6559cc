//! Which desktop environment runs, as named by `XDG_CURRENT_DESKTOP`, and
//! how the touchpad is switched there.

use crate::text::{enthaelt, gross, grossgeschrieben, klein, kleingeschrieben, kommt_vor, optional_sicht};
use vstd::prelude::*;

verus! {

broadcast use vstd::string::group_string_axioms;

/// The desktop name, upper-cased, contains `name`; an unset or unreadable
/// variable names no desktop.
pub open spec fn desktop_nennt(desktop: Option<Seq<char>>, name: Seq<char>) -> bool {
    match desktop {
        Some(v) => kommt_vor(grossgeschrieben(v), name),
        None => false,
    }
}

/// Whether the desktop name, upper-cased, contains `name`.
fn nennt(desktop: Option<&str>, name: &str) -> (r: bool)
    ensures
        r == desktop_nennt(optional_sicht(desktop), name@),
{
    match desktop {
        Some(v) => {
            let g = gross(v);
            enthaelt(g.as_str(), name)
        },
        None => false,
    }
}

/// The session is KDE Plasma: `XDG_CURRENT_DESKTOP` contains `KDE`,
/// ignoring case.
pub fn is_kde_desktop(desktop: Option<&str>) -> (r: bool)
    ensures
        r == desktop_nennt(optional_sicht(desktop), "KDE"@),
{
    nennt(desktop, "KDE")
}

/// The session is GNOME: `XDG_CURRENT_DESKTOP` contains `GNOME`, ignoring case.
pub fn is_gnome_desktop(desktop: Option<&str>) -> (r: bool)
    ensures
        r == desktop_nennt(optional_sicht(desktop), "GNOME"@),
{
    nennt(desktop, "GNOME")
}

/// Whether the current desktop environment supports touchpad toggling.
pub fn desktop_supported(desktop: Option<&str>) -> (r: bool)
    ensures
        r == (desktop_nennt(optional_sicht(desktop), "KDE"@) || desktop_nennt(
            optional_sicht(desktop),
            "GNOME"@,
        )),
{
    is_kde_desktop(desktop) || is_gnome_desktop(desktop)
}

/// How the touchpad is switched on the running desktop.
#[derive(Debug)]
pub enum TouchpadBefehl {
    /// Run `gsettings` with these arguments (GNOME).
    Gsettings(Vec<String>),
    /// Call KWin's touchpad module over D-Bus with these arguments (KDE).
    Qdbus(Vec<String>),
    /// No supported desktop; the lower-cased desktop name for the message.
    NichtUnterstuetzt(String),
}

/// The `gsettings` arguments that switch the touchpad on or off.
pub open spec fn gsettings_argumente(aktiv: bool) -> Seq<Seq<char>> {
    seq![
        "set"@,
        "org.gnome.desktop.peripherals.touchpad"@,
        "send-events"@,
        if aktiv { "enabled"@ } else { "disabled"@ },
    ]
}

/// The D-Bus call that switches the touchpad on or off in KDE.
pub open spec fn kde_touchpad_argumente(aktiv: bool) -> Seq<Seq<char>> {
    seq![
        "org.kde.kglobalaccel"@,
        "/modules/kded_touchpad"@,
        if aktiv { "org.kde.touchpad.enable"@ } else { "org.kde.touchpad.disable"@ },
    ]
}

/// Chooses how to enable (`aktiv`) or disable the touchpad: `gsettings` on
/// GNOME, KWin's D-Bus interface on KDE, and an error naming the desktop
/// elsewhere. GNOME is checked first.
pub fn touchpad_befehl(aktiv: bool, desktop: Option<&str>) -> (r: TouchpadBefehl)
    ensures
        match r {
            TouchpadBefehl::Gsettings(a) => {
                &&& desktop_nennt(optional_sicht(desktop), "GNOME"@)
                &&& a.deep_view() == gsettings_argumente(aktiv)
            },
            TouchpadBefehl::Qdbus(a) => {
                &&& !desktop_nennt(optional_sicht(desktop), "GNOME"@)
                &&& desktop_nennt(optional_sicht(desktop), "KDE"@)
                &&& a.deep_view() == kde_touchpad_argumente(aktiv)
            },
            TouchpadBefehl::NichtUnterstuetzt(name) => {
                &&& !desktop_nennt(optional_sicht(desktop), "GNOME"@)
                &&& !desktop_nennt(optional_sicht(desktop), "KDE"@)
                &&& name@ == kleingeschrieben(
                    match desktop {
                        Some(v) => v@,
                        None => Seq::empty(),
                    },
                )
            },
        },
{
    if is_gnome_desktop(desktop) {
        let wert = if aktiv {
            "enabled"
        } else {
            "disabled"
        };
        let a = vec![
            "set".to_string(),
            "org.gnome.desktop.peripherals.touchpad".to_string(),
            "send-events".to_string(),
            wert.to_string(),
        ];
        assert(a.deep_view() =~= gsettings_argumente(aktiv));
        TouchpadBefehl::Gsettings(a)
    } else if is_kde_desktop(desktop) {
        let methode = if aktiv {
            "org.kde.touchpad.enable"
        } else {
            "org.kde.touchpad.disable"
        };
        let a = vec![
            "org.kde.kglobalaccel".to_string(),
            "/modules/kded_touchpad".to_string(),
            methode.to_string(),
        ];
        assert(a.deep_view() =~= kde_touchpad_argumente(aktiv));
        TouchpadBefehl::Qdbus(a)
    } else {
        let name = match desktop {
            Some(v) => v,
            None => "",
        };
        proof {
            reveal_strlit("");
        }
        assert(name@ == match desktop {
            Some(v) => v@,
            None => Seq::<char>::empty(),
        });
        TouchpadBefehl::NichtUnterstuetzt(klein(name))
    }
}

} // verus!
