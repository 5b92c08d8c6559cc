//! Palm rejection: while the user types, touchpad edge gestures and/or the
//! whole touchpad are suppressed; both are undone once no key has been
//! pressed for the configured delay.
//!
//! The watcher's decisions live here as a state machine: the caller waits
//! for the next event (a configuration change, a keystroke, or the end of the
//! idle delay), hands it to [`WatcherZustand::schritt`], and carries out the
//! returned [`WatcherAktion`].

use vstd::prelude::*;

verus! {

/// Runtime configuration of the watcher, mirrored from the active profile.
#[derive(Clone, Copy, Debug, PartialEq, Eq, Structural)]
pub struct TypingConfig {
    /// Ignore touchpad edge gestures while typing.
    pub disable_gestures: bool,
    /// Turn the whole touchpad off while typing.
    pub disable_touchpad: bool,
    /// Idle time after the last keystroke before everything is restored.
    pub reactivation_delay_ms: u32,
}

impl TypingConfig {
    /// At least one of the two actions is switched on.
    pub open spec fn eingeschaltet(self) -> bool {
        self.disable_gestures || self.disable_touchpad
    }

    /// `true` when at least one of the two actions is switched on.
    pub fn any_enabled(&self) -> (r: bool)
        ensures
            r == self.eingeschaltet(),
    {
        self.disable_gestures || self.disable_touchpad
    }
}

/// Key code of `KEY_ESC`, the first key of the main keyboard block.
pub const KEY_ESC: u16 = 1;

/// Key code of `KEY_COMPOSE`, the last key of the main keyboard block.
pub const KEY_COMPOSE: u16 = 127;

/// Key codes of the modifiers: left and right Shift, Ctrl, Alt and Meta.
pub const KEY_LEFTCTRL: u16 = 29;
pub const KEY_LEFTSHIFT: u16 = 42;
pub const KEY_RIGHTSHIFT: u16 = 54;
pub const KEY_LEFTALT: u16 = 56;
pub const KEY_RIGHTCTRL: u16 = 97;
pub const KEY_RIGHTALT: u16 = 100;
pub const KEY_LEFTMETA: u16 = 125;
pub const KEY_RIGHTMETA: u16 = 126;

/// Key codes of the media keys inside the main block: mute, volume down, volume up.
pub const KEY_MUTE: u16 = 113;
pub const KEY_VOLUMEDOWN: u16 = 114;
pub const KEY_VOLUMEUP: u16 = 115;

/// A media key that lies inside the main keyboard block.
pub open spec fn ist_medientaste(code: u16) -> bool {
    code == KEY_MUTE || code == KEY_VOLUMEDOWN || code == KEY_VOLUMEUP
}

/// A modifier key: holding one while clicking is a pointer gesture, not typing.
pub open spec fn ist_modifier(code: u16) -> bool {
    code == KEY_LEFTSHIFT || code == KEY_RIGHTSHIFT || code == KEY_LEFTCTRL || code
        == KEY_RIGHTCTRL || code == KEY_LEFTALT || code == KEY_RIGHTALT || code == KEY_LEFTMETA
        || code == KEY_RIGHTMETA
}

/// Keys that count as typing: the main keyboard block without the modifiers
/// and without the media keys.
pub open spec fn ist_tipptaste(code: u16) -> bool {
    KEY_ESC <= code <= KEY_COMPOSE && !ist_modifier(code) && !ist_medientaste(code)
}

/// Keys that count as typing. Limited to the main keyboard block
/// (`KEY_ESC`..`KEY_COMPOSE`) so that media keys, mouse buttons and hotkeys
/// never trigger palm rejection; the media keys inside that block and the
/// modifiers are excluded as well.
pub fn is_typing_key(code: u16) -> (r: bool)
    ensures
        r == ist_tipptaste(code),
        r == (1 <= code <= 127 && !ausgenommene_tasten().contains(code)),
{
    proof {
        gesetz_tipptasten(code);
    }
    let modifier = code == KEY_LEFTSHIFT || code == KEY_RIGHTSHIFT || code == KEY_LEFTCTRL
        || code == KEY_RIGHTCTRL || code == KEY_LEFTALT || code == KEY_RIGHTALT || code
        == KEY_LEFTMETA || code == KEY_RIGHTMETA;
    let medien = code == KEY_MUTE || code == KEY_VOLUMEDOWN || code == KEY_VOLUMEUP;
    KEY_ESC <= code && code <= KEY_COMPOSE && !modifier && !medien
}

/// The key codes of the main keyboard block (1 to 127) that do not count as
/// typing: Ctrl, Shift, Alt and Meta on both sides (29, 42, 54, 56, 97, 100,
/// 125, 126) and mute, volume down, volume up (113, 114, 115).
pub open spec fn ausgenommene_tasten() -> Set<u16> {
    set![29u16, 42u16, 54u16, 56u16, 97u16, 100u16, 125u16, 126u16, 113u16, 114u16, 115u16]
}

/// Typing-key law: a key counts as typing exactly when its code lies in the
/// main keyboard block 1..=127 and is none of the eleven excluded modifier
/// and media keys; every other key of the block, such as Enter (28), counts.
pub proof fn gesetz_tipptasten(code: u16)
    ensures
        ist_tipptaste(code) <==> (1 <= code <= 127 && !ausgenommene_tasten().contains(code)),
{
}

/// A key event counts as a keystroke when it is a press or an autorepeat of a
/// typing key (value other than 0, the release).
pub fn ist_tastenanschlag(code: u16, wert: i32) -> (r: bool)
    ensures
        r == (wert != 0 && ist_tipptaste(code)),
{
    wert != 0 && is_typing_key(code)
}

/// What the touchpad switch does when the watcher asks for `gewuenscht`:
/// the user's manual switch stays authoritative, so nothing is done when the
/// profile has the touchpad switched off.
pub fn touchpad_ziel(profil_touchpad_aktiv: bool, gewuenscht: bool) -> (r: Option<bool>)
    ensures
        r == (if profil_touchpad_aktiv { Some(gewuenscht) } else { None }),
{
    if profil_touchpad_aktiv {
        Some(gewuenscht)
    } else {
        None
    }
}

/// The watcher's state.
#[derive(Clone, Copy, Debug, PartialEq, Eq, Structural)]
pub struct WatcherZustand {
    /// Typing is in progress: the idle delay is running.
    pub typing: bool,
    /// The watcher turned the touchpad off and owes turning it back on.
    pub touchpad_disabled_by_us: bool,
    /// Edge gestures are currently suppressed.
    pub gestures_suppressed: bool,
    /// Keystrokes can still arrive: some keyboard stream is open.
    pub tasten_offen: bool,
}

/// What the watcher waits for.
#[derive(Clone, Copy, Debug, PartialEq, Eq, Structural)]
pub enum WatcherEreignis {
    /// The configuration changed (`Some`), or its sender is gone (`None`).
    KonfigGeaendert(Option<TypingConfig>),
    /// A keystroke (`true`), or every keyboard stream has ended (`false`);
    /// the watcher then keeps running for its configuration.
    Taste(bool),
    /// The idle delay after the last keystroke has passed.
    Zeitablauf,
}

/// What the watcher does in response to one event, in this order.
#[derive(Clone, Copy, Debug, PartialEq, Eq, Structural)]
pub struct WatcherAktion {
    /// New value of the shared "gestures suppressed" flag, if it is set.
    pub gesten: Option<bool>,
    /// Turn the touchpad on (`true`) or off (`false`), if anything.
    pub touchpad: Option<bool>,
    /// The watcher ends after this step: its configuration sender is gone.
    pub beenden: bool,
}

/// Nothing to do.
pub open spec fn keine_aktion() -> WatcherAktion {
    WatcherAktion { gesten: None, touchpad: None, beenden: false }
}

/// The state in which the watcher starts.
pub open spec fn ruhezustand() -> WatcherZustand {
    WatcherZustand {
        typing: false,
        touchpad_disabled_by_us: false,
        gestures_suppressed: false,
        tasten_offen: true,
    }
}

impl WatcherZustand {
    /// Outside of typing nothing is suppressed and the touchpad is not ours to restore.
    pub open spec fn wf(self) -> bool {
        !self.typing ==> !self.touchpad_disabled_by_us && !self.gestures_suppressed
    }
}

/// The end of typing: gestures are allowed again and the touchpad is turned
/// back on if the watcher turned it off; `tasten_offen` says whether
/// keystrokes can still arrive.
pub open spec fn wiederherstellen(z: WatcherZustand, tasten_offen: bool, beenden: bool) -> (WatcherZustand, WatcherAktion) {
    (
        WatcherZustand {
            typing: false,
            touchpad_disabled_by_us: false,
            gestures_suppressed: false,
            tasten_offen,
        },
        WatcherAktion {
            gesten: Some(false),
            touchpad: if z.touchpad_disabled_by_us { Some(true) } else { None },
            beenden,
        },
    )
}

/// One step of the watcher: the state after `ereignis` under the
/// configuration `cfg` in force when the watcher started waiting, and what to do.
pub open spec fn schritt_spec(z: WatcherZustand, cfg: TypingConfig, ereignis: WatcherEreignis) -> (
    WatcherZustand,
    WatcherAktion,
) {
    if !z.typing {
        match ereignis {
            WatcherEreignis::KonfigGeaendert(None) => wiederherstellen(z, z.tasten_offen, true),
            WatcherEreignis::Taste(false) => wiederherstellen(z, false, false),
            WatcherEreignis::Taste(true) => {
                if !cfg.eingeschaltet() {
                    (z, keine_aktion())
                } else {
                    (
                        WatcherZustand {
                            typing: true,
                            touchpad_disabled_by_us: cfg.disable_touchpad
                                || z.touchpad_disabled_by_us,
                            gestures_suppressed: cfg.disable_gestures,
                            tasten_offen: z.tasten_offen,
                        },
                        WatcherAktion {
                            gesten: Some(cfg.disable_gestures),
                            touchpad: if cfg.disable_touchpad { Some(false) } else { None },
                            beenden: false,
                        },
                    )
                }
            },
            _ => (z, keine_aktion()),
        }
    } else {
        match ereignis {
            WatcherEreignis::KonfigGeaendert(None) => wiederherstellen(z, z.tasten_offen, true),
            WatcherEreignis::KonfigGeaendert(Some(neu)) => {
                if neu.eingeschaltet() {
                    (
                        WatcherZustand { gestures_suppressed: neu.disable_gestures, ..z },
                        WatcherAktion { gesten: Some(neu.disable_gestures), touchpad: None, beenden: false },
                    )
                } else {
                    wiederherstellen(z, z.tasten_offen, false)
                }
            },
            WatcherEreignis::Taste(true) => (z, keine_aktion()),
            WatcherEreignis::Taste(false) => wiederherstellen(z, false, false),
            WatcherEreignis::Zeitablauf => wiederherstellen(z, z.tasten_offen, false),
        }
    }
}

impl WatcherZustand {
    /// The state in which the watcher starts: not typing, nothing suppressed,
    /// listening for keystrokes.
    pub fn new() -> (z: Self)
        ensures
            z == ruhezustand(),
    {
        WatcherZustand {
            typing: false,
            touchpad_disabled_by_us: false,
            gestures_suppressed: false,
            tasten_offen: true,
        }
    }

    /// Whether to wait for keystrokes: not once every keyboard stream has ended.
    pub fn liest_tasten(&self) -> (r: bool)
        ensures
            r == self.tasten_offen,
    {
        self.tasten_offen
    }

    /// How long to wait for the next keystroke before restoring: the idle
    /// delay while typing, no limit otherwise.
    pub fn wartezeit_ms(&self, cfg: &TypingConfig) -> (r: Option<u64>)
        ensures
            r == (if self.typing { Some(cfg.reactivation_delay_ms as u64) } else { None }),
    {
        if self.typing {
            Some(cfg.reactivation_delay_ms as u64)
        } else {
            None
        }
    }

    /// Handles one event under the configuration `cfg` that was in force
    /// when the watcher started waiting.
    pub fn schritt(&mut self, cfg: &TypingConfig, ereignis: WatcherEreignis) -> (a: WatcherAktion)
        ensures
            (*final(self), a) == schritt_spec(*old(self), *cfg, ereignis),
    {
        let stop: bool;
        let restore: bool;
        match ereignis {
            WatcherEreignis::KonfigGeaendert(None) => {
                stop = true;
                restore = true;
            },
            WatcherEreignis::Taste(false) => {
                self.tasten_offen = false;
                stop = false;
                restore = true;
            },
            WatcherEreignis::Taste(true) => {
                if self.typing || !cfg.any_enabled() {
                    return WatcherAktion { gesten: None, touchpad: None, beenden: false };
                }
                self.typing = true;
                self.gestures_suppressed = cfg.disable_gestures;
                let mut touchpad: Option<bool> = None;
                if cfg.disable_touchpad {
                    self.touchpad_disabled_by_us = true;
                    touchpad = Some(false);
                }
                return WatcherAktion { gesten: Some(cfg.disable_gestures), touchpad, beenden: false };
            },
            WatcherEreignis::KonfigGeaendert(Some(neu)) => {
                if !self.typing {
                    return WatcherAktion { gesten: None, touchpad: None, beenden: false };
                }
                if neu.any_enabled() {
                    self.gestures_suppressed = neu.disable_gestures;
                    return WatcherAktion {
                        gesten: Some(neu.disable_gestures),
                        touchpad: None,
                        beenden: false,
                    };
                }
                stop = false;
                restore = true;
            },
            WatcherEreignis::Zeitablauf => {
                if !self.typing {
                    return WatcherAktion { gesten: None, touchpad: None, beenden: false };
                }
                stop = false;
                restore = true;
            },
        }
        if !restore {
            return WatcherAktion { gesten: None, touchpad: None, beenden: false };
        }
        let mut touchpad: Option<bool> = None;
        if self.touchpad_disabled_by_us {
            touchpad = Some(true);
        }
        self.typing = false;
        self.gestures_suppressed = false;
        self.touchpad_disabled_by_us = false;
        WatcherAktion { gesten: Some(false), touchpad, beenden: stop }
    }
}

/// Whether edge gestures should currently ignore touches.
pub fn gestures_suppressed(z: &WatcherZustand) -> (r: bool)
    ensures
        r == z.gestures_suppressed,
{
    z.gestures_suppressed
}


/// How one action changes the number of times the touchpad is off: `+1` for
/// turning it off, `-1` for turning it on.
pub open spec fn touchpad_delta(a: WatcherAktion) -> int {
    match a.touchpad {
        Some(false) => 1,
        Some(true) => -1,
        None => 0,
    }
}

/// Touchpad switch-offs minus switch-ons over a series of actions.
pub open spec fn touchpad_bilanz(aktionen: Seq<WatcherAktion>) -> int
    decreases aktionen.len(),
{
    if aktionen.len() == 0 {
        0
    } else {
        touchpad_bilanz(aktionen.drop_last()) + touchpad_delta(aktionen.last())
    }
}

/// The watcher run over a series of events, each with the configuration in
/// force when it arrived: the final state and the actions taken.
pub open spec fn lauf(z: WatcherZustand, ereignisse: Seq<(TypingConfig, WatcherEreignis)>) -> (
    WatcherZustand,
    Seq<WatcherAktion>,
)
    decreases ereignisse.len(),
{
    if ereignisse.len() == 0 {
        (z, Seq::empty())
    } else {
        let (vorher, aktionen) = lauf(z, ereignisse.drop_last());
        let (cfg, e) = ereignisse.last();
        let (nachher, a) = schritt_spec(vorher, cfg, e);
        (nachher, aktionen.push(a))
    }
}

/// Step law: every step keeps the watcher's state well formed; gestures are
/// suppressed only while typing, and then exactly when the configuration in
/// force says so, a new one taking effect at once; the touchpad
/// is only turned off on a keystroke that starts typing with that option on,
/// never twice, and only turned back on by the watcher if the watcher turned
/// it off; the watcher remembers exactly that; it ends exactly when its
/// configuration sender is gone, and then nothing is left suppressed or
/// switched off; when every keyboard stream has ended it restores the same
/// way, stops waiting for keystrokes and keeps running.
pub proof fn gesetz_watcher_schritt(z: WatcherZustand, cfg: TypingConfig, e: WatcherEreignis)
    requires
        z.wf(),
    ensures
        schritt_spec(z, cfg, e).0.wf(),
        schritt_spec(z, cfg, e).1.touchpad == Some(false) ==> {
            &&& !z.touchpad_disabled_by_us
            &&& !z.typing
            &&& cfg.disable_touchpad
            &&& e == WatcherEreignis::Taste(true)
        },
        schritt_spec(z, cfg, e).1.touchpad == Some(true) ==> z.touchpad_disabled_by_us,
        (if schritt_spec(z, cfg, e).0.touchpad_disabled_by_us { 1int } else { 0int }) == (if z.touchpad_disabled_by_us { 1int } else { 0int }) + touchpad_delta(schritt_spec(z, cfg, e).1),
        schritt_spec(z, cfg, e).1.beenden ==> {
            &&& !schritt_spec(z, cfg, e).0.typing
            &&& !schritt_spec(z, cfg, e).0.touchpad_disabled_by_us
            &&& !schritt_spec(z, cfg, e).0.gestures_suppressed
            &&& schritt_spec(z, cfg, e).1.gesten == Some(false)
        },
        e == WatcherEreignis::Taste(false) ==> {
            &&& !schritt_spec(z, cfg, e).0.tasten_offen
            &&& !schritt_spec(z, cfg, e).0.typing
            &&& !schritt_spec(z, cfg, e).0.touchpad_disabled_by_us
            &&& !schritt_spec(z, cfg, e).0.gestures_suppressed
        },
        e != WatcherEreignis::Taste(false) ==> schritt_spec(z, cfg, e).0.tasten_offen == z.tasten_offen,
        !z.typing && schritt_spec(z, cfg, e).0.typing ==> e == WatcherEreignis::Taste(true) && cfg.eingeschaltet(),
        schritt_spec(z, cfg, e).1.beenden <==> e == WatcherEreignis::KonfigGeaendert(None),
        !schritt_spec(z, cfg, e).0.typing ==> !schritt_spec(z, cfg, e).0.gestures_suppressed,
        !z.typing && schritt_spec(z, cfg, e).0.typing ==> schritt_spec(z, cfg, e).0.gestures_suppressed == cfg.disable_gestures,
        e matches WatcherEreignis::KonfigGeaendert(Some(neu)) ==> (schritt_spec(z, cfg, e).0.typing
            ==> schritt_spec(z, cfg, e).0.gestures_suppressed == neu.disable_gestures),
{
}

/// Run law: from the start, at every point of any run the touchpad has been
/// switched off by the watcher exactly once more than switched on while the
/// watcher owes restoring it, and as often otherwise; so a run that has ended
/// never leaves the touchpad off, and gestures are no longer suppressed.
pub proof fn gesetz_watcher_lauf(ereignisse: Seq<(TypingConfig, WatcherEreignis)>)
    ensures
        lauf(ruhezustand(), ereignisse).0.wf(),
        touchpad_bilanz(lauf(ruhezustand(), ereignisse).1) == (if lauf(ruhezustand(), ereignisse).0.touchpad_disabled_by_us { 1int } else { 0int }),
        ereignisse.len() > 0 && lauf(ruhezustand(), ereignisse).1.last().beenden ==> {
            &&& touchpad_bilanz(lauf(ruhezustand(), ereignisse).1) == 0
            &&& !lauf(ruhezustand(), ereignisse).0.gestures_suppressed
        },
    decreases ereignisse.len(),
{
    if ereignisse.len() > 0 {
        let kurz = ereignisse.drop_last();
        gesetz_watcher_lauf(kurz);
        let (vorher, aktionen) = lauf(ruhezustand(), kurz);
        let (cfg, e) = ereignisse.last();
        gesetz_watcher_schritt(vorher, cfg, e);
        let (nachher, a) = schritt_spec(vorher, cfg, e);
        assert(aktionen.push(a).drop_last() =~= aktionen);
    }
}

} // verus!
