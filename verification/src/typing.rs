//! The "disable while typing" settings and the life of the watcher task that
//! carries them out: the task runs exactly while one of the two options is
//! on, and always knows the current settings.

use crate::tippen::TypingConfig;
use vstd::prelude::*;

verus! {

/// The model behind the "disable while typing" settings.
pub struct TypingModel {
    disable_gestures: bool,
    disable_touchpad: bool,
    delay_ms: u32,
    desktop_supported: bool,
    watcher_laeuft: bool,
}

/// A change made by the user, or a profile that was loaded.
#[derive(Debug)]
pub enum TypingMsg {
    ToggleDisableGestures(bool),
    ToggleDisableTouchpad(bool),
    /// New reactivation delay, in milliseconds.
    DelayChanged(u32),
    LoadProfile { disable_gestures: bool, disable_touchpad: bool, delay_ms: u32 },
}

/// A value to store in the active profile.
#[derive(Clone, Copy, Debug, PartialEq, Eq, Structural)]
pub enum ProfilAenderung {
    GestenSperre(bool),
    TouchpadSperre(bool),
    Verzoegerung(u32),
}

/// What to do with the watcher task.
#[derive(Clone, Copy, Debug, PartialEq, Eq, Structural)]
pub enum WatcherBefehl {
    /// Stop it, if it runs (both options are off).
    Stoppen,
    /// Hand the running task new settings.
    Senden(TypingConfig),
    /// Start it with these settings.
    Starten(TypingConfig),
}

/// The settings as values.
pub struct TypingSicht {
    pub disable_gestures: bool,
    pub disable_touchpad: bool,
    pub delay_ms: u32,
    pub desktop_supported: bool,
    pub watcher_laeuft: bool,
}

impl View for TypingModel {
    type V = TypingSicht;

    closed spec fn view(&self) -> TypingSicht {
        TypingSicht {
            disable_gestures: self.disable_gestures,
            disable_touchpad: self.disable_touchpad,
            delay_ms: self.delay_ms,
            desktop_supported: self.desktop_supported,
            watcher_laeuft: self.watcher_laeuft,
        }
    }
}

/// The settings as the watcher sees them: the touchpad can only be switched
/// off on a supported desktop.
pub open spec fn watcher_konfig(s: TypingSicht) -> TypingConfig {
    TypingConfig {
        disable_gestures: s.disable_gestures,
        disable_touchpad: s.disable_touchpad && s.desktop_supported,
        reactivation_delay_ms: s.delay_ms,
    }
}

/// Bringing the watcher in line with the settings.
pub open spec fn sync_spec(s: TypingSicht) -> (TypingSicht, WatcherBefehl) {
    let cfg = watcher_konfig(s);
    if !cfg.eingeschaltet() {
        (TypingSicht { watcher_laeuft: false, ..s }, WatcherBefehl::Stoppen)
    } else if s.watcher_laeuft {
        (s, WatcherBefehl::Senden(cfg))
    } else {
        (TypingSicht { watcher_laeuft: true, ..s }, WatcherBefehl::Starten(cfg))
    }
}

/// The settings after a message, what to store in the profile, and what to
/// do with the watcher. A switch or delay set to its current value changes nothing.
pub open spec fn typing_update_spec(s: TypingSicht, msg: TypingMsg) -> (TypingSicht, Option<ProfilAenderung>, Option<WatcherBefehl>) {
    match msg {
        TypingMsg::ToggleDisableGestures(a) => {
            if a == s.disable_gestures {
                (s, None, None)
            } else {
                let (n, b) = sync_spec(TypingSicht { disable_gestures: a, ..s });
                (n, Some(ProfilAenderung::GestenSperre(a)), Some(b))
            }
        },
        TypingMsg::ToggleDisableTouchpad(a) => {
            if a == s.disable_touchpad {
                (s, None, None)
            } else {
                let (n, b) = sync_spec(TypingSicht { disable_touchpad: a, ..s });
                (n, Some(ProfilAenderung::TouchpadSperre(a)), Some(b))
            }
        },
        TypingMsg::DelayChanged(ms) => {
            if ms == s.delay_ms {
                (s, None, None)
            } else {
                let (n, b) = sync_spec(TypingSicht { delay_ms: ms, ..s });
                (n, Some(ProfilAenderung::Verzoegerung(ms)), Some(b))
            }
        },
        TypingMsg::LoadProfile { disable_gestures, disable_touchpad, delay_ms } => {
            let (n, b) = sync_spec(
                TypingSicht { disable_gestures, disable_touchpad, delay_ms, ..s },
            );
            (n, None, Some(b))
        },
    }
}

/// The watcher runs exactly while one of the options is on for it.
pub open spec fn im_einklang(s: TypingSicht) -> bool {
    s.watcher_laeuft == watcher_konfig(s).eingeschaltet()
}

impl TypingModel {
    #[verifier::type_invariant]
    spec fn typing_inv(self) -> bool {
        im_einklang(self@)
    }

    /// Builds the model from the active profile and starts the watcher if
    /// one of the options is on.
    pub fn init(
        disable_gestures: bool,
        disable_touchpad: bool,
        delay_ms: u32,
        desktop_supported: bool,
    ) -> (r: (TypingModel, WatcherBefehl))
        ensures
            (r.0@, r.1) == sync_spec(
                TypingSicht {
                    disable_gestures,
                    disable_touchpad,
                    delay_ms,
                    desktop_supported,
                    watcher_laeuft: false,
                },
            ),
            im_einklang(r.0@),
            r.1 != WatcherBefehl::Stoppen ==> r.1 == WatcherBefehl::Starten(watcher_konfig(r.0@)),
    {
        Self::sync_watcher(disable_gestures, disable_touchpad, delay_ms, desktop_supported, false)
    }

    /// Whether edge gestures are suppressed while typing.
    pub fn disable_gestures(&self) -> (r: bool)
        ensures
            r == self@.disable_gestures,
    {
        self.disable_gestures
    }

    /// Whether the touchpad is switched off while typing.
    pub fn disable_touchpad(&self) -> (r: bool)
        ensures
            r == self@.disable_touchpad,
    {
        self.disable_touchpad
    }

    /// The reactivation delay in milliseconds.
    pub fn delay_ms(&self) -> (r: u32)
        ensures
            r == self@.delay_ms,
    {
        self.delay_ms
    }

    /// Whether the desktop supports switching the touchpad.
    pub fn desktop_supported(&self) -> (r: bool)
        ensures
            r == self@.desktop_supported,
    {
        self.desktop_supported
    }

    /// Whether the watcher task runs; that is exactly while one of the
    /// options is on for it.
    pub fn watcher_laeuft(&self) -> (r: bool)
        ensures
            r == self@.watcher_laeuft,
            r == watcher_konfig(self@).eingeschaltet(),
    {
        proof {
            use_type_invariant(self);
        }
        self.watcher_laeuft
    }

    /// Current settings as seen by the watcher task.
    pub fn watcher_config(&self) -> (r: TypingConfig)
        ensures
            r == watcher_konfig(self@),
    {
        TypingConfig {
            disable_gestures: self.disable_gestures,
            disable_touchpad: self.disable_touchpad && self.desktop_supported,
            reactivation_delay_ms: self.delay_ms,
        }
    }

    /// The model for these settings, with the watcher started, updated or
    /// stopped so that it matches them: it runs exactly while an option is
    /// on, is started only if it was not running (`laeuft`), and is handed
    /// the current settings whenever it is started or updated.
    fn sync_watcher(
        disable_gestures: bool,
        disable_touchpad: bool,
        delay_ms: u32,
        desktop_supported: bool,
        laeuft: bool,
    ) -> (r: (TypingModel, WatcherBefehl))
        ensures
            (r.0@, r.1) == sync_spec(
                TypingSicht { disable_gestures, disable_touchpad, delay_ms, desktop_supported, watcher_laeuft: laeuft },
            ),
            im_einklang(r.0@),
            r.1 matches WatcherBefehl::Starten(c) ==> !laeuft && c == watcher_konfig(r.0@),
            r.1 matches WatcherBefehl::Senden(c) ==> laeuft && c == watcher_konfig(r.0@),
    {
        let config = TypingConfig {
            disable_gestures,
            disable_touchpad: disable_touchpad && desktop_supported,
            reactivation_delay_ms: delay_ms,
        };
        if !config.any_enabled() {
            let m = TypingModel { disable_gestures, disable_touchpad, delay_ms, desktop_supported, watcher_laeuft: false };
            (m, WatcherBefehl::Stoppen)
        } else if laeuft {
            let m = TypingModel { disable_gestures, disable_touchpad, delay_ms, desktop_supported, watcher_laeuft: true };
            (m, WatcherBefehl::Senden(config))
        } else {
            let m = TypingModel { disable_gestures, disable_touchpad, delay_ms, desktop_supported, watcher_laeuft: true };
            (m, WatcherBefehl::Starten(config))
        }
    }

    /// Applies a message: returns the value to store in the profile and what
    /// to do with the watcher. Afterwards the watcher runs exactly while an
    /// option is on.
    pub fn update(&mut self, msg: TypingMsg) -> (r: (Option<ProfilAenderung>, Option<WatcherBefehl>))
        ensures
            typing_update_spec(old(self)@, msg) == (final(self)@, r.0, r.1),
            im_einklang(old(self)@),
            im_einklang(final(self)@),
            typing_wirkung(old(self)@, msg, final(self)@, r.0, r.1),
    {
        proof {
            use_type_invariant(&*self);
            gesetz_typing_wirkung(self@, msg);
        }
        let laeuft = self.watcher_laeuft;
        match msg {
            TypingMsg::ToggleDisableGestures(a) => {
                if a == self.disable_gestures {
                    return (None, None);
                }
                let (m, b) = Self::sync_watcher(a, self.disable_touchpad, self.delay_ms, self.desktop_supported, laeuft);
                *self = m;
                (Some(ProfilAenderung::GestenSperre(a)), Some(b))
            },
            TypingMsg::ToggleDisableTouchpad(a) => {
                if a == self.disable_touchpad {
                    return (None, None);
                }
                let (m, b) = Self::sync_watcher(self.disable_gestures, a, self.delay_ms, self.desktop_supported, laeuft);
                *self = m;
                (Some(ProfilAenderung::TouchpadSperre(a)), Some(b))
            },
            TypingMsg::DelayChanged(ms) => {
                if ms == self.delay_ms {
                    return (None, None);
                }
                let (m, b) = Self::sync_watcher(self.disable_gestures, self.disable_touchpad, ms, self.desktop_supported, laeuft);
                *self = m;
                (Some(ProfilAenderung::Verzoegerung(ms)), Some(b))
            },
            TypingMsg::LoadProfile { disable_gestures, disable_touchpad, delay_ms } => {
                let (m, b) = Self::sync_watcher(disable_gestures, disable_touchpad, delay_ms, self.desktop_supported, laeuft);
                *self = m;
                (None, Some(b))
            },
        }
    }
}

/// The watcher command fits the new settings `n`, given whether a watcher
/// ran before (`s`): stop when no option is on for it; otherwise hand it
/// the new settings, starting it if none ran.
pub open spec fn watcher_befehl_passt(s: TypingSicht, n: TypingSicht, b: WatcherBefehl) -> bool {
    match b {
        WatcherBefehl::Stoppen => !watcher_konfig(n).eingeschaltet() && !n.watcher_laeuft,
        WatcherBefehl::Senden(c) => {
            &&& watcher_konfig(n).eingeschaltet()
            &&& s.watcher_laeuft
            &&& n.watcher_laeuft
            &&& c == watcher_konfig(n)
        },
        WatcherBefehl::Starten(c) => {
            &&& watcher_konfig(n).eingeschaltet()
            &&& !s.watcher_laeuft
            &&& n.watcher_laeuft
            &&& c == watcher_konfig(n)
        },
    }
}

/// The settings `n` equal `s` apart from the watcher, with these options.
pub open spec fn einstellungen(s: TypingSicht, n: TypingSicht, dg: bool, dt: bool, ms: u32) -> bool {
    &&& n.disable_gestures == dg
    &&& n.disable_touchpad == dt
    &&& n.delay_ms == ms
    &&& n.desktop_supported == s.desktop_supported
}

/// What a message does, stated per message: a switch or delay set to a new
/// value takes that value, keeps the other settings, stores exactly that
/// change in the profile and brings the watcher in line; set to its current
/// value it changes, stores and commands nothing; a loaded profile takes
/// all three values, stores nothing and brings the watcher in line.
pub open spec fn typing_wirkung(
    s: TypingSicht,
    msg: TypingMsg,
    n: TypingSicht,
    p: Option<ProfilAenderung>,
    b: Option<WatcherBefehl>,
) -> bool {
    match msg {
        TypingMsg::ToggleDisableGestures(a) => if a == s.disable_gestures {
            n == s && p is None && b is None
        } else {
            &&& einstellungen(s, n, a, s.disable_touchpad, s.delay_ms)
            &&& p == Some(ProfilAenderung::GestenSperre(a))
            &&& b matches Some(c) && watcher_befehl_passt(s, n, c)
        },
        TypingMsg::ToggleDisableTouchpad(a) => if a == s.disable_touchpad {
            n == s && p is None && b is None
        } else {
            &&& einstellungen(s, n, s.disable_gestures, a, s.delay_ms)
            &&& p == Some(ProfilAenderung::TouchpadSperre(a))
            &&& b matches Some(c) && watcher_befehl_passt(s, n, c)
        },
        TypingMsg::DelayChanged(ms) => if ms == s.delay_ms {
            n == s && p is None && b is None
        } else {
            &&& einstellungen(s, n, s.disable_gestures, s.disable_touchpad, ms)
            &&& p == Some(ProfilAenderung::Verzoegerung(ms))
            &&& b matches Some(c) && watcher_befehl_passt(s, n, c)
        },
        TypingMsg::LoadProfile { disable_gestures, disable_touchpad, delay_ms } => {
            &&& einstellungen(s, n, disable_gestures, disable_touchpad, delay_ms)
            &&& p is None
            &&& b matches Some(c) && watcher_befehl_passt(s, n, c)
        },
    }
}

/// Change law: every message takes the values it carries, stores exactly a
/// changed switch or delay (switching an option off as well as on), and
/// leaves the watcher stopped when no option is on for it and running with
/// the new settings otherwise.
pub proof fn gesetz_typing_wirkung(s: TypingSicht, msg: TypingMsg)
    ensures
        ({
            let (n, p, b) = typing_update_spec(s, msg);
            typing_wirkung(s, msg, n, p, b)
        }),
{
}

/// Watcher law: from the start and after every message the watcher runs
/// exactly while an option is on; it is started only when it was not
/// running, and whenever it is started or updated it is handed the current
/// settings; without a change of settings it is left alone.
pub proof fn gesetz_watcher_im_einklang(s: TypingSicht, msg: TypingMsg)
    requires
        im_einklang(s),
    ensures
        im_einklang(sync_spec(s).0),
        im_einklang(sync_spec(TypingSicht { watcher_laeuft: false, ..s }).0),
        ({
            let (n, p, b) = typing_update_spec(s, msg);
            &&& im_einklang(n)
            &&& b matches Some(WatcherBefehl::Starten(c)) ==> !s.watcher_laeuft && c == watcher_konfig(n)
            &&& b matches Some(WatcherBefehl::Senden(c)) ==> s.watcher_laeuft && c == watcher_konfig(n)
            &&& b is None ==> n == s
        }),
{
}

} // verus!
