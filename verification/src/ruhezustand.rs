//! Keyboard backlight timeout ("Ruhezustand"): after a period without input
//! `swayidle` turns the backlight off and turns it back on at the next input,
//! either always or on battery only.

use crate::zahlen::{dezimal, dezimal_vorzeichen, i32_text, u32_text};
use vstd::prelude::*;

verus! {

broadcast use vstd::string::group_string_axioms;

/// When the backlight times out.
#[derive(Clone, Copy, Debug, PartialEq, Eq, Structural)]
pub enum TimeoutModus {
    /// Never.
    Nichts,
    /// On battery and on mains power.
    AkkuUndNetz,
    /// On battery only.
    NurAkku,
}

/// The mode stored as a number in the configuration: 1 and 2 for the two
/// timeout modes, anything else for none.
pub open spec fn modus_aus_zahl(v: u32) -> TimeoutModus {
    if v == 1 {
        TimeoutModus::AkkuUndNetz
    } else if v == 2 {
        TimeoutModus::NurAkku
    } else {
        TimeoutModus::Nichts
    }
}

impl vstd::std_specs::convert::FromSpecImpl<u32> for TimeoutModus {
    open spec fn obeys_from_spec() -> bool {
        true
    }

    open spec fn from_spec(v: u32) -> TimeoutModus {
        modus_aus_zahl(v)
    }
}

impl From<u32> for TimeoutModus {
    fn from(v: u32) -> (r: TimeoutModus) {
        if v == 1 {
            TimeoutModus::AkkuUndNetz
        } else if v == 2 {
            TimeoutModus::NurAkku
        } else {
            TimeoutModus::Nichts
        }
    }
}

impl Default for TimeoutModus {
    fn default() -> (r: TimeoutModus)
        ensures
            r == TimeoutModus::Nichts,
    {
        TimeoutModus::Nichts
    }
}

/// The number under which a mode is stored.
pub open spec fn modus_zahl_spec(m: TimeoutModus) -> u32 {
    match m {
        TimeoutModus::Nichts => 0,
        TimeoutModus::AkkuUndNetz => 1,
        TimeoutModus::NurAkku => 2,
    }
}

/// The number under which a mode is stored in the configuration.
pub fn modus_zahl(m: TimeoutModus) -> (r: u32)
    ensures
        r == modus_zahl_spec(m),
{
    match m {
        TimeoutModus::Nichts => 0,
        TimeoutModus::AkkuUndNetz => 1,
        TimeoutModus::NurAkku => 2,
    }
}

/// Storing a mode and reading it back gives the same mode.
pub proof fn gesetz_modus_rundweg(m: TimeoutModus)
    ensures
        modus_aus_zahl(modus_zahl_spec(m)) == m,
{
}

/// The timeouts offered, one minute, two and five, by the index chosen in
/// the list; one minute when the index is out of range.
pub open spec fn timeout_sekunden_spec(index: u32) -> u32 {
    if index == 0 {
        60
    } else if index == 1 {
        120
    } else if index == 2 {
        300
    } else {
        60
    }
}

/// The timeout in seconds for the index chosen in the list.
pub fn timeout_sekunden(index: u32) -> (r: u32)
    ensures
        r == timeout_sekunden_spec(index),
{
    if index == 0 {
        60
    } else if index == 1 {
        120
    } else if index == 2 {
        300
    } else {
        60
    }
}

/// The UPower call that sets the keyboard backlight, without its value.
pub open spec fn busctl_anfang() -> Seq<char> {
    "busctl call --system org.freedesktop.UPower /org/freedesktop/UPower/KbdBacklight org.freedesktop.UPower.KbdBacklight SetBrightness i "@
}

/// The shell test that runs a command only while no power supply is online.
pub open spec fn nur_akku_anfang() -> Seq<char> {
    "if [ \"$(cat /sys/class/power_supply/*/online | head -n1)\" = \"0\" ]; then "@
}

/// The end of that shell test.
pub open spec fn nur_akku_ende() -> Seq<char> {
    "; fi"@
}

/// The shell command that sets the keyboard backlight to `wert`; on
/// battery only when `nur_akku` is set.
pub open spec fn busctl_befehl(wert: int, nur_akku: bool) -> Seq<char> {
    let basis = busctl_anfang() + dezimal_vorzeichen(wert);
    if nur_akku {
        nur_akku_anfang() + basis + nur_akku_ende()
    } else {
        basis
    }
}

/// Builds the shell command that sets the keyboard backlight to `wert`,
/// wrapped in a battery check when `nur_akku` is set.
pub fn busctl_brightness_cmd(wert: i32, nur_akku: bool) -> (r: String)
    ensures
        r@ == busctl_befehl(wert as int, nur_akku),
{
    let mut basis = "busctl call --system org.freedesktop.UPower /org/freedesktop/UPower/KbdBacklight org.freedesktop.UPower.KbdBacklight SetBrightness i ".to_string();
    basis.append(i32_text(wert).as_str());
    if nur_akku {
        let mut s = "if [ \"$(cat /sys/class/power_supply/*/online | head -n1)\" = \"0\" ]; then ".to_string();
        s.append(basis.as_str());
        s.append("; fi");
        s
    } else {
        basis
    }
}


/// The `swayidle` arguments for a timeout of `sekunden` seconds: the
/// backlight goes to 0 on timeout and back to 3 on resume.
pub open spec fn swayidle_argumente(sekunden: u32, nur_akku: bool) -> Seq<Seq<char>> {
    seq![
        "-w"@,
        "timeout"@,
        dezimal(sekunden as nat),
        busctl_befehl(0, nur_akku),
        "resume"@,
        busctl_befehl(3, nur_akku),
    ]
}

/// Builds the `swayidle` arguments for a timeout of `sekunden` seconds.
pub fn swayidle_args(sekunden: u32, nur_akku: bool) -> (r: Vec<String>)
    ensures
        r.deep_view() == swayidle_argumente(sekunden, nur_akku),
{
    let r = vec![
        "-w".to_string(),
        "timeout".to_string(),
        u32_text(sekunden),
        busctl_brightness_cmd(0, nur_akku),
        "resume".to_string(),
        busctl_brightness_cmd(3, nur_akku),
    ];
    assert(r.deep_view() =~= swayidle_argumente(sekunden, nur_akku));
    r
}

/// The model behind the backlight-timeout settings.
pub struct RuhezustandModel {
    timeout_modus: TimeoutModus,
    index_akku_netz: u32,
    index_nur_akku: u32,
    swayidle_laeuft: bool,
}

/// A change made by the user.
#[derive(Debug)]
pub enum RuhezustandMsg {
    ModusWechseln(TimeoutModus),
    /// The timeout chosen for battery and mains power, as an index in the list.
    AkkuNetzZeitGeaendert(u32),
    /// The timeout chosen for battery only, as an index in the list.
    NurAkkuZeitGeaendert(u32),
}

/// An error reported while running `swayidle`.
#[derive(Debug)]
pub enum RuhezustandCommandOutput {
    Fehler(String),
}

/// A value to store in the configuration.
#[derive(Clone, Copy, Debug, PartialEq, Eq, Structural)]
pub enum RuhezustandKonfig {
    /// The mode, as its number.
    Modus(u32),
    AkkuNetzIndex(u32),
    NurAkkuIndex(u32),
}

/// What to do with `swayidle`: stop the running one, then start one with
/// these arguments, if any.
pub struct SwayidleAuftrag {
    pub beenden: bool,
    pub starten: Option<Vec<String>>,
}

/// The settings as values.
pub struct RuhezustandSicht {
    pub timeout_modus: TimeoutModus,
    pub index_akku_netz: u32,
    pub index_nur_akku: u32,
    pub swayidle_laeuft: bool,
}

/// A `swayidle` job as values.
pub struct AuftragSicht {
    pub beenden: bool,
    pub starten: Option<Seq<Seq<char>>>,
}

/// The view of a job.
pub open spec fn auftrag_sicht(a: SwayidleAuftrag) -> AuftragSicht {
    AuftragSicht {
        beenden: a.beenden,
        starten: match a.starten {
            Some(v) => Some(v.deep_view()),
            None => None,
        },
    }
}

impl View for RuhezustandModel {
    type V = RuhezustandSicht;

    closed spec fn view(&self) -> RuhezustandSicht {
        RuhezustandSicht {
            timeout_modus: self.timeout_modus,
            index_akku_netz: self.index_akku_netz,
            index_nur_akku: self.index_nur_akku,
            swayidle_laeuft: self.swayidle_laeuft,
        }
    }
}

/// Writing the timeout for `modus`: any running `swayidle` is stopped, and
/// unless the mode is "never" a new one starts with the timeout chosen for
/// that mode.
pub open spec fn timeout_schreiben_spec(s: RuhezustandSicht, modus: TimeoutModus) -> (RuhezustandSicht, AuftragSicht) {
    match modus {
        TimeoutModus::Nichts => (
            RuhezustandSicht { swayidle_laeuft: false, ..s },
            AuftragSicht { beenden: s.swayidle_laeuft, starten: None },
        ),
        TimeoutModus::AkkuUndNetz => (
            RuhezustandSicht { swayidle_laeuft: true, ..s },
            AuftragSicht {
                beenden: s.swayidle_laeuft,
                starten: Some(swayidle_argumente(timeout_sekunden_spec(s.index_akku_netz), false)),
            },
        ),
        TimeoutModus::NurAkku => (
            RuhezustandSicht { swayidle_laeuft: true, ..s },
            AuftragSicht {
                beenden: s.swayidle_laeuft,
                starten: Some(swayidle_argumente(timeout_sekunden_spec(s.index_nur_akku), true)),
            },
        ),
    }
}

/// The settings after a change, what to store, and the `swayidle` job.
pub open spec fn ruhezustand_update_spec(s: RuhezustandSicht, msg: RuhezustandMsg) -> (RuhezustandSicht, RuhezustandKonfig, Option<AuftragSicht>) {
    match msg {
        RuhezustandMsg::ModusWechseln(m) => {
            let (n, a) = timeout_schreiben_spec(RuhezustandSicht { timeout_modus: m, ..s }, m);
            (n, RuhezustandKonfig::Modus(modus_zahl_spec(m)), Some(a))
        },
        RuhezustandMsg::AkkuNetzZeitGeaendert(i) => {
            let t = RuhezustandSicht { index_akku_netz: i, ..s };
            if s.timeout_modus == TimeoutModus::AkkuUndNetz {
                let (n, a) = timeout_schreiben_spec(t, TimeoutModus::AkkuUndNetz);
                (n, RuhezustandKonfig::AkkuNetzIndex(i), Some(a))
            } else {
                (t, RuhezustandKonfig::AkkuNetzIndex(i), None)
            }
        },
        RuhezustandMsg::NurAkkuZeitGeaendert(i) => {
            let t = RuhezustandSicht { index_nur_akku: i, ..s };
            if s.timeout_modus == TimeoutModus::NurAkku {
                let (n, a) = timeout_schreiben_spec(t, TimeoutModus::NurAkku);
                (n, RuhezustandKonfig::NurAkkuIndex(i), Some(a))
            } else {
                (t, RuhezustandKonfig::NurAkkuIndex(i), None)
            }
        },
    }
}

/// The start: the stored mode and list indices, with no `swayidle` running yet.
pub open spec fn ruhezustand_start(modus: u32, index_akku_netz: u32, index_nur_akku: u32) -> RuhezustandSicht {
    RuhezustandSicht {
        timeout_modus: modus_aus_zahl(modus),
        index_akku_netz,
        index_nur_akku,
        swayidle_laeuft: false,
    }
}

/// A `swayidle` started by the model runs exactly when the mode is not "never".
pub open spec fn ein_swayidle(s: RuhezustandSicht) -> bool {
    s.swayidle_laeuft == (s.timeout_modus != TimeoutModus::Nichts)
}

impl RuhezustandModel {
    #[verifier::type_invariant]
    spec fn ruhezustand_inv(self) -> bool {
        ein_swayidle(self@)
    }

    /// Builds the model from the stored configuration and writes the timeout
    /// for the stored mode.
    pub fn init(konfig_modus: u32, index_akku_netz: u32, index_nur_akku: u32) -> (r: (RuhezustandModel, SwayidleAuftrag))
        ensures
            (r.0@, auftrag_sicht(r.1)) == timeout_schreiben_spec(
                ruhezustand_start(konfig_modus, index_akku_netz, index_nur_akku),
                modus_aus_zahl(konfig_modus),
            ),
            ein_swayidle(r.0@),
            !r.1.beenden,
            ruhezustand_start_wirkung(konfig_modus, index_akku_netz, index_nur_akku, r.0@, auftrag_sicht(r.1)),
    {
        proof {
            gesetz_ruhezustand_startwerte(konfig_modus, index_akku_netz, index_nur_akku);
        }
        let modus = TimeoutModus::from(konfig_modus);
        Self::timeout_schreiben(modus, index_akku_netz, index_nur_akku, false)
    }

    /// The current mode.
    pub fn timeout_modus(&self) -> (r: TimeoutModus)
        ensures
            r == self@.timeout_modus,
    {
        self.timeout_modus
    }

    /// Whether a `swayidle` started by this model is running; that is
    /// exactly when the mode is not "never".
    pub fn swayidle_laeuft(&self) -> (r: bool)
        ensures
            r == self@.swayidle_laeuft,
            r == (self@.timeout_modus != TimeoutModus::Nichts),
    {
        proof {
            use_type_invariant(self);
        }
        self.swayidle_laeuft
    }

    /// The model in `modus` with these list indices, after writing the
    /// timeout: the `swayidle` that was running (`laeuft`) is stopped and,
    /// unless the mode is "never", one is started with the timeout chosen
    /// for the mode. So one runs afterwards exactly when the mode is not
    /// "never", and a running one is always stopped before another starts.
    fn timeout_schreiben(modus: TimeoutModus, index_akku_netz: u32, index_nur_akku: u32, laeuft: bool) -> (r: (RuhezustandModel, SwayidleAuftrag))
        ensures
            (r.0@, auftrag_sicht(r.1)) == timeout_schreiben_spec(
                RuhezustandSicht { timeout_modus: modus, index_akku_netz, index_nur_akku, swayidle_laeuft: laeuft },
                modus,
            ),
            ein_swayidle(r.0@),
            r.1.beenden == laeuft,
            r.1.starten is Some <==> modus != TimeoutModus::Nichts,
    {
        let sekunden = match modus {
            TimeoutModus::Nichts => {
                let m = RuhezustandModel { timeout_modus: modus, index_akku_netz, index_nur_akku, swayidle_laeuft: false };
                return (m, SwayidleAuftrag { beenden: laeuft, starten: None });
            },
            TimeoutModus::AkkuUndNetz => timeout_sekunden(index_akku_netz),
            TimeoutModus::NurAkku => timeout_sekunden(index_nur_akku),
        };
        let nur_akku = match modus {
            TimeoutModus::NurAkku => true,
            _ => false,
        };
        let args = swayidle_args(sekunden, nur_akku);
        let m = RuhezustandModel { timeout_modus: modus, index_akku_netz, index_nur_akku, swayidle_laeuft: true };
        (m, SwayidleAuftrag { beenden: laeuft, starten: Some(args) })
    }

    /// Applies a change made by the user: returns the value to store and
    /// the `swayidle` job, if the change affects the running timeout.
    /// Afterwards a `swayidle` runs exactly when the mode is not "never".
    pub fn update(&mut self, msg: RuhezustandMsg) -> (r: (RuhezustandKonfig, Option<SwayidleAuftrag>))
        ensures
            ruhezustand_update_spec(old(self)@, msg) == (final(self)@, r.0, match r.1 {
                Some(a) => Some(auftrag_sicht(a)),
                None => None,
            }),
            ein_swayidle(old(self)@),
            ein_swayidle(final(self)@),
            r.1 matches Some(a) ==> a.beenden == old(self)@.swayidle_laeuft,
            ruhezustand_wirkung(old(self)@, msg, final(self)@, r.0, match r.1 {
                Some(a) => Some(auftrag_sicht(a)),
                None => None,
            }),
    {
        proof {
            gesetz_ruhezustand_wirkung(self@, msg);
        }
        proof {
            use_type_invariant(&*self);
        }
        match msg {
            RuhezustandMsg::ModusWechseln(m) => {
                let (n, a) = Self::timeout_schreiben(m, self.index_akku_netz, self.index_nur_akku, self.swayidle_laeuft);
                *self = n;
                (RuhezustandKonfig::Modus(modus_zahl(m)), Some(a))
            },
            RuhezustandMsg::AkkuNetzZeitGeaendert(i) => {
                if self.timeout_modus == TimeoutModus::AkkuUndNetz {
                    let (n, a) = Self::timeout_schreiben(TimeoutModus::AkkuUndNetz, i, self.index_nur_akku, self.swayidle_laeuft);
                    *self = n;
                    (RuhezustandKonfig::AkkuNetzIndex(i), Some(a))
                } else {
                    self.index_akku_netz = i;
                    (RuhezustandKonfig::AkkuNetzIndex(i), None)
                }
            },
            RuhezustandMsg::NurAkkuZeitGeaendert(i) => {
                if self.timeout_modus == TimeoutModus::NurAkku {
                    let (n, a) = Self::timeout_schreiben(TimeoutModus::NurAkku, self.index_akku_netz, i, self.swayidle_laeuft);
                    *self = n;
                    (RuhezustandKonfig::NurAkkuIndex(i), Some(a))
                } else {
                    self.index_nur_akku = i;
                    (RuhezustandKonfig::NurAkkuIndex(i), None)
                }
            },
        }
    }

    /// Handles an error reported while running `swayidle`: it is passed on
    /// to the application.
    pub fn update_cmd(&self, msg: RuhezustandCommandOutput) -> (r: String)
        ensures
            match msg {
                RuhezustandCommandOutput::Fehler(e) => r == e,
            },
    {
        match msg {
            RuhezustandCommandOutput::Fehler(e) => e,
        }
    }
}

/// The `swayidle` arguments for a mode, with the list index chosen for each
/// timeout mode: none for "never"; the mains-and-battery timeout; the
/// battery-only timeout, wrapped in the battery check.
pub open spec fn swayidle_fuer(m: TimeoutModus, index_akku_netz: u32, index_nur_akku: u32) -> Option<Seq<Seq<char>>> {
    match m {
        TimeoutModus::Nichts => None,
        TimeoutModus::AkkuUndNetz => Some(swayidle_argumente(timeout_sekunden_spec(index_akku_netz), false)),
        TimeoutModus::NurAkku => Some(swayidle_argumente(timeout_sekunden_spec(index_nur_akku), true)),
    }
}

/// A job that stops what ran (`laeuft`) and starts `starten`.
pub open spec fn job_ist(a: Option<AuftragSicht>, laeuft: bool, starten: Option<Seq<Seq<char>>>) -> bool {
    match a {
        Some(j) => j.beenden == laeuft && j.starten == starten,
        None => false,
    }
}

/// What a change does, stated per message: a new mode is taken and stored
/// and `swayidle` is restarted for it with that mode's chosen timeout; a
/// newly chosen timeout is kept and stored, and restarts `swayidle` with that
/// new timeout exactly when its mode is the current one.
pub open spec fn ruhezustand_wirkung(
    s: RuhezustandSicht,
    msg: RuhezustandMsg,
    n: RuhezustandSicht,
    k: RuhezustandKonfig,
    a: Option<AuftragSicht>,
) -> bool {
    match msg {
        RuhezustandMsg::ModusWechseln(m) => {
            &&& n.timeout_modus == m
            &&& n.index_akku_netz == s.index_akku_netz
            &&& n.index_nur_akku == s.index_nur_akku
            &&& k == RuhezustandKonfig::Modus(modus_zahl_spec(m))
            &&& job_ist(a, s.swayidle_laeuft, swayidle_fuer(m, s.index_akku_netz, s.index_nur_akku))
        },
        RuhezustandMsg::AkkuNetzZeitGeaendert(i) => {
            &&& n.index_akku_netz == i
            &&& n.index_nur_akku == s.index_nur_akku
            &&& n.timeout_modus == s.timeout_modus
            &&& k == RuhezustandKonfig::AkkuNetzIndex(i)
            &&& (s.timeout_modus == TimeoutModus::AkkuUndNetz ==> job_ist(
                a,
                s.swayidle_laeuft,
                Some(swayidle_argumente(timeout_sekunden_spec(i), false)),
            ))
            &&& (s.timeout_modus != TimeoutModus::AkkuUndNetz ==> a is None && n.swayidle_laeuft
                == s.swayidle_laeuft)
        },
        RuhezustandMsg::NurAkkuZeitGeaendert(i) => {
            &&& n.index_nur_akku == i
            &&& n.index_akku_netz == s.index_akku_netz
            &&& n.timeout_modus == s.timeout_modus
            &&& k == RuhezustandKonfig::NurAkkuIndex(i)
            &&& (s.timeout_modus == TimeoutModus::NurAkku ==> job_ist(
                a,
                s.swayidle_laeuft,
                Some(swayidle_argumente(timeout_sekunden_spec(i), true)),
            ))
            &&& (s.timeout_modus != TimeoutModus::NurAkku ==> a is None && n.swayidle_laeuft
                == s.swayidle_laeuft)
        },
    }
}

/// What the start does: the stored mode and both stored list indices are
/// taken over, nothing is stopped, and `swayidle` is started for the stored
/// mode with the timeout stored for that mode.
pub open spec fn ruhezustand_start_wirkung(modus: u32, index_akku_netz: u32, index_nur_akku: u32, n: RuhezustandSicht, j: AuftragSicht) -> bool {
    &&& n.timeout_modus == modus_aus_zahl(modus)
    &&& n.index_akku_netz == index_akku_netz
    &&& n.index_nur_akku == index_nur_akku
    &&& !j.beenden
    &&& j.starten == swayidle_fuer(modus_aus_zahl(modus), index_akku_netz, index_nur_akku)
}

/// Change law: every change takes the mode or timeout chosen, stores it,
/// and restarts `swayidle` with the newly chosen timeout whenever it affects
/// the current mode, leaving it alone otherwise.
pub proof fn gesetz_ruhezustand_wirkung(s: RuhezustandSicht, msg: RuhezustandMsg)
    ensures
        ({
            let (n, k, a) = ruhezustand_update_spec(s, msg);
            ruhezustand_wirkung(s, msg, n, k, a)
        }),
{
}

/// Start law: the start takes over the stored mode and both stored timeouts
/// and starts `swayidle` with the timeout stored for the stored mode.
pub proof fn gesetz_ruhezustand_startwerte(modus: u32, index_akku_netz: u32, index_nur_akku: u32)
    ensures
        ({
            let (n, j) = timeout_schreiben_spec(
                ruhezustand_start(modus, index_akku_netz, index_nur_akku),
                modus_aus_zahl(modus),
            );
            ruhezustand_start_wirkung(modus, index_akku_netz, index_nur_akku, n, j)
        }),
{
}

/// One `swayidle` at a time: whenever a new one is started, the one that
/// was running (if any) is stopped first; afterwards one runs exactly when
/// the mode is not "never", with one of the offered timeouts.
pub proof fn gesetz_ein_swayidle(s: RuhezustandSicht, msg: RuhezustandMsg)
    requires
        ein_swayidle(s),
    ensures
        ({
            let (n, k, a) = ruhezustand_update_spec(s, msg);
            &&& n.swayidle_laeuft == (n.timeout_modus != TimeoutModus::Nichts)
            &&& a matches Some(j) ==> j.beenden == s.swayidle_laeuft
            &&& a matches Some(j) ==> (j.starten is Some <==> n.timeout_modus != TimeoutModus::Nichts)
            &&& a is None ==> n.swayidle_laeuft == s.swayidle_laeuft && n.timeout_modus == s.timeout_modus
        }),
{
}

/// The start satisfies the same: `swayidle` runs exactly when the stored
/// mode is not "never", and nothing is stopped that was not started.
pub proof fn gesetz_ruhezustand_start(modus: u32, a: u32, b: u32)
    ensures
        ({
            let (n, j) = timeout_schreiben_spec(ruhezustand_start(modus, a, b), modus_aus_zahl(modus));
            &&& n.swayidle_laeuft == (n.timeout_modus != TimeoutModus::Nichts)
            &&& !j.beenden
        }),
{
}

/// Every timeout handed to `swayidle` is one of those offered.
pub proof fn gesetz_timeout_angeboten(index: u32)
    ensures
        timeout_sekunden_spec(index) == 60 || timeout_sekunden_spec(index) == 120
            || timeout_sekunden_spec(index) == 300,
{
}

} // verus!
