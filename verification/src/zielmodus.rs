//! Focus mode ("Zielmodus"): KWin's "dim inactive windows" effect, switched
//! on or off and given a strength.

use crate::text::{
    beschneiden, beschnitten, gleich, ist_leerraum, klein, kleingeschrieben, ohne_folgenden_leerraum,
    ohne_fuehrenden_leerraum,
};
use crate::zahlen::{dezimal, gesetz_zahl_rundweg, ist_ziffer, u32_aus_text, u32_lesen, u32_text};
use vstd::prelude::*;

verus! {

broadcast use vstd::string::group_string_axioms;

/// The model behind the focus-mode settings.
pub struct ZielmodusModel {
    aktiv: bool,
    staerke: u32,
    kde_verfuegbar: bool,
}

/// A change asked for by the user.
#[derive(Debug)]
pub enum ZielmodusMsg {
    AktivSetzen(bool),
    StaerkeSetzen(u32),
}

/// The outcome of a command sent to KWin.
#[derive(Debug)]
pub enum ZielmodusCommandOutput {
    AktivGesetzt(bool),
    StaerkeGesetzt(u32),
    Fehler(String),
}

/// Work to carry out after a change: store the value in the configuration,
/// then hand it to KWin.
#[derive(Clone, Copy, Debug, PartialEq, Eq, Structural)]
pub enum ZielmodusAuftrag {
    /// Switch the effect on (`true`) or off.
    Effekt(bool),
    /// Set the effect's strength in percent.
    Staerke(u32),
}

/// The settings as values: active, strength, KDE available.
pub struct ZielmodusSicht {
    pub aktiv: bool,
    pub staerke: u32,
    pub kde_verfuegbar: bool,
}

impl View for ZielmodusModel {
    type V = ZielmodusSicht;

    closed spec fn view(&self) -> ZielmodusSicht {
        ZielmodusSicht { aktiv: self.aktiv, staerke: self.staerke, kde_verfuegbar: self.kde_verfuegbar }
    }
}

/// The start values: on KDE what KWin reports, each falling back to the
/// stored configuration when it cannot be read; elsewhere the configuration.
pub open spec fn startwerte(
    kde_verfuegbar: bool,
    kwin_aktiv: Option<bool>,
    kwin_staerke: Option<u32>,
    konfig_aktiv: bool,
    konfig_staerke: u32,
) -> (bool, u32) {
    if kde_verfuegbar {
        (
            match kwin_aktiv {
                Some(a) => a,
                None => konfig_aktiv,
            },
            match kwin_staerke {
                Some(s) => s,
                None => konfig_staerke,
            },
        )
    } else {
        (konfig_aktiv, konfig_staerke)
    }
}

/// The settings after a message, and the work it causes: none when the
/// value is already set.
pub open spec fn zielmodus_update_spec(m: ZielmodusSicht, msg: ZielmodusMsg) -> (ZielmodusSicht, Option<ZielmodusAuftrag>) {
    match msg {
        ZielmodusMsg::AktivSetzen(a) => {
            if a == m.aktiv {
                (m, None)
            } else {
                (ZielmodusSicht { aktiv: a, ..m }, Some(ZielmodusAuftrag::Effekt(a)))
            }
        },
        ZielmodusMsg::StaerkeSetzen(s) => {
            if s == m.staerke {
                (m, None)
            } else {
                (ZielmodusSicht { staerke: s, ..m }, Some(ZielmodusAuftrag::Staerke(s)))
            }
        },
    }
}

impl ZielmodusModel {
    /// Builds the model from what KWin reports (read only on KDE) and the
    /// stored configuration. Also returns the values to store back in the
    /// configuration, which happens on KDE only.
    pub fn init(
        kde_verfuegbar: bool,
        kwin_aktiv: Option<bool>,
        kwin_staerke: Option<u32>,
        konfig_aktiv: bool,
        konfig_staerke: u32,
    ) -> (r: (ZielmodusModel, Option<(bool, u32)>))
        ensures
            (r.0@.aktiv, r.0@.staerke) == startwerte(
                kde_verfuegbar,
                kwin_aktiv,
                kwin_staerke,
                konfig_aktiv,
                konfig_staerke,
            ),
            r.0@.kde_verfuegbar == kde_verfuegbar,
            r.1 == (if kde_verfuegbar {
                Some(
                    startwerte(kde_verfuegbar, kwin_aktiv, kwin_staerke, konfig_aktiv, konfig_staerke),
                )
            } else {
                None
            }),
    {
        if kde_verfuegbar {
            let a = match kwin_aktiv {
                Some(a) => a,
                None => konfig_aktiv,
            };
            let s = match kwin_staerke {
                Some(s) => s,
                None => konfig_staerke,
            };
            (ZielmodusModel { aktiv: a, staerke: s, kde_verfuegbar }, Some((a, s)))
        } else {
            (
                ZielmodusModel { aktiv: konfig_aktiv, staerke: konfig_staerke, kde_verfuegbar },
                None,
            )
        }
    }

    /// Whether the effect is switched on.
    pub fn aktiv(&self) -> (r: bool)
        ensures
            r == self@.aktiv,
    {
        self.aktiv
    }

    /// The effect's strength in percent.
    pub fn staerke(&self) -> (r: u32)
        ensures
            r == self@.staerke,
    {
        self.staerke
    }

    /// Whether the session is KDE, where the effect exists.
    pub fn kde_verfuegbar(&self) -> (r: bool)
        ensures
            r == self@.kde_verfuegbar,
    {
        self.kde_verfuegbar
    }

    /// Applies a change asked for by the user; returns the work it causes.
    pub fn update(&mut self, msg: ZielmodusMsg) -> (r: Option<ZielmodusAuftrag>)
        ensures
            (final(self)@, r) == zielmodus_update_spec(old(self)@, msg),
            zielmodus_wirkung(old(self)@, msg, final(self)@, r),
    {
        proof {
            gesetz_zielmodus_wirkung(self@, msg);
        }
        match msg {
            ZielmodusMsg::AktivSetzen(a) => {
                if a == self.aktiv {
                    return None;
                }
                self.aktiv = a;
                Some(ZielmodusAuftrag::Effekt(a))
            },
            ZielmodusMsg::StaerkeSetzen(s) => {
                if s == self.staerke {
                    return None;
                }
                self.staerke = s;
                Some(ZielmodusAuftrag::Staerke(s))
            },
        }
    }

    /// Handles the outcome of a KWin command: an error is passed on to the
    /// application, a success is only logged.
    pub fn update_cmd(&self, msg: ZielmodusCommandOutput) -> (r: Option<String>)
        ensures
            match msg {
                ZielmodusCommandOutput::Fehler(e) => r == Some(e),
                _ => r is None,
            },
    {
        match msg {
            ZielmodusCommandOutput::Fehler(e) => Some(e),
            _ => None,
        }
    }
}

/// What a message does to the focus-mode settings, stated per message: the
/// value asked for is set and the other settings are kept; KWin gets work
/// for that value, switching the effect on or off or setting its strength,
/// exactly when it differs from the current one.
pub open spec fn zielmodus_wirkung(m: ZielmodusSicht, msg: ZielmodusMsg, n: ZielmodusSicht, r: Option<ZielmodusAuftrag>) -> bool {
    &&& n.kde_verfuegbar == m.kde_verfuegbar
    &&& match msg {
        ZielmodusMsg::AktivSetzen(a) => {
            &&& n.aktiv == a
            &&& n.staerke == m.staerke
            &&& (a != m.aktiv ==> r == Some(ZielmodusAuftrag::Effekt(a)))
            &&& (a == m.aktiv ==> r is None)
        },
        ZielmodusMsg::StaerkeSetzen(st) => {
            &&& n.staerke == st
            &&& n.aktiv == m.aktiv
            &&& (st != m.staerke ==> r == Some(ZielmodusAuftrag::Staerke(st)))
            &&& (st == m.staerke ==> r is None)
        },
    }
}

/// Change law: every message sets the value asked for, keeps the rest, and
/// hands KWin exactly the changed value (switching off unloads the effect as
/// switching on loads it); an unchanged value causes no work.
pub proof fn gesetz_zielmodus_wirkung(m: ZielmodusSicht, msg: ZielmodusMsg)
    ensures
        zielmodus_wirkung(m, msg, zielmodus_update_spec(m, msg).0, zielmodus_update_spec(m, msg).1),
{
}

/// Idempotence law: asking twice for the same value causes work at most
/// once, and the setting then holds the value asked for.
pub proof fn gesetz_zielmodus_idempotent(m: ZielmodusSicht, msg: ZielmodusMsg)
    ensures
        zielmodus_update_spec(zielmodus_update_spec(m, msg).0, msg) == (zielmodus_update_spec(m, msg).0, None::<ZielmodusAuftrag>),
        match msg {
            ZielmodusMsg::AktivSetzen(a) => zielmodus_update_spec(m, msg).0.aktiv == a,
            ZielmodusMsg::StaerkeSetzen(s) => zielmodus_update_spec(m, msg).0.staerke == s,
        },
        zielmodus_update_spec(m, msg).0.kde_verfuegbar == m.kde_verfuegbar,
{
}

/// The `kwriteconfig` arguments that switch the effect on or off.
pub open spec fn effekt_schreib_argumente(aktiv: bool) -> Seq<Seq<char>> {
    seq![
        "--file"@,
        "kwinrc"@,
        "--group"@,
        "Plugins"@,
        "--key"@,
        "diminactiveEnabled"@,
        "--type"@,
        "bool"@,
        if aktiv { "true"@ } else { "false"@ },
    ]
}

/// The D-Bus call that loads or unloads the effect in KWin.
pub open spec fn effekt_dbus_argumente(aktiv: bool) -> Seq<Seq<char>> {
    seq![
        "org.kde.KWin"@,
        "/Effects"@,
        if aktiv { "loadEffect"@ } else { "unloadEffect"@ },
        "diminactive"@,
    ]
}

/// The `kwriteconfig` arguments that store the effect's strength.
pub open spec fn staerke_schreib_argumente(staerke: u32) -> Seq<Seq<char>> {
    seq![
        "--file"@,
        "kwinrc"@,
        "--group"@,
        "Effect-DimInactive"@,
        "--key"@,
        "Strength"@,
        dezimal(staerke as nat),
    ]
}

/// The D-Bus call that makes KWin re-read the effect's settings.
pub open spec fn staerke_dbus_argumente() -> Seq<Seq<char>> {
    seq!["org.kde.KWin"@, "/Effects"@, "reconfigureEffect"@, "diminactive"@]
}

/// The `kreadconfig` arguments that read `key` of `group` in `kwinrc`,
/// printing `default` when it is not set.
pub open spec fn lese_argumente(group: Seq<char>, key: Seq<char>, default: Seq<char>) -> Seq<Seq<char>> {
    seq!["--file"@, "kwinrc"@, "--group"@, group, "--key"@, key, "--default"@, default]
}

/// Arguments for `kwriteconfig` to switch the effect on or off.
pub fn kwin_effekt_schreibargumente(aktiv: bool) -> (r: Vec<String>)
    ensures
        r.deep_view() == effekt_schreib_argumente(aktiv),
{
    let wert = if aktiv {
        "true"
    } else {
        "false"
    };
    let r = vec![
        "--file".to_string(),
        "kwinrc".to_string(),
        "--group".to_string(),
        "Plugins".to_string(),
        "--key".to_string(),
        "diminactiveEnabled".to_string(),
        "--type".to_string(),
        "bool".to_string(),
        wert.to_string(),
    ];
    assert(r.deep_view() =~= effekt_schreib_argumente(aktiv));
    r
}

/// Arguments for the D-Bus call that loads (`aktiv`) or unloads the effect.
pub fn kwin_effekt_dbus_argumente(aktiv: bool) -> (r: Vec<String>)
    ensures
        r.deep_view() == effekt_dbus_argumente(aktiv),
{
    let methode = if aktiv {
        "loadEffect"
    } else {
        "unloadEffect"
    };
    let r = vec![
        "org.kde.KWin".to_string(),
        "/Effects".to_string(),
        methode.to_string(),
        "diminactive".to_string(),
    ];
    assert(r.deep_view() =~= effekt_dbus_argumente(aktiv));
    r
}

/// Arguments for `kwriteconfig` to store the effect's strength.
pub fn kwin_staerke_schreibargumente(staerke: u32) -> (r: Vec<String>)
    ensures
        r.deep_view() == staerke_schreib_argumente(staerke),
{
    let r = vec![
        "--file".to_string(),
        "kwinrc".to_string(),
        "--group".to_string(),
        "Effect-DimInactive".to_string(),
        "--key".to_string(),
        "Strength".to_string(),
        u32_text(staerke),
    ];
    assert(r.deep_view() =~= staerke_schreib_argumente(staerke));
    r
}

/// Arguments for the D-Bus call that makes KWin re-read the effect's settings.
pub fn kwin_staerke_dbus_argumente() -> (r: Vec<String>)
    ensures
        r.deep_view() == staerke_dbus_argumente(),
{
    let r = vec![
        "org.kde.KWin".to_string(),
        "/Effects".to_string(),
        "reconfigureEffect".to_string(),
        "diminactive".to_string(),
    ];
    assert(r.deep_view() =~= staerke_dbus_argumente());
    r
}

/// Arguments for `kreadconfig` to read a boolean, `false` when unset.
pub fn kwin_bool_leseargumente(group: &str, key: &str) -> (r: Vec<String>)
    ensures
        r.deep_view() == lese_argumente(group@, key@, "false"@),
{
    let r = vec![
        "--file".to_string(),
        "kwinrc".to_string(),
        "--group".to_string(),
        group.to_string(),
        "--key".to_string(),
        key.to_string(),
        "--default".to_string(),
        "false".to_string(),
    ];
    assert(r.deep_view() =~= lese_argumente(group@, key@, "false"@));
    r
}

/// Arguments for `kreadconfig` to read a number, printing `default` when unset.
pub fn kwin_u32_leseargumente(group: &str, key: &str, default: u32) -> (r: Vec<String>)
    ensures
        r.deep_view() == lese_argumente(group@, key@, dezimal(default as nat)),
{
    let r = vec![
        "--file".to_string(),
        "kwinrc".to_string(),
        "--group".to_string(),
        group.to_string(),
        "--key".to_string(),
        key.to_string(),
        "--default".to_string(),
        u32_text(default),
    ];
    assert(r.deep_view() =~= lese_argumente(group@, key@, dezimal(default as nat)));
    r
}

/// Reads a boolean printed by `kreadconfig`: `true`, ignoring surrounding
/// whitespace and case.
pub fn kwin_bool_auswerten(ausgabe: &str) -> (r: bool)
    ensures
        r == (kleingeschrieben(beschnitten(ausgabe@)) == "true"@),
{
    let k = klein(beschneiden(ausgabe));
    gleich(k.as_str(), "true")
}

/// Reads a number printed by `kreadconfig`, ignoring surrounding whitespace.
pub fn kwin_u32_auswerten(ausgabe: &str) -> (r: Option<u32>)
    ensures
        r == u32_aus_text(beschnitten(ausgabe@)),
{
    u32_lesen(beschneiden(ausgabe))
}


/// The `kwriteconfig` arguments that store a change.
pub open spec fn schreib_argumente(auftrag: ZielmodusAuftrag) -> Seq<Seq<char>> {
    match auftrag {
        ZielmodusAuftrag::Effekt(a) => effekt_schreib_argumente(a),
        ZielmodusAuftrag::Staerke(s) => staerke_schreib_argumente(s),
    }
}

/// The D-Bus call that makes KWin apply a stored change.
pub open spec fn dbus_argumente(auftrag: ZielmodusAuftrag) -> Seq<Seq<char>> {
    match auftrag {
        ZielmodusAuftrag::Effekt(a) => effekt_dbus_argumente(a),
        ZielmodusAuftrag::Staerke(_) => staerke_dbus_argumente(),
    }
}

/// First step of handing a change to KWin: the `kwriteconfig` arguments
/// that store it in `kwinrc`.
pub fn kwin_schreibargumente(auftrag: ZielmodusAuftrag) -> (r: Vec<String>)
    ensures
        r.deep_view() == schreib_argumente(auftrag),
{
    match auftrag {
        ZielmodusAuftrag::Effekt(a) => kwin_effekt_schreibargumente(a),
        ZielmodusAuftrag::Staerke(s) => kwin_staerke_schreibargumente(s),
    }
}

/// Second step, after `kwriteconfig` ran with `ergebnis`: the D-Bus call
/// that makes KWin apply the change, or, when storing failed, that error,
/// and KWin is not called.
pub fn kwin_nach_schreiben(auftrag: ZielmodusAuftrag, ergebnis: Result<(), String>) -> (r: Result<Vec<String>, String>)
    ensures
        match ergebnis {
            Ok(()) => r matches Ok(v) && v.deep_view() == dbus_argumente(auftrag),
            Err(e) => r == Err::<Vec<String>, String>(e),
        },
{
    match ergebnis {
        Ok(()) => match auftrag {
            ZielmodusAuftrag::Effekt(a) => Ok(kwin_effekt_dbus_argumente(a)),
            ZielmodusAuftrag::Staerke(_) => Ok(kwin_staerke_dbus_argumente()),
        },
        Err(e) => Err(e),
    }
}

/// Default law: when the key is not set, `kreadconfig` prints the default it
/// was given followed by a line break, and reading that output gives the
/// default back.
pub proof fn gesetz_kwin_standardwert(standard: u32)
    ensures
        u32_aus_text(beschnitten(dezimal(standard as nat).push('\n'))) == Some(standard),
{
    let d = dezimal(standard as nat);
    crate::zahlen::lemma_dezimal(standard as nat);
    let t = d.push('\n');
    assert(ist_ziffer(t[0]));
    assert(!ist_leerraum(t[0]));
    assert(ohne_fuehrenden_leerraum(t) == t);
    assert(ist_leerraum(t.last()));
    assert(t.drop_last() =~= d);
    assert(ist_ziffer(d.last()));
    assert(ohne_folgenden_leerraum(d) == d);
    gesetz_zahl_rundweg(standard);
}

} // verus!
