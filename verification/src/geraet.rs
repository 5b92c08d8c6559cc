//! The uinput clone of the touchpad, with a record of every write made to it.

use crate::relais::Ereignis;
use evdev::uinput::VirtualDevice;
use evdev::InputEvent;
use vstd::prelude::*;

verus! {

#[verifier::external_type_specification]
#[verifier::external_body]
pub struct ExVirtualDevice(VirtualDevice);

/// A virtual input device, with the batches written to it so far and
/// whether each write succeeded.
pub struct Geraet {
    device: VirtualDevice,
    geschrieben: Ghost<Seq<Seq<Ereignis>>>,
    erfolge: Ghost<Seq<bool>>,
}

impl Geraet {
    /// The batches written to the device so far, in order.
    pub closed spec fn geschrieben(&self) -> Seq<Seq<Ereignis>> {
        self.geschrieben@
    }

    /// For each write so far, in order, whether it succeeded.
    pub closed spec fn erfolge(&self) -> Seq<bool> {
        self.erfolge@
    }

    /// Takes over `device`; nothing has been written yet.
    pub fn new(device: VirtualDevice) -> (r: Self)
        ensures
            r.geschrieben() == Seq::<Seq<Ereignis>>::empty(),
            r.erfolge() == Seq::<bool>::empty(),
    {
        Geraet { device, geschrieben: Ghost(Seq::empty()), erfolge: Ghost(Seq::empty()) }
    }
}

/// Writes `ereignisse` to the uinput device with one call of evdev's
/// `VirtualDevice::emit`, which appends a closing `SYN_REPORT`; each event is
/// built with `InputEvent::new` from its type, code and value. The contract
/// records that call: the batch joins the written batches and the call's
/// success joins the outcomes. Whether the write succeeds depends on the
/// kernel, so which outcome comes is not stated.
#[verifier::external_body]
pub(crate) fn an_geraet_senden(geraet: &mut Geraet, ereignisse: &Vec<Ereignis>) -> (ok: bool)
    ensures
        final(geraet).geschrieben() == old(geraet).geschrieben().push(ereignisse@),
        final(geraet).erfolge() == old(geraet).erfolge().push(ok),
{
    let roh: Vec<InputEvent> = ereignisse.iter().map(|e| InputEvent::new(e.typ, e.code, e.wert)).collect();
    geraet.device.emit(&roh).is_ok()
}

} // verus!
