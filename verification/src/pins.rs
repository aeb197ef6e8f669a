//! Pin sets: a single pin, or an ordered tuple of pins, offered to a timer
//! as one unit. Multi-channel timers take two to four independently bound
//! pins; binding proceeds pin-by-pin in the order given here.

use vstd::prelude::*;

use crate::identity::PinIdentity;

verus! {

/// A pin or tuple of pins that dissolves into the ordered pin list the
/// binder takes. Ownership of every pin moves with the set, so a set can
/// no more be offered twice than a single pin can.
pub trait Pins: Sized {
    /// The pins offered, in caller order.
    spec fn spec_pins(self) -> Seq<PinIdentity>;

    /// Dissolve into the ordered pin list.
    fn into_pins(self) -> (v: Vec<PinIdentity>)
        ensures
            v@ == self.spec_pins(),
    ;
}

impl Pins for PinIdentity {
    open spec fn spec_pins(self) -> Seq<PinIdentity> {
        seq![self]
    }

    fn into_pins(self) -> (v: Vec<PinIdentity>) {
        let ghost this = self;
        let mut v: Vec<PinIdentity> = Vec::new();
        v.push(self);
        proof {
            assert(v@ =~= this.spec_pins());
        }
        v
    }
}

impl Pins for (PinIdentity, PinIdentity) {
    open spec fn spec_pins(self) -> Seq<PinIdentity> {
        seq![self.0, self.1]
    }

    fn into_pins(self) -> (v: Vec<PinIdentity>) {
        let ghost this = self;
        let (a, b) = self;
        let mut v: Vec<PinIdentity> = Vec::new();
        v.push(a);
        v.push(b);
        proof {
            assert(v@ =~= this.spec_pins());
        }
        v
    }
}

impl Pins for (PinIdentity, PinIdentity, PinIdentity) {
    open spec fn spec_pins(self) -> Seq<PinIdentity> {
        seq![self.0, self.1, self.2]
    }

    fn into_pins(self) -> (v: Vec<PinIdentity>) {
        let ghost this = self;
        let (a, b, c) = self;
        let mut v: Vec<PinIdentity> = Vec::new();
        v.push(a);
        v.push(b);
        v.push(c);
        proof {
            assert(v@ =~= this.spec_pins());
        }
        v
    }
}

impl Pins for (PinIdentity, PinIdentity, PinIdentity, PinIdentity) {
    open spec fn spec_pins(self) -> Seq<PinIdentity> {
        seq![self.0, self.1, self.2, self.3]
    }

    fn into_pins(self) -> (v: Vec<PinIdentity>) {
        let ghost this = self;
        let (a, b, c, d) = self;
        let mut v: Vec<PinIdentity> = Vec::new();
        v.push(a);
        v.push(b);
        v.push(c);
        v.push(d);
        proof {
            assert(v@ =~= this.spec_pins());
        }
        v
    }
}

} // verus!
