use crate::family::Family;
use crate::laws::{lemma_carried_value_preserved, run};
use crate::mode::Mode;
use vstd::prelude::*;

verus! {

/// A demonstration state machine whose states carry an owned resource: a
/// parcel with an identity tag and a payload buffer, passing from the depot
/// through transit to delivery.
///
/// The family stores the enum itself, so the states satisfy the uniform
/// [`Mode`](crate::Mode) contract directly. Each transition consumes the
/// outgoing state and relocates the tag and the payload into the incoming
/// one — the buffer is moved, never copied or rebuilt. A transition attempt
/// carries a handoff code as its input, and a state presented with the wrong
/// code rejects the attempt and remains, unchanged, as the family's output.
pub enum ParcelMode {
    /// Waiting at the depot.
    AtDepot { tag: u64, payload: Vec<u8> },
    /// Moving between depot and doorstep.
    InTransit { tag: u64, payload: Vec<u8> },
    /// Arrived; every further transition attempt stays here.
    Delivered { tag: u64, payload: Vec<u8> },
}

impl ParcelMode {
    /// The identity tag the parcel was created with.
    pub open spec fn tag_spec(self) -> u64 {
        match self {
            ParcelMode::AtDepot { tag, .. } => tag,
            ParcelMode::InTransit { tag, .. } => tag,
            ParcelMode::Delivered { tag, .. } => tag,
        }
    }

    /// The contents of the parcel's payload buffer.
    pub open spec fn payload_spec(self) -> Seq<u8> {
        match self {
            ParcelMode::AtDepot { payload, .. } => payload@,
            ParcelMode::InTransit { payload, .. } => payload@,
            ParcelMode::Delivered { payload, .. } => payload@,
        }
    }

    /// The identity tag, readable at run time.
    pub fn tag(&self) -> (tag: u64)
        ensures
            tag == self.tag_spec(),
    {
        match self {
            ParcelMode::AtDepot { tag, .. } => *tag,
            ParcelMode::InTransit { tag, .. } => *tag,
            ParcelMode::Delivered { tag, .. } => *tag,
        }
    }

    /// The payload buffer, readable at run time.
    pub fn payload(&self) -> (payload: &Vec<u8>)
        ensures
            payload@ == self.payload_spec(),
    {
        match self {
            ParcelMode::AtDepot { payload, .. } => payload,
            ParcelMode::InTransit { payload, .. } => payload,
            ParcelMode::Delivered { payload, .. } => payload,
        }
    }
}

/// The family tying the parcel states together: callers interact with the
/// active [`ParcelMode`], stored as the enum itself, and each transition
/// attempt takes the handoff code offered for the next leg.
pub struct CourierFamily;

impl Family for CourierFamily {
    type Base = ParcelMode;

    type Mode = ParcelMode;

    type Input = u64;

    type Output = ParcelMode;
}

impl Mode for ParcelMode {
    type Family = CourierFamily;

    open spec fn swap_spec(self, input: u64) -> ParcelMode {
        match self {
            ParcelMode::AtDepot { tag, payload } => {
                if input == tag {
                    ParcelMode::InTransit { tag, payload }
                } else {
                    ParcelMode::AtDepot { tag, payload }
                }
            },
            ParcelMode::InTransit { tag, payload } => {
                if input == tag {
                    ParcelMode::Delivered { tag, payload }
                } else {
                    ParcelMode::InTransit { tag, payload }
                }
            },
            ParcelMode::Delivered { tag, payload } => ParcelMode::Delivered { tag, payload },
        }
    }

    fn swap(self, input: u64) -> (output: ParcelMode) {
        match self {
            ParcelMode::AtDepot { tag, payload } => {
                if input == tag {
                    ParcelMode::InTransit { tag, payload }
                } else {
                    ParcelMode::AtDepot { tag, payload }
                }
            },
            ParcelMode::InTransit { tag, payload } => {
                if input == tag {
                    ParcelMode::Delivered { tag, payload }
                } else {
                    ParcelMode::InTransit { tag, payload }
                }
            },
            ParcelMode::Delivered { tag, payload } => ParcelMode::Delivered { tag, payload },
        }
    }
}

/// However a parcel is driven — any sequence of transition attempts, with
/// right or wrong handoff codes — its identity tag and its payload contents
/// are exactly those it started with: every transition relocates them and
/// none rebuilds or duplicates them.
pub proof fn lemma_parcel_keeps_identity(mode: ParcelMode, inputs: Seq<u64>)
    ensures
        run::<CourierFamily>(mode, inputs).tag_spec() == mode.tag_spec(),
        run::<CourierFamily>(mode, inputs).payload_spec() == mode.payload_spec(),
{
    let tag_of = |m: ParcelMode| m.tag_spec();
    let payload_of = |m: ParcelMode| m.payload_spec();
    lemma_carried_value_preserved::<CourierFamily, u64>(mode, inputs, tag_of);
    lemma_carried_value_preserved::<CourierFamily, Seq<u8>>(mode, inputs, payload_of);
}

} // verus!
