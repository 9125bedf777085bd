//! What handling a message comes to: what was sent, what was passed on,
//! what was discarded, and what the pipeline is told.

use crate::envelope::{DecryptedDhtMessage, DecryptedDhtMessageView};
use crate::error::StoreAndForwardError;
use crate::outbound::{OutboundMessage, OutboundMessageView};
use crate::response::{envelope_views, Discarded};
use vstd::prelude::*;

verus! {

/// What handling one message came to, as contracts see it.
pub struct EffectsView {
    /// The reply handed to the outbound sender, if there was one.
    pub outbound: Option<OutboundMessageView>,
    /// The envelopes handed to the next stage, in their order.
    pub downstream: Seq<DecryptedDhtMessageView>,
    /// The entries of a batch that were discarded.
    pub discarded: Seq<Discarded>,
    /// What the pipeline is told.
    pub result: Result<(), StoreAndForwardError>,
}

/// What handling one message came to.
#[derive(Debug, PartialEq, Eq)]
pub struct Effects {
    pub outbound: Option<OutboundMessage>,
    pub downstream: Vec<DecryptedDhtMessage>,
    pub discarded: Vec<Discarded>,
    pub result: Result<(), StoreAndForwardError>,
}

impl View for Effects {
    type V = EffectsView;

    open spec fn view(&self) -> EffectsView {
        EffectsView {
            outbound: match self.outbound {
                Some(message) => Some(message@),
                None => None,
            },
            downstream: envelope_views(self.downstream@),
            discarded: self.discarded@,
            result: self.result,
        }
    }
}

/// A handling that touched nothing and ended with `result`.
pub open spec fn nothing_done(result: Result<(), StoreAndForwardError>) -> EffectsView {
    EffectsView { outbound: None, downstream: Seq::empty(), discarded: Seq::empty(), result }
}

/// A handling that touched nothing and ends with `result`.
pub fn quiet(result: Result<(), StoreAndForwardError>) -> (done: Effects)
    ensures
        done@ == nothing_done(result),
{
    let done = Effects {
        outbound: None,
        downstream: Vec::new(),
        discarded: Vec::new(),
        result,
    };
    proof {
        assert(done@.downstream =~= Seq::empty());
    }
    done
}

} // verus!
