//! Extension negotiation: the mandatory version-query handshake for the
//! redirection, shaping and damage extensions.
//!
//! Negotiation for an extension must complete (reply received) before any
//! other request against that extension is issued, and this design performs
//! the three handshakes strictly in the order redirection, shape, damage.
//! [`Negotiator`] is the step-by-step machine an asynchronous driver feeds
//! one reply at a time; [`negotiate`] folds a full run over three replies.

use vstd::prelude::*;

use crate::errors::ProtocolError;

verus! {

/// The client offers a deliberately large major version so negotiation
/// settles on whatever the server supports.
pub const CLIENT_QUERY_MAJOR: u32 = 999;

/// The minor version offered alongside [`CLIENT_QUERY_MAJOR`].
pub const CLIENT_QUERY_MINOR: u32 = 0;

/// The three protocol extensions the bridge depends on.
#[derive(Clone, Copy, PartialEq, Eq, Structural, Debug)]
pub enum Extension {
    /// Off-screen redirection of window output.
    Redirection,
    /// Region shaping, used to make the overlay input-transparent.
    Shape,
    /// Damage tracking (negotiated, though not yet consumed for redraw).
    Damage,
}

/// A protocol extension version pair as reported by the display server.
#[derive(Clone, Copy, PartialEq, Eq, Structural, Debug)]
pub struct ExtensionVersion {
    pub major: u32,
    pub minor: u32,
}

/// The server-reported versions of the three negotiated extensions.
#[derive(Clone, Copy, PartialEq, Eq, Structural, Debug)]
pub struct ExtensionVersions {
    pub redirection: ExtensionVersion,
    pub shape: ExtensionVersion,
    pub damage: ExtensionVersion,
}

/// The fixed order in which version replies must be received.
pub open spec fn required_order() -> Seq<Extension> {
    seq![Extension::Redirection, Extension::Shape, Extension::Damage]
}

/// Progress of the handshake. Each `Query*` state names the extension whose
/// version round trip is due next.
#[derive(Clone, Copy, PartialEq, Eq, Structural, Debug)]
pub enum NegotiationStep {
    QueryRedirection,
    QueryShape,
    QueryDamage,
    /// All three replies received.
    Complete,
    /// A reply reported an extension absent; no further query may be issued.
    Failed,
}

/// The extension queried in a `Query*` step.
pub open spec fn step_extension(step: NegotiationStep) -> Extension
    recommends
        step is QueryRedirection || step is QueryShape || step is QueryDamage,
{
    match step {
        NegotiationStep::QueryRedirection => Extension::Redirection,
        NegotiationStep::QueryShape => Extension::Shape,
        NegotiationStep::QueryDamage => Extension::Damage,
        _ => Extension::Redirection,
    }
}

/// The handshake state machine. The driver asks [`Negotiator::pending`]
/// which query to issue, performs the round trip, and feeds the outcome to
/// [`Negotiator::apply_reply`]; `None` means the server reported the
/// extension absent.
pub struct Negotiator {
    pub step: NegotiationStep,
    /// Version recorded by the redirection reply; meaningful once that
    /// reply has been received.
    pub redirection: ExtensionVersion,
    /// Version recorded by the shape reply.
    pub shape: ExtensionVersion,
    /// Version recorded by the damage reply.
    pub damage: ExtensionVersion,
    /// The replies received so far, in order of arrival.
    pub replies: Ghost<Seq<Extension>>,
}

impl Negotiator {
    /// The replies this machine has consumed, in the order they arrived.
    pub open spec fn replies_seen(self) -> Seq<Extension> {
        self.replies@
    }

    /// The extension whose version query is due next, if any.
    pub open spec fn pending_spec(self) -> Option<Extension> {
        match self.step {
            NegotiationStep::QueryRedirection => Some(Extension::Redirection),
            NegotiationStep::QueryShape => Some(Extension::Shape),
            NegotiationStep::QueryDamage => Some(Extension::Damage),
            NegotiationStep::Complete => None,
            NegotiationStep::Failed => None,
        }
    }

    pub open spec fn complete(self) -> bool {
        self.step is Complete
    }

    pub open spec fn failed(self) -> bool {
        self.step is Failed
    }

    /// Well-formedness: the reply log is a prefix of the required order and
    /// matches the progress marker.
    pub open spec fn wf(self) -> bool {
        &&& self.replies_seen().is_prefix_of(required_order())
        &&& match self.step {
            NegotiationStep::QueryRedirection => self.replies_seen().len() == 0,
            NegotiationStep::QueryShape => self.replies_seen().len() == 1,
            NegotiationStep::QueryDamage => self.replies_seen().len() == 2,
            NegotiationStep::Complete => self.replies_seen().len() == 3,
            NegotiationStep::Failed => true,
        }
    }

    /// A fresh machine: no reply seen, the redirection query due first.
    pub fn new() -> (n: Negotiator)
        ensures
            n.wf(),
            n.replies_seen() == Seq::<Extension>::empty(),
            n.step == NegotiationStep::QueryRedirection,
    {
        Negotiator {
            step: NegotiationStep::QueryRedirection,
            redirection: ExtensionVersion { major: 0, minor: 0 },
            shape: ExtensionVersion { major: 0, minor: 0 },
            damage: ExtensionVersion { major: 0, minor: 0 },
            replies: Ghost(Seq::empty()),
        }
    }

    /// The extension to query next, or `None` once the handshake is over.
    pub fn pending(&self) -> (r: Option<Extension>)
        ensures
            r == self.pending_spec(),
    {
        match self.step {
            NegotiationStep::QueryRedirection => Some(Extension::Redirection),
            NegotiationStep::QueryShape => Some(Extension::Shape),
            NegotiationStep::QueryDamage => Some(Extension::Damage),
            NegotiationStep::Complete => None,
            NegotiationStep::Failed => None,
        }
    }

    /// Consume the reply to the pending query. A version advances the
    /// machine to the next extension in the fixed order; an absent reply
    /// fails the whole negotiation at once.
    pub fn apply_reply(&mut self, reply: Option<ExtensionVersion>) -> (r: Result<
        (),
        ProtocolError,
    >)
        requires
            old(self).wf(),
            old(self).pending_spec() is Some,
        ensures
            final(self).wf(),
            r is Ok <==> reply is Some,
            reply is None ==> {
                &&& final(self).failed()
                &&& r == Err::<(), ProtocolError>(
                    ProtocolError::ExtensionUnavailable(step_extension(old(self).step)),
                )
                &&& final(self).replies_seen() == old(self).replies_seen()
            },
            reply matches Some(v) ==> {
                &&& final(self).replies_seen() == old(self).replies_seen().push(
                    step_extension(old(self).step),
                )
                &&& match old(self).step {
                    NegotiationStep::QueryRedirection => {
                        &&& final(self).step == NegotiationStep::QueryShape
                        &&& final(self).redirection == v
                        &&& final(self).shape == old(self).shape
                        &&& final(self).damage == old(self).damage
                    },
                    NegotiationStep::QueryShape => {
                        &&& final(self).step == NegotiationStep::QueryDamage
                        &&& final(self).shape == v
                        &&& final(self).redirection == old(self).redirection
                        &&& final(self).damage == old(self).damage
                    },
                    NegotiationStep::QueryDamage => {
                        &&& final(self).step == NegotiationStep::Complete
                        &&& final(self).damage == v
                        &&& final(self).redirection == old(self).redirection
                        &&& final(self).shape == old(self).shape
                    },
                    _ => false,
                }
            },
    {
        let ghost pre = *self;
        match reply {
            None => {
                let ext = match self.step {
                    NegotiationStep::QueryRedirection => Extension::Redirection,
                    NegotiationStep::QueryShape => Extension::Shape,
                    NegotiationStep::QueryDamage => Extension::Damage,
                    _ => Extension::Redirection,
                };
                self.step = NegotiationStep::Failed;
                Err(ProtocolError::ExtensionUnavailable(ext))
            },
            Some(v) => {
                proof {
                    assert(pre.replies_seen().push(step_extension(pre.step)).is_prefix_of(
                        required_order(),
                    ));
                }
                match self.step {
                    NegotiationStep::QueryRedirection => {
                        self.redirection = v;
                        self.step = NegotiationStep::QueryShape;
                    },
                    NegotiationStep::QueryShape => {
                        self.shape = v;
                        self.step = NegotiationStep::QueryDamage;
                    },
                    NegotiationStep::QueryDamage => {
                        self.damage = v;
                        self.step = NegotiationStep::Complete;
                    },
                    _ => {},
                }
                proof {
                    self.replies@ = self.replies@.push(step_extension(pre.step));
                }
                Ok(())
            },
        }
    }

    /// The negotiated versions of a completed handshake.
    pub fn versions(&self) -> (r: ExtensionVersions)
        requires
            self.wf(),
            self.complete(),
        ensures
            r.redirection == self.redirection,
            r.shape == self.shape,
            r.damage == self.damage,
    {
        ExtensionVersions { redirection: self.redirection, shape: self.shape, damage: self.damage }
    }
}

/// Fold a complete negotiation over the three replies. Success is owed
/// exactly when all three extensions are present; otherwise the error names
/// the first extension, in the fixed order, whose reply was absent — later
/// replies are never consulted, matching a driver that stops at the first
/// failure.
pub fn negotiate(
    redirection_reply: Option<ExtensionVersion>,
    shape_reply: Option<ExtensionVersion>,
    damage_reply: Option<ExtensionVersion>,
) -> (r: Result<ExtensionVersions, ProtocolError>)
    ensures
        redirection_reply is None ==> r == Err::<ExtensionVersions, ProtocolError>(
            ProtocolError::ExtensionUnavailable(Extension::Redirection),
        ),
        redirection_reply is Some && shape_reply is None ==> r == Err::<
            ExtensionVersions,
            ProtocolError,
        >(ProtocolError::ExtensionUnavailable(Extension::Shape)),
        redirection_reply is Some && shape_reply is Some && damage_reply is None ==> r == Err::<
            ExtensionVersions,
            ProtocolError,
        >(ProtocolError::ExtensionUnavailable(Extension::Damage)),
        (redirection_reply is Some && shape_reply is Some && damage_reply is Some) ==> (r matches
        Ok(v) && Some(v.redirection) == redirection_reply && Some(v.shape) == shape_reply && Some(
            v.damage,
        ) == damage_reply),
{
    let mut n = Negotiator::new();
    match n.apply_reply(redirection_reply) {
        Err(e) => {
            return Err(e);
        },
        Ok(()) => {},
    }
    match n.apply_reply(shape_reply) {
        Err(e) => {
            return Err(e);
        },
        Ok(()) => {},
    }
    match n.apply_reply(damage_reply) {
        Err(e) => {
            return Err(e);
        },
        Ok(()) => {},
    }
    Ok(n.versions())
}

/// Law: the replies a well-formed negotiator has received always form a
/// prefix of the fixed order: redirection, then shape, then damage.
pub proof fn lemma_replies_in_order(n: Negotiator)
    requires
        n.wf(),
    ensures
        n.replies_seen().is_prefix_of(required_order()),
{
}

/// Law: a completed negotiation has received exactly the three replies, in
/// the fixed order.
pub proof fn lemma_complete_negotiation_order(n: Negotiator)
    requires
        n.wf(),
        n.complete(),
    ensures
        n.replies_seen() == required_order(),
{
    assert(n.replies_seen() =~= required_order());
}

} // verus!
