use vstd::prelude::*;
use webrtc_ice::candidate::CandidateType;

verus! {

/// ICECandidateType represents the type of the ICE candidate used.
#[derive(Debug, Clone, Copy, PartialEq, Eq, Structural)]
pub enum ICECandidateType {
    Unspecified,
    /// A candidate obtained by binding to a specific port from an IP address
    /// on the host, physical or logical (such as one obtained through a VPN).
    Host,
    /// Server reflexive: an address and port that a NAT bound for the agent
    /// after it sent a packet through the NAT to a server, such as STUN.
    Srflx,
    /// Peer reflexive: an address and port that a NAT bound for the agent
    /// after it sent a packet through the NAT to its peer.
    Prflx,
    /// A candidate obtained from a relay server, such as a TURN server.
    Relay,
}

/// Relies on the definition of `webrtc_ice::candidate::CandidateType`: an enum
/// of five unit variants, which the verifier reads so that the transport
/// conversion can match on it.
#[verifier::external_type_specification]
pub struct ExCandidateType(CandidateType);

const ICE_CANDIDATE_TYPE_HOST_STR: &'static str = "host";

const ICE_CANDIDATE_TYPE_SRFLX_STR: &'static str = "srflx";

const ICE_CANDIDATE_TYPE_PRFLX_STR: &'static str = "prflx";

const ICE_CANDIDATE_TYPE_RELAY_STR: &'static str = "relay";

/// The four wire tokens, each naming one known candidate type.
pub open spec fn is_wire_token(s: Seq<char>) -> bool {
    ||| s == "host"@
    ||| s == "srflx"@
    ||| s == "prflx"@
    ||| s == "relay"@
}

/// The classification that a token denotes: exact, case-sensitive match on
/// the four wire tokens, anything else unspecified.
pub open spec fn parse_token(s: Seq<char>) -> ICECandidateType {
    if s == "host"@ {
        ICECandidateType::Host
    } else if s == "srflx"@ {
        ICECandidateType::Srflx
    } else if s == "prflx"@ {
        ICECandidateType::Prflx
    } else if s == "relay"@ {
        ICECandidateType::Relay
    } else {
        ICECandidateType::Unspecified
    }
}

/// The classification that a transport-layer candidate kind stands for.
pub open spec fn classify_transport(c: CandidateType) -> ICECandidateType {
    match c {
        CandidateType::Host => ICECandidateType::Host,
        CandidateType::ServerReflexive => ICECandidateType::Srflx,
        CandidateType::PeerReflexive => ICECandidateType::Prflx,
        CandidateType::Relay => ICECandidateType::Relay,
        CandidateType::Unspecified => ICECandidateType::Unspecified,
    }
}

impl ICECandidateType {
    /// The display text of a classification: its wire token, or the
    /// unspecified sentinel.
    pub open spec fn render(self) -> Seq<char> {
        match self {
            ICECandidateType::Host => "host"@,
            ICECandidateType::Srflx => "srflx"@,
            ICECandidateType::Prflx => "prflx"@,
            ICECandidateType::Relay => "relay"@,
            ICECandidateType::Unspecified => crate::UNSPECIFIED_STR@,
        }
    }

    /// Returns the display text of the classification.
    pub fn to_string(&self) -> (r: String)
        ensures
            r@ == self.render(),
            r@.len() > 0,
    {
        proof {
            reveal_strlit("host");
            reveal_strlit("srflx");
            reveal_strlit("prflx");
            reveal_strlit("relay");
            reveal_strlit("Unspecified");
        }
        let s: &'static str = match *self {
            ICECandidateType::Host => ICE_CANDIDATE_TYPE_HOST_STR,
            ICECandidateType::Srflx => ICE_CANDIDATE_TYPE_SRFLX_STR,
            ICECandidateType::Prflx => ICE_CANDIDATE_TYPE_PRFLX_STR,
            ICECandidateType::Relay => ICE_CANDIDATE_TYPE_RELAY_STR,
            ICECandidateType::Unspecified => crate::UNSPECIFIED_STR,
        };
        s.to_owned()
    }
}

/// Whether two strings hold the same characters.
fn same_text(a: &str, b: &str) -> (r: bool)
    ensures
        r == (a@ == b@),
{
    a.to_owned() == b.to_owned()
}

impl Default for ICECandidateType {
    fn default() -> (r: Self)
        ensures
            r == ICECandidateType::Unspecified,
    {
        ICECandidateType::Unspecified
    }
}

/// Takes a string and converts it into ICECandidateType.
impl<'a> From<&'a str> for ICECandidateType {
    fn from(raw: &'a str) -> (r: Self)
        ensures
            r == parse_token(raw@),
    {
        if same_text(raw, ICE_CANDIDATE_TYPE_HOST_STR) {
            ICECandidateType::Host
        } else if same_text(raw, ICE_CANDIDATE_TYPE_SRFLX_STR) {
            ICECandidateType::Srflx
        } else if same_text(raw, ICE_CANDIDATE_TYPE_PRFLX_STR) {
            ICECandidateType::Prflx
        } else if same_text(raw, ICE_CANDIDATE_TYPE_RELAY_STR) {
            ICECandidateType::Relay
        } else {
            ICECandidateType::Unspecified
        }
    }
}

impl<'a> vstd::std_specs::convert::FromSpecImpl<&'a str> for ICECandidateType {
    open spec fn obeys_from_spec() -> bool {
        true
    }

    open spec fn from_spec(raw: &'a str) -> ICECandidateType {
        parse_token(raw@)
    }
}

impl From<CandidateType> for ICECandidateType {
    fn from(candidate_type: CandidateType) -> (r: Self)
        ensures
            r == classify_transport(candidate_type),
    {
        match candidate_type {
            CandidateType::Host => ICECandidateType::Host,
            CandidateType::ServerReflexive => ICECandidateType::Srflx,
            CandidateType::PeerReflexive => ICECandidateType::Prflx,
            CandidateType::Relay => ICECandidateType::Relay,
            _ => ICECandidateType::Unspecified,
        }
    }
}

impl vstd::std_specs::convert::FromSpecImpl<CandidateType> for ICECandidateType {
    open spec fn obeys_from_spec() -> bool {
        true
    }

    open spec fn from_spec(candidate_type: CandidateType) -> ICECandidateType {
        classify_transport(candidate_type)
    }
}

/// Each of the four wire tokens renders back to itself once parsed.
pub proof fn lemma_wire_token_round_trip(s: Seq<char>)
    requires
        is_wire_token(s),
    ensures
        parse_token(s).render() == s,
{
    reveal_strlit("host");
    reveal_strlit("srflx");
    reveal_strlit("prflx");
    reveal_strlit("relay");
}

/// Every named classification parses back from its display text.
pub proof fn lemma_named_type_round_trip(t: ICECandidateType)
    requires
        t != ICECandidateType::Unspecified,
    ensures
        parse_token(t.render()) == t,
{
    reveal_strlit("host");
    reveal_strlit("srflx");
    reveal_strlit("prflx");
    reveal_strlit("relay");
    assert("host"@.len() != "srflx"@.len());
    assert("host"@.len() != "prflx"@.len());
    assert("host"@.len() != "relay"@.len());
    assert("srflx"@[0] != "prflx"@[0]);
    assert("srflx"@[0] != "relay"@[0]);
    assert("prflx"@[0] != "relay"@[0]);
}

/// Any text other than the four wire tokens, the empty text included,
/// parses to `Unspecified`.
pub proof fn lemma_unknown_token_is_unspecified(s: Seq<char>)
    requires
        !is_wire_token(s),
    ensures
        parse_token(s) == ICECandidateType::Unspecified,
{
}

/// The display text of `Unspecified` is not empty and is none of the four
/// wire tokens.
pub proof fn lemma_unspecified_text_is_no_token()
    ensures
        ICECandidateType::Unspecified.render().len() > 0,
        !is_wire_token(ICECandidateType::Unspecified.render()),
        parse_token(ICECandidateType::Unspecified.render()) == ICECandidateType::Unspecified,
{
    reveal_strlit("host");
    reveal_strlit("srflx");
    reveal_strlit("prflx");
    reveal_strlit("relay");
    reveal_strlit("Unspecified");
    assert(crate::UNSPECIFIED_STR@[0] == 'U');
}

/// The four known transport kinds map one to one onto the four named
/// classifications, and no other kind maps to a named classification.
pub proof fn lemma_transport_mapping_one_to_one(a: CandidateType, b: CandidateType)
    ensures
        a != CandidateType::Unspecified && b != CandidateType::Unspecified ==> (classify_transport(a)
            == classify_transport(b) <==> a == b),
        classify_transport(a) == ICECandidateType::Unspecified <==> a == CandidateType::Unspecified,
{
}

} // verus!
