use vstd::prelude::*;
use libp2p::Multiaddr;

verus! {

#[verifier::external_type_specification]
#[verifier::external_body]
pub struct ExMultiaddrError(libp2p::multiaddr::Error);

/// The binary encoding of the multiaddress that `text` denotes, or `None`
/// where `text` is no multiaddress.
pub uninterp spec fn multiaddr_encoding(text: Seq<char>) -> Option<Seq<u8>>;

/// Parses `text` with `<libp2p::Multiaddr as FromStr>::from_str` and, on
/// success, hands back the address's bytes (`Multiaddr::to_vec`). Claimed:
/// the outcome is a function of the text (named `multiaddr_encoding`), and a
/// non-empty text that does not begin with `/` is refused, as the parser's
/// first check does.
#[verifier::external_body]
fn parse_multiaddr(text: &str) -> (r: Result<Vec<u8>, libp2p::multiaddr::Error>)
    ensures
        match r {
            Ok(bytes) => multiaddr_encoding(text@) == Some(bytes@),
            Err(_) => multiaddr_encoding(text@) is None,
        },
        text@.len() > 0 && text@[0] != '/' ==> r is Err,
{
    text.parse::<Multiaddr>().map(|a| a.to_vec())
}

/// Whether, and where, to reach out to another node at start-up.
#[derive(Debug)]
pub enum DialPlan {
    /// No peer was given: start a new network.
    Stay,
    /// Dial the peer at this address (the multiaddress bytes); `target` is what the user typed.
    Dial { target: String, address: Vec<u8> },
    /// The given peer is no multiaddress; report the parser's error.
    Unparsable { target: String, error: libp2p::multiaddr::Error },
}

/// The plan for `target` once the parser has answered with `parsed`.
pub fn plan_for_parsed(target: String, parsed: Result<Vec<u8>, libp2p::multiaddr::Error>) -> (p:
    DialPlan)
    ensures
        match parsed {
            Ok(bytes) => p matches DialPlan::Dial { target: t, address: a } && t@ == target@
                && a@ == bytes@,
            Err(e) => p matches DialPlan::Unparsable { target: t, error: er } && t@ == target@
                && er == e,
        },
{
    match parsed {
        Ok(address) => DialPlan::Dial { target, address },
        Err(error) => DialPlan::Unparsable { target, error },
    }
}

/// The start-up decision: with no peer configured stay alone; otherwise parse
/// the peer's address and dial it, or report that it does not parse.
pub fn plan_dial(network: Option<&String>) -> (p: DialPlan)
    ensures
        match network {
            None => p matches DialPlan::Stay,
            Some(s) => match multiaddr_encoding(s@) {
                Some(bytes) => p matches DialPlan::Dial { target: t, address: a } && t@ == s@
                    && a@ == bytes,
                None => p matches DialPlan::Unparsable { target: t, error: _ } && t@ == s@,
            },
        },
{
    match network {
        None => DialPlan::Stay,
        Some(s) => {
            let parsed = parse_multiaddr(s.as_str());
            plan_for_parsed(s.clone(), parsed)
        },
    }
}

} // verus!
