//! Decisions of the peer-to-peer node: which message each network event
//! becomes, and when the node stops listening.

use vstd::prelude::*;
use crate::texto::{decimal, texto_natural};

verus! {

/// A message that the node passes on to the application.
#[derive(Debug, Clone)]
pub enum P2PMessage {
    /// The node listens on this address.
    NewAddress(String),
    /// A line describing a ping to or from a peer.
    PeerEvent(String),
}

/// An event of the node's swarm, as plain values.
#[derive(Debug)]
pub enum EventoNodo {
    /// The node listens on a new address.
    NuevaDireccion(String),
    /// A ping to `peer` came back after `milisegundos`.
    PingExitoso { peer: String, milisegundos: u128 },
    /// A ping to `peer` failed with `fallo`.
    PingFallido { peer: String, fallo: String },
    /// Any other event.
    Otro,
}

/// The node stops after this many events.
pub const MAX_EVENTS: usize = 10;

/// The first five characters of a peer id, and an ellipsis.
pub open spec fn peer_abreviado(peer: Seq<char>) -> Seq<char> {
    peer.take(if peer.len() < 5 { peer.len() as int } else { 5 }) + "..."@
}

pub open spec fn mensaje_ping_exitoso(peer: Seq<char>, milisegundos: nat) -> Seq<char> {
    " Ping exitoso a: "@ + peer_abreviado(peer) + " - en solo: "@ + decimal(milisegundos) + "ms"@
}

pub open spec fn mensaje_ping_fallido(peer: Seq<char>, fallo: Seq<char>) -> Seq<char> {
    "Ping fallido a "@ + peer_abreviado(peer) + ": "@ + fallo
}

/// The message that `evento` is passed on as, if any.
pub open spec fn mensaje_de(evento: EventoNodo, m: Option<P2PMessage>) -> bool {
    match evento {
        EventoNodo::NuevaDireccion(d) => m == Some(P2PMessage::NewAddress(d)),
        EventoNodo::PingExitoso { peer, milisegundos } =>
            m matches Some(P2PMessage::PeerEvent(t)) && t@ == mensaje_ping_exitoso(peer@, milisegundos as nat),
        EventoNodo::PingFallido { peer, fallo } =>
            m matches Some(P2PMessage::PeerEvent(t)) && t@ == mensaje_ping_fallido(peer@, fallo@),
        EventoNodo::Otro => m is None,
    }
}

/// How many events the node handles out of `eventos` when it has already
/// handled `atendidos`: one more per event, until `MAX_EVENTS`.
pub open spec fn eventos_atendidos(atendidos: nat, eventos: Seq<EventoNodo>) -> nat
    decreases eventos.len(),
{
    if atendidos < MAX_EVENTS && eventos.len() > 0 {
        eventos_atendidos(atendidos + 1, eventos.drop_first())
    } else {
        atendidos
    }
}

/// Whether the node goes on listening after `atendidos` events.
pub fn nodo_sigue(atendidos: usize) -> (r: bool)
    ensures
        r == (atendidos < MAX_EVENTS),
{
    atendidos < MAX_EVENTS
}

/// The first five characters of `peer` followed by `...`.
pub fn abreviar_peer(peer: &str) -> (r: String)
    ensures
        r@ == peer_abreviado(peer@),
{
    let largo = peer.unicode_len();
    let fin: usize = if largo < 5 { largo } else { 5 };
    let mut r = String::from_str(peer.substring_char(0, fin));
    r.append("...");
    r
}

/// Handles one event: the count of handled events goes up by one, and the
/// event becomes the message that the application is told.
pub fn paso_nodo(atendidos: usize, evento: EventoNodo) -> (r: (usize, Option<P2PMessage>))
    requires
        atendidos < MAX_EVENTS,
    ensures
        r.0 == atendidos + 1,
        mensaje_de(evento, r.1),
{
    match evento {
        EventoNodo::NuevaDireccion(d) => (atendidos + 1, Some(P2PMessage::NewAddress(d))),
        EventoNodo::PingExitoso { peer, milisegundos } => {
            let mut t = String::from_str(" Ping exitoso a: ");
            let abreviado = abreviar_peer(peer.as_str());
            t.append(abreviado.as_str());
            t.append(" - en solo: ");
            let cifras = texto_natural(milisegundos);
            t.append(cifras.as_str());
            t.append("ms");
            (atendidos + 1, Some(P2PMessage::PeerEvent(t)))
        },
        EventoNodo::PingFallido { peer, fallo } => {
            let mut t = String::from_str("Ping fallido a ");
            let abreviado = abreviar_peer(peer.as_str());
            t.append(abreviado.as_str());
            t.append(": ");
            t.append(fallo.as_str());
            (atendidos + 1, Some(P2PMessage::PeerEvent(t)))
        },
        EventoNodo::Otro => (atendidos + 1, None),
    }
}

} // verus!
