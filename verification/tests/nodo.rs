use faena::p2pcon::{abreviar_peer, nodo_sigue, paso_nodo, EventoNodo, P2PMessage, MAX_EVENTS};

#[test]
fn mensajes_del_nodo() {
    match paso_nodo(0, EventoNodo::PingExitoso { peer: "12D3KooWAbc".to_string(), milisegundos: 37 }) {
        (1, Some(P2PMessage::PeerEvent(t))) => assert_eq!(t, " Ping exitoso a: 12D3K... - en solo: 37ms"),
        otro => panic!("{:?}", otro),
    }
    match paso_nodo(4, EventoNodo::PingFallido { peer: "ab".to_string(), fallo: "timeout".to_string() }) {
        (5, Some(P2PMessage::PeerEvent(t))) => assert_eq!(t, "Ping fallido a ab...: timeout"),
        otro => panic!("{:?}", otro),
    }
    match paso_nodo(9, EventoNodo::NuevaDireccion("/ip4/127.0.0.1/tcp/4001".to_string())) {
        (10, Some(P2PMessage::NewAddress(d))) => assert_eq!(d, "/ip4/127.0.0.1/tcp/4001"),
        otro => panic!("{:?}", otro),
    }
    assert!(matches!(paso_nodo(3, EventoNodo::Otro), (4, None)));
    assert_eq!(abreviar_peer("ñandúes"), "ñandú...");
    assert_eq!(abreviar_peer(""), "...");
}

#[test]
fn nodo_atiende_diez_eventos() {
    let mut atendidos = 0;
    let mut pasos = 0;
    let mut eventos = (0..15).map(|_| EventoNodo::Otro);
    while nodo_sigue(atendidos) {
        let Some(e) = eventos.next() else { break };
        atendidos = paso_nodo(atendidos, e).0;
        pasos += 1;
    }
    assert_eq!(pasos, MAX_EVENTS);
    assert_eq!(atendidos, 10);
    assert!(!nodo_sigue(10));
    assert!(nodo_sigue(9));
}
