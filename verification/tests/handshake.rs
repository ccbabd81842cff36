use vexide_simulator_protocol::handshake::{active_extensions, names, negotiate, Handshake};
use vexide_simulator_protocol::session::ProtocolError;

fn list(names: &[&str]) -> Vec<String> {
    names.iter().map(|s| s.to_string()).collect()
}

#[test]
fn active_extensions_are_the_intersection() {
    assert_eq!(active_extensions(&list(&["a", "b", "c"]), &list(&["b", "c", "d"])), list(&["b", "c"]));
}

#[test]
fn active_extensions_do_not_depend_on_the_order_of_the_peer() {
    assert_eq!(active_extensions(&list(&["a", "b", "c"]), &list(&["d", "c", "b", "b"])), list(&["b", "c"]));
}

#[test]
fn active_extensions_list_each_extension_once() {
    assert_eq!(active_extensions(&list(&["b", "a", "b", "b"]), &list(&["b", "a"])), list(&["b", "a"]));
}

#[test]
fn active_extensions_of_strangers_are_none() {
    assert_eq!(active_extensions(&list(&["a"]), &list(&["b"])), list(&[]));
    assert_eq!(active_extensions(&list(&[]), &list(&["b"])), list(&[]));
    assert_eq!(active_extensions(&list(&["a"]), &list(&[])), list(&[]));
    assert_eq!(active_extensions(&list(&["ab"]), &list(&["a", "b", "abc", "AB"])), list(&[]));
}

#[test]
fn names_finds_exact_texts() {
    assert!(names(&list(&["a", "text-metrics"]), &"text-metrics".to_string()));
    assert!(!names(&list(&["a", "text-metrics"]), &"text".to_string()));
    assert!(!names(&list(&[]), &"".to_string()));
    assert!(names(&list(&[""]), &"".to_string()));
}

#[test]
fn equal_versions_negotiate() {
    let local = Handshake { version: 3, extensions: list(&["a", "b", "c"]) };
    let peer = Handshake { version: 3, extensions: list(&["b", "c", "d"]) };
    let agreed = negotiate(&local, &peer).unwrap();
    assert_eq!(agreed.version, 3);
    assert_eq!(agreed.extensions, list(&["b", "c"]));
    assert!(agreed.allows(&"b".to_string()));
    assert!(agreed.allows(&"c".to_string()));
    assert!(!agreed.allows(&"a".to_string()));
    assert!(!agreed.allows(&"d".to_string()));
}

#[test]
fn other_versions_are_incompatible() {
    let local = Handshake { version: 3, extensions: list(&["a"]) };
    let peer = Handshake { version: 2, extensions: list(&["a"]) };
    assert_eq!(
        negotiate(&local, &peer),
        Err(ProtocolError::IncompatibleVersion { local: 3, peer: 2 })
    );
    assert_eq!(
        negotiate(&peer, &local),
        Err(ProtocolError::IncompatibleVersion { local: 2, peer: 3 })
    );
}
