//! The completion registry and the renderer map, used directly.

use daily_python::registry::Completion;
use daily_python::registry::CompletionRegistry;
use daily_python::renderers::RendererMap;

#[test]
fn registry_resolution_removes_the_entry() {
    let mut reg: CompletionRegistry<u32> = CompletionRegistry::new();
    assert_eq!(reg.len(), 0);
    assert!(!reg.contains(5));

    reg.register(5, Completion::Unary(7));
    assert!(reg.contains(5));
    assert_eq!(reg.len(), 1);

    match reg.resolve(5) {
        Some(Completion::Unary(c)) => assert_eq!(c, 7),
        _ => panic!("the parked completion comes back with its arity"),
    }
    assert!(!reg.contains(5));
    assert_eq!(reg.len(), 0);
    assert!(reg.resolve(5).is_none());
}

#[test]
fn registry_keeps_unrelated_entries() {
    let mut reg: CompletionRegistry<&str> = CompletionRegistry::new();
    reg.register(1, Completion::Binary("one"));
    reg.register(2, Completion::Unary("two"));
    assert!(reg.resolve(1).is_some());
    assert!(reg.contains(2));
    assert_eq!(reg.len(), 1);
    match reg.resolve(2) {
        Some(Completion::Unary(c)) => assert_eq!(c, "two"),
        _ => panic!("the second entry survived the first resolution"),
    }
}

#[test]
fn renderer_map_keeps_entries_across_lookups() {
    let mut map: RendererMap<u32> = RendererMap::new();
    assert_eq!(map.len(), 0);
    map.register(3, 30);
    map.register(4, 40);
    assert_eq!(map.len(), 2);
    assert!(map.contains(3));
    assert_eq!(map.get(3), Some(&30));
    assert_eq!(map.get(4), Some(&40));
    // Unlike a completion, a renderer stays registered after a lookup.
    assert_eq!(map.get(3), Some(&30));
    assert!(map.get(5).is_none());
}
