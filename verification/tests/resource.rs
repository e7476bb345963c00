use gpu::resource::{ResolutionError, ResourceHandle, ResourceMap};
use std::marker::PhantomData;

#[test]
fn added_object_resolves() {
    let mut map: ResourceMap<String> = ResourceMap::new();
    let a = map.add("a".to_string());
    let b = map.add("b".to_string());
    assert_eq!((a.index, a.generation), (0, 0));
    assert_eq!((b.index, b.generation), (1, 0));
    assert_eq!(map.get(&a).unwrap(), "a");
    assert_eq!(map.get(&b).unwrap(), "b");
    assert_eq!(map.capacity(), 2);
}

#[test]
fn object_lives_while_any_handle_lives() {
    let mut map: ResourceMap<u32> = ResourceMap::new();
    let h = map.add(7);
    let h1 = map.clone_handle(&h).unwrap();
    let h2 = map.clone_handle(&h1).unwrap();
    assert_eq!(map.drop_handle(h), Ok(None));
    assert_eq!(map.get(&h1), Ok(&7));
    assert_eq!(map.get(&h2), Ok(&7));
    assert_eq!(map.drop_handle(h2), Ok(None));
    assert_eq!(map.get(&h1), Ok(&7));
    assert_eq!(map.drop_handle(h1), Ok(Some(7)));
    assert_eq!(map.get(&h1), Err(ResolutionError::Stale));
    assert_eq!(map.drop_handle(h1), Err(ResolutionError::Stale));
    assert_eq!(map.clone_handle(&h1).err(), Some(ResolutionError::Stale));
}

#[test]
fn stale_handle_does_not_resolve_to_the_new_object() {
    let mut map: ResourceMap<&'static str> = ResourceMap::new();
    let a = map.add("A");
    let captured = a;
    assert_eq!(map.drop_handle(a), Ok(Some("A")));
    let b = map.add("B");
    assert_eq!(b.index, captured.index);
    assert_eq!(b.generation, captured.generation + 1);
    assert_eq!(map.get(&captured), Err(ResolutionError::Stale));
    assert_eq!(map.get(&b), Ok(&"B"));
    assert_eq!(map.capacity(), 1);
}

#[test]
fn vacated_slots_are_reused_last_vacated_first() {
    let mut map: ResourceMap<u8> = ResourceMap::new();
    let h0 = map.add(0);
    let h1 = map.add(1);
    let h2 = map.add(2);
    map.drop_handle(h0).unwrap();
    map.drop_handle(h2).unwrap();
    let n2 = map.add(20);
    let n0 = map.add(10);
    let n3 = map.add(30);
    assert_eq!((n2.index, n2.generation), (2, 1));
    assert_eq!((n0.index, n0.generation), (0, 1));
    assert_eq!((n3.index, n3.generation), (3, 0));
    assert_eq!(map.get(&h1), Ok(&1));
    assert_eq!(map.get(&n0), Ok(&10));
}

#[test]
fn handle_to_no_slot_is_out_of_range() {
    let mut map: ResourceMap<u8> = ResourceMap::new();
    let forged = ResourceHandle { index: 3, generation: 0, marker: PhantomData };
    assert_eq!(map.get(&forged), Err(ResolutionError::OutOfRange));
    assert_eq!(map.clone_handle(&forged).err(), Some(ResolutionError::OutOfRange));
    assert_eq!(map.drop_handle(forged), Err(ResolutionError::OutOfRange));
    let h = map.add(1);
    let wrong_generation = ResourceHandle { index: h.index, generation: 5, marker: PhantomData };
    assert_eq!(map.get(&wrong_generation), Err(ResolutionError::Stale));
}
