use msg_store::ids::{IdMap, IdSet};

#[test]
fn id_map_binds_and_unbinds() {
    let mut map: IdMap<String> = IdMap::new();
    assert_eq!(map.len(), 0);
    assert_eq!(map.get(1), None);
    assert!(!map.contains_key(1));
    assert_eq!(map.insert(1, "a".to_string()), None);
    assert_eq!(map.insert(2, "b".to_string()), None);
    assert_eq!(map.insert(1, "c".to_string()), Some("a".to_string()));
    assert_eq!(map.len(), 2);
    assert_eq!(map.get(1).map(String::as_str), Some("c"));
    assert!(map.contains_key(2));
    let mut keys = map.keys();
    keys.sort();
    assert_eq!(keys, vec![1, 2]);
    assert_eq!(map.remove(1), Some("c".to_string()));
    assert_eq!(map.remove(1), None);
    assert_eq!(map.keys(), vec![2]);
    assert_eq!(map.len(), 1);
}

#[test]
fn id_map_hands_out_values_for_a_change() {
    let mut map: IdMap<Vec<u8>> = IdMap::new();
    map.insert(7, vec![1]);
    map.get_mut(7).unwrap().push(2);
    assert_eq!(map.get(7), Some(&vec![1, 2]));
    assert!(map.get_mut(8).is_none());
    assert_eq!(map.len(), 1);
}

#[test]
fn id_map_holds_many() {
    let mut map: IdMap<u32> = IdMap::new();
    for id in 0..1000u32 {
        map.insert(id.wrapping_mul(2654435761), id);
    }
    assert_eq!(map.len(), 1000);
    let keys = map.keys();
    assert_eq!(keys.len(), 1000);
    for id in 0..1000u32 {
        assert_eq!(map.get(id.wrapping_mul(2654435761)), Some(&id));
    }
}

#[test]
fn id_set_adds_and_removes() {
    let mut set = IdSet::new();
    assert_eq!(set.len(), 0);
    assert!(set.insert(3));
    assert!(!set.insert(3));
    assert!(set.insert(4));
    assert!(set.contains(3));
    assert!(!set.contains(5));
    let copy = set.duplicate();
    assert!(set.remove(3));
    assert!(!set.remove(3));
    assert_eq!(set.to_vec(), vec![4]);
    let mut ids = copy.to_vec();
    ids.sort();
    assert_eq!(ids, vec![3, 4]);
    assert_eq!(copy.len(), 2);
    assert_eq!(IdSet::new().duplicate().len(), 0);
}

#[test]
fn id_map_is_made_over() {
    let mut map: IdMap<u32> = IdMap::new();
    for id in 1..=6u32 {
        map.insert(id, id * 10);
    }
    let even = map.filter_map(|id, value| if id % 2 == 0 { Some(format!("{id}:{value}")) } else { None });
    assert_eq!(even.len(), 3);
    assert_eq!(even.get(2).map(String::as_str), Some("2:20"));
    assert_eq!(even.get(6).map(String::as_str), Some("6:60"));
    assert_eq!(even.get(3), None);
    assert_eq!(map.len(), 6);
    let none: IdMap<u8> = map.filter_map(|_, _| None);
    assert_eq!(none.len(), 0);
    let empty: IdMap<u32> = IdMap::<u32>::new().filter_map(|_, value| Some(*value));
    assert_eq!(empty.len(), 0);
}
