use weaksignal::callsignmap::{compute_char_map, CallsignMap};

#[test]
fn callsign_hash_pj4k1abc() {
    let callsign = "PJ4/K1ABC".to_string();
    let hash = CallsignMap::hash(&callsign);
    assert_eq!(hash, 1420834);
}

#[test]
fn callsign_hash_yw18fifa() {
    let callsign = "YW18FIFA".to_string();
    let hash = CallsignMap::hash(&callsign);
    assert_eq!(hash, 771524);
}

#[test]
fn callsign_hash_lookup() {
    let callsign = "9V1AA".to_string();
    let mut map = CallsignMap::new();
    let hash = map.insert(&callsign);
    let lookup = map.get_22(hash);
    assert!(lookup.is_some());
    assert_eq!(lookup.unwrap().clone(), callsign);
}

#[test]
fn hash_is_the_same_on_every_call() {
    let callsign = "K1ABC".to_string();
    assert_eq!(CallsignMap::hash(&callsign), 2920267);
    assert_eq!(CallsignMap::hash(&callsign), CallsignMap::hash(&"K1ABC".to_string()));
}

#[test]
fn hash_of_nothing_and_of_spaces() {
    assert_eq!(CallsignMap::hash(&String::new()), 0);
    assert_eq!(CallsignMap::hash(&"           ".to_string()), 0);
}

#[test]
fn hash_counts_a_foreign_character_as_space() {
    assert_eq!(CallsignMap::hash(&"abc".to_string()), 0);
    assert_eq!(
        CallsignMap::hash(&"K1ABC!".to_string()),
        CallsignMap::hash(&"K1ABC".to_string())
    );
}

#[test]
fn char_map_gives_each_symbol_its_place() {
    let map = compute_char_map();
    let alphabet = " 0123456789ABCDEFGHIJKLMNOPQRSTUVWXYZ/";
    for (i, b) in alphabet.bytes().enumerate() {
        assert_eq!(map[b as usize] as usize, i);
    }
    assert_eq!(map[b'a' as usize], 0);
    assert_eq!(map[255], 0);
}

#[test]
fn twelve_bit_index_follows_the_hash() {
    let mut map = CallsignMap::new();
    let hash = map.insert(&"9V1AA".to_string());
    assert_eq!(hash, 603554);
    assert_eq!(map.get_12(589).unwrap(), "9V1AA");
    assert!(map.get_12(588).is_none());
    assert_eq!(map.get_10(147).unwrap(), "9V1AA");
    assert!(map.get_10(146).is_none());
}

#[test]
fn last_insertion_wins_the_twelve_bit_index() {
    let mut map = CallsignMap::new();
    let first = map.insert(&"K0AAB".to_string());
    let second = map.insert(&"K4AEA".to_string());
    assert_eq!(first, 400478);
    assert_eq!(second, 400654);
    assert_eq!(first >> 10, second >> 10);
    assert_eq!(map.get_12(391).unwrap(), "K4AEA");
    assert_eq!(map.get_22(first).unwrap(), "K0AAB");
    assert_eq!(map.get_22(second).unwrap(), "K4AEA");
}

#[test]
fn remove_takes_both_entries() {
    let mut map = CallsignMap::new();
    let hash = map.insert(&"9V1AA".to_string());
    map.remove(&"9V1AA".to_string());
    assert!(map.get_22(hash).is_none());
    assert!(map.get_12(589).is_none());
    assert!(map.get_10(147).is_none());
    assert_eq!(map.iter().count(), 0);
}

#[test]
fn remove_of_a_shared_index_keeps_the_other_callsign() {
    let mut map = CallsignMap::new();
    let first = map.insert(&"K0AAB".to_string());
    map.insert(&"K4AEA".to_string());
    map.remove(&"K4AEA".to_string());
    assert_eq!(map.get_22(first).unwrap(), "K0AAB");
    assert!(map.get_12(391).is_none());
}

#[test]
fn iter_walks_every_entry() {
    let mut map = CallsignMap::new();
    map.insert(&"K0AAB".to_string());
    map.insert(&"K4AEA".to_string());
    let mut entries: Vec<(u32, String)> = map.iter().map(|(h, c)| (*h, c.clone())).collect();
    entries.sort();
    assert_eq!(
        entries,
        vec![(400478, "K0AAB".to_string()), (400654, "K4AEA".to_string())]
    );
}
