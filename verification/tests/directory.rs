use bluedot::directory::{CharacteristicEntry, Directory};
use bluedot::resolver::Uuid;

fn id(value: u128) -> Uuid {
    Uuid::from_u128(value)
}

fn entry(service: u128, characteristic: u128) -> CharacteristicEntry {
    CharacteristicEntry { service: id(service), characteristic: id(characteristic) }
}

#[test]
fn empty_directory_finds_nothing() {
    let directory = Directory::new();
    assert!(directory.is_empty());
    assert_eq!(directory.len(), 0);
    assert_eq!(directory.find(id(1), id(2)), None);
    assert_eq!(directory.list_services(), Vec::<Uuid>::new());
    assert_eq!(directory.list_characteristics(id(1)), Vec::<Uuid>::new());
}

#[test]
fn building_from_nothing_gives_an_empty_directory() {
    let directory = Directory::build(&Vec::new());
    assert!(directory.is_empty());
    assert_eq!(directory.find(id(0), id(0)), None);
}

#[test]
fn find_gives_the_position_in_the_reported_list() {
    let raw = vec![entry(1, 10), entry(1, 11), entry(2, 20)];
    let directory = Directory::build(&raw);
    assert!(!directory.is_empty());
    assert_eq!(directory.len(), 3);
    assert_eq!(directory.find(id(1), id(10)), Some(0));
    assert_eq!(directory.find(id(1), id(11)), Some(1));
    assert_eq!(directory.find(id(2), id(20)), Some(2));
}

#[test]
fn absent_pair_is_not_found() {
    let raw = vec![entry(1, 10), entry(2, 20)];
    let directory = Directory::build(&raw);
    assert_eq!(directory.find(id(1), id(20)), None);
    assert_eq!(directory.find(id(2), id(10)), None);
    assert_eq!(directory.find(id(10), id(1)), None);
    assert_eq!(directory.find(id(3), id(30)), None);
}

#[test]
fn repeated_pairs_collapse_into_the_first() {
    let raw = vec![entry(1, 10), entry(2, 20), entry(1, 10), entry(1, 11), entry(2, 20)];
    let directory = Directory::build(&raw);
    assert_eq!(directory.len(), 3);
    assert_eq!(directory.find(id(1), id(10)), Some(0));
    assert_eq!(directory.find(id(2), id(20)), Some(1));
    assert_eq!(directory.find(id(1), id(11)), Some(3));
    assert_eq!(directory.list_characteristics(id(1)), vec![id(10), id(11)]);
    assert_eq!(directory.list_characteristics(id(2)), vec![id(20)]);
}

#[test]
fn services_are_listed_once_in_first_seen_order() {
    let raw = vec![entry(3, 30), entry(1, 10), entry(3, 31), entry(2, 20), entry(1, 11)];
    let directory = Directory::build(&raw);
    assert_eq!(directory.list_services(), vec![id(3), id(1), id(2)]);
}

#[test]
fn characteristics_are_filtered_by_service() {
    let raw = vec![entry(3, 30), entry(1, 10), entry(3, 31), entry(2, 20), entry(1, 11)];
    let directory = Directory::build(&raw);
    assert_eq!(directory.list_characteristics(id(3)), vec![id(30), id(31)]);
    assert_eq!(directory.list_characteristics(id(1)), vec![id(10), id(11)]);
    assert_eq!(directory.list_characteristics(id(2)), vec![id(20)]);
    assert_eq!(directory.list_characteristics(id(4)), Vec::<Uuid>::new());
}

#[test]
fn the_same_characteristic_may_stand_under_two_services() {
    let raw = vec![entry(1, 10), entry(2, 10)];
    let directory = Directory::build(&raw);
    assert_eq!(directory.len(), 2);
    assert_eq!(directory.find(id(2), id(10)), Some(1));
    assert_eq!(directory.list_services(), vec![id(1), id(2)]);
    assert_eq!(directory.list_characteristics(id(2)), vec![id(10)]);
}

#[test]
fn every_listed_characteristic_is_found_under_its_service() {
    let raw = vec![entry(7, 1), entry(8, 1), entry(7, 2), entry(7, 1), entry(9, 3)];
    let directory = Directory::build(&raw);
    for service in directory.list_services() {
        for characteristic in directory.list_characteristics(service) {
            let handle = directory.find(service, characteristic).unwrap();
            assert_eq!(raw[handle], CharacteristicEntry { service, characteristic });
            assert!(raw[..handle].iter().all(|e| *e != raw[handle]));
        }
    }
}
