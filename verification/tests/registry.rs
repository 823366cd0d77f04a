use ploteria::axis::Axis;
use ploteria::map::AxisMap;

fn keys(map: &AxisMap<u32>) -> Vec<(u8, u32)> {
    let mut items = map.iter();
    let mut seen = Vec::new();
    while let Some((axis, value)) = items.next() {
        let position = match axis {
            Axis::BottomX => 0,
            Axis::LeftY => 1,
            Axis::RightY => 2,
            Axis::TopX => 3,
        };
        seen.push((position, *value));
    }
    assert!(items.next().is_none());
    seen
}

#[test]
fn a_new_store_is_empty() {
    let map: AxisMap<u32> = AxisMap::new();
    assert!(!map.contains_key(Axis::BottomX));
    assert!(!map.contains_key(Axis::LeftY));
    assert!(!map.contains_key(Axis::RightY));
    assert!(!map.contains_key(Axis::TopX));
    assert!(map.get(Axis::TopX).is_none());
    assert!(keys(&map).is_empty());
    let map: AxisMap<u32> = AxisMap::default();
    assert!(keys(&map).is_empty());
}

#[test]
fn insert_fills_a_slot_and_returns_what_it_held() {
    let mut map = AxisMap::new();
    assert_eq!(map.insert(Axis::RightY, 1), None);
    assert_eq!(map.insert(Axis::RightY, 2), Some(1));
    assert_eq!(map.get(Axis::RightY), Some(&2));
    assert!(map.contains_key(Axis::RightY));
    assert!(!map.contains_key(Axis::LeftY));
    assert_eq!(keys(&map), vec![(2, 2)]);
}

#[test]
fn a_traversal_goes_by_the_order_of_the_axes_whatever_the_order_of_insertion() {
    let orders = [
        [Axis::BottomX, Axis::LeftY, Axis::RightY, Axis::TopX],
        [Axis::TopX, Axis::RightY, Axis::LeftY, Axis::BottomX],
        [Axis::RightY, Axis::BottomX, Axis::TopX, Axis::LeftY],
        [Axis::LeftY, Axis::TopX, Axis::BottomX, Axis::RightY],
    ];
    for order in &orders {
        let mut map = AxisMap::new();
        for &axis in order {
            let value = match axis {
                Axis::BottomX => 10,
                Axis::LeftY => 11,
                Axis::RightY => 12,
                Axis::TopX => 13,
            };
            map.insert(axis, value);
        }
        assert_eq!(keys(&map), vec![(0, 10), (1, 11), (2, 12), (3, 13)]);
        assert_eq!(keys(&map), vec![(0, 10), (1, 11), (2, 12), (3, 13)]);
    }
}

#[test]
fn a_traversal_passes_over_empty_slots() {
    let mut map = AxisMap::new();
    map.insert(Axis::TopX, 4);
    map.insert(Axis::LeftY, 2);
    assert_eq!(keys(&map), vec![(1, 2), (3, 4)]);
    let mut other = AxisMap::new();
    other.insert(Axis::LeftY, 2);
    other.insert(Axis::TopX, 4);
    assert_eq!(keys(&other), keys(&map));
}

#[test]
fn get_mut_changes_a_value_in_place() {
    let mut map = AxisMap::new();
    map.insert(Axis::BottomX, 1);
    map.insert(Axis::TopX, 5);
    assert!(map.get_mut(Axis::LeftY).is_none());
    if let Some(value) = map.get_mut(Axis::BottomX) {
        *value += 41;
    }
    assert_eq!(keys(&map), vec![(0, 42), (3, 5)]);
}

#[test]
fn take_empties_a_slot() {
    let mut map = AxisMap::new();
    map.insert(Axis::LeftY, 7);
    map.insert(Axis::RightY, 8);
    assert_eq!(map.take(Axis::BottomX), None);
    assert_eq!(map.take(Axis::LeftY), Some(7));
    assert_eq!(map.take(Axis::LeftY), None);
    assert_eq!(keys(&map), vec![(2, 8)]);
    let copy = map.clone();
    assert_eq!(keys(&copy), vec![(2, 8)]);
}
