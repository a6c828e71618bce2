use dataloom::address::Address;
use dataloom::registry::DataLoom;
use dataloom::uint256::Uint256;

fn account(byte: u8) -> Address {
    Address::new([byte; 20])
}

fn id(value: u64) -> Uint256 {
    Uint256::from_u64(value)
}

fn zero_tuple() -> (Vec<u8>, String, Address, Uint256) {
    (Vec::new(), String::new(), Address::new([0u8; 20]), Uint256::from_limbs([0, 0, 0, 0]))
}

#[test]
fn empty_registry_counts_zero() {
    let registry = DataLoom::new();
    assert_eq!(registry.get_canvas_count(), id(0));
    assert_eq!(registry.get_canvases_by_creator(account(1)), Vec::<Uint256>::new());
}

#[test]
fn first_store_returns_one_and_is_read_back() {
    let a = account(0xaa);
    let mut registry = DataLoom::new();
    let stored = registry.store_pixels(vec![0x00, 0x01], String::from("alpha"), a, 100);
    assert_eq!(stored, id(1));
    assert_eq!(stored.limbs, [1, 0, 0, 0]);
    assert_eq!(registry.get_canvas_count(), id(1));
    assert_eq!(
        registry.get_canvas(id(1)),
        (vec![0x00, 0x01], String::from("alpha"), a, id(100))
    );
}

#[test]
fn second_store_returns_two_and_lists_follow_creators() {
    let a = account(0xaa);
    let b = account(0xbb);
    let c = account(0xcc);
    let mut registry = DataLoom::new();
    assert_eq!(registry.store_pixels(vec![0x00, 0x01], String::from("alpha"), a, 100), id(1));
    assert_eq!(registry.store_pixels(Vec::new(), String::new(), b, 101), id(2));
    assert_eq!(registry.get_canvas_count(), id(2));
    assert_eq!(registry.get_canvases_by_creator(a), vec![id(1)]);
    assert_eq!(registry.get_canvases_by_creator(b), vec![id(2)]);
    assert_eq!(registry.get_canvases_by_creator(c), Vec::<Uint256>::new());
    assert_eq!(registry.get_canvas(id(2)), (Vec::new(), String::new(), b, id(101)));
}

#[test]
fn lookup_in_empty_registry_gives_zero_tuple() {
    let registry = DataLoom::new();
    assert_eq!(registry.get_canvas(id(999)), zero_tuple());
}

#[test]
fn kth_store_returns_k_and_count_follows() {
    let mut registry = DataLoom::new();
    for k in 1..=50u64 {
        let creator = account((k % 3) as u8);
        let stored = registry.store_pixels(vec![k as u8], format!("canvas {k}"), creator, 1000 + k);
        assert_eq!(stored, id(k));
        assert_eq!(registry.get_canvas_count(), id(k));
    }
}

#[test]
fn stored_canvas_is_unchanged_by_later_stores() {
    let mut registry = DataLoom::new();
    for k in 1..=20u64 {
        registry.store_pixels(vec![k as u8, 0xff], format!("m{k}"), account(k as u8), 7 * k);
        for earlier in 1..=k {
            assert_eq!(
                registry.get_canvas(id(earlier)),
                (vec![earlier as u8, 0xff], format!("m{earlier}"), account(earlier as u8), id(7 * earlier))
            );
        }
    }
}

#[test]
fn identifier_zero_names_nothing() {
    let mut registry = DataLoom::new();
    registry.store_pixels(vec![1, 2, 3], String::from("x"), account(1), 5);
    assert_eq!(registry.get_canvas(id(0)), zero_tuple());
    assert_eq!(registry.get_creator(id(0)), Address::zero());
}

#[test]
fn identifier_past_the_count_names_nothing() {
    let mut registry = DataLoom::new();
    registry.store_pixels(vec![1, 2, 3], String::from("x"), account(1), 5);
    registry.store_pixels(vec![4], String::from("y"), account(2), 6);
    assert_eq!(registry.get_canvas(id(3)), zero_tuple());
    assert_eq!(registry.get_canvas(id(u64::MAX)), zero_tuple());
    assert_eq!(registry.get_creator(id(3)), Address::zero());
}

#[test]
fn identifier_wider_than_64_bits_names_nothing() {
    let mut registry = DataLoom::new();
    registry.store_pixels(vec![9], String::from("x"), account(1), 5);
    assert_eq!(registry.get_canvas(Uint256::from_limbs([1, 1, 0, 0])), zero_tuple());
    assert_eq!(registry.get_canvas(Uint256::from_limbs([1, 0, 0, 1])), zero_tuple());
    assert_eq!(registry.get_canvas(Uint256::from_limbs([0, 0, 1, 0])), zero_tuple());
    assert_eq!(registry.get_canvas(Uint256::from_limbs([u64::MAX; 4])), zero_tuple());
    assert_eq!(registry.get_canvas(Uint256::from_limbs([1, 0, 0, 0])).0, vec![9]);
}

#[test]
fn creator_lists_keep_storing_order() {
    let a = account(1);
    let b = account(2);
    let mut registry = DataLoom::new();
    let order = [a, b, a, a, b, a, b, b, a];
    for (k, creator) in order.iter().enumerate() {
        registry.store_pixels(vec![k as u8], String::new(), *creator, k as u64);
    }
    assert_eq!(registry.get_canvases_by_creator(a), vec![id(1), id(3), id(4), id(6), id(9)]);
    assert_eq!(registry.get_canvases_by_creator(b), vec![id(2), id(5), id(7), id(8)]);
    assert_eq!(registry.get_canvases_by_creator(account(3)), Vec::<Uint256>::new());
}

#[test]
fn creator_lists_match_the_creators_on_record() {
    let mut registry = DataLoom::new();
    for k in 1..=60u64 {
        registry.store_pixels(Vec::new(), String::new(), account((k * k % 7) as u8), k);
    }
    let mut seen: u64 = 0;
    for byte in 0..7u8 {
        let ids = registry.get_canvases_by_creator(account(byte));
        for pair in ids.windows(2) {
            assert!(pair[0].to_u64().unwrap() < pair[1].to_u64().unwrap());
        }
        for listed in &ids {
            assert_eq!(registry.get_creator(*listed), account(byte));
        }
        seen += ids.len() as u64;
    }
    assert_eq!(seen, 60);
}

#[test]
fn creators_that_differ_in_one_byte_are_kept_apart() {
    let mut first = [0u8; 20];
    let mut second = [0u8; 20];
    first[19] = 1;
    second[0] = 1;
    let mut registry = DataLoom::new();
    registry.store_pixels(vec![1], String::new(), Address::new(first), 1);
    registry.store_pixels(vec![2], String::new(), Address::new(second), 2);
    registry.store_pixels(vec![3], String::new(), Address::zero(), 3);
    assert_eq!(registry.get_canvases_by_creator(Address::new(first)), vec![id(1)]);
    assert_eq!(registry.get_canvases_by_creator(Address::new(second)), vec![id(2)]);
    assert_eq!(registry.get_canvases_by_creator(Address::zero()), vec![id(3)]);
}

#[test]
fn reading_twice_gives_the_same_canvas() {
    let mut registry = DataLoom::new();
    registry.store_pixels(vec![5, 6, 7], String::from("twice"), account(4), 77);
    let first = registry.get_canvas(id(1));
    let second = registry.get_canvas(id(1));
    assert_eq!(first, second);
    assert_eq!(registry.get_canvas(id(2)), registry.get_canvas(id(2)));
    assert_eq!(registry.get_canvases_by_creator(account(4)), registry.get_canvases_by_creator(account(4)));
    assert_eq!(registry.get_canvas_count(), id(1));
}

#[test]
fn empty_payload_and_metadata_are_stored() {
    let mut registry = DataLoom::new();
    let stored = registry.store_pixels(Vec::new(), String::new(), account(9), 0);
    assert_eq!(stored, id(1));
    assert_eq!(registry.get_canvas(id(1)), (Vec::new(), String::new(), account(9), id(0)));
    assert_eq!(registry.get_canvases_by_creator(account(9)), vec![id(1)]);
}

#[test]
fn canvas_of_the_zero_identity_is_still_listed() {
    let mut registry = DataLoom::new();
    registry.store_pixels(Vec::new(), String::new(), Address::zero(), 0);
    assert_eq!(registry.get_canvas(id(1)), zero_tuple());
    assert_eq!(registry.get_canvas_count(), id(1));
    assert_eq!(registry.get_canvases_by_creator(Address::zero()), vec![id(1)]);
}

#[test]
fn get_creator_names_who_stored() {
    let mut registry = DataLoom::new();
    registry.store_pixels(vec![1], String::from("a"), account(0x11), 1);
    registry.store_pixels(vec![2], String::from("b"), account(0x22), 2);
    assert_eq!(registry.get_creator(id(1)), account(0x11));
    assert_eq!(registry.get_creator(id(2)), account(0x22));
    assert_eq!(registry.get_creator(id(1)), registry.get_canvas(id(1)).2);
}

#[test]
fn largest_timestamp_is_kept() {
    let mut registry = DataLoom::new();
    registry.store_pixels(vec![1], String::from("late"), account(1), u64::MAX);
    assert_eq!(registry.get_canvas(id(1)).3, Uint256::from_limbs([u64::MAX, 0, 0, 0]));
}

#[test]
fn metadata_keeps_text_outside_ascii() {
    let mut registry = DataLoom::new();
    let text = String::from("façade — 画布 🎨");
    registry.store_pixels(vec![0; 1024], text.clone(), account(1), 1);
    let (payload, metadata, _, _) = registry.get_canvas(id(1));
    assert_eq!(payload, vec![0; 1024]);
    assert_eq!(metadata, text);
}
