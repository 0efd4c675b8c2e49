use quantified::Quantified;

#[test]
fn map_applies_to_only_payload() {
    let some_string = Quantified::Only(String::from("Hello, World!"));
    let some_len = some_string.map(|s| s.len());
    assert_eq!(some_len, Quantified::Only(13));
}

#[test]
fn map_applies_to_excluding_payload() {
    let q = Quantified::Excluding(2u32);
    assert_eq!(q.map(|x| x * 10), Quantified::Excluding(20u32));
}

#[test]
fn map_keeps_empty_and_all() {
    let empty: Quantified<u32> = Quantified::Empty;
    assert_eq!(empty.map(|x| x + 1), Quantified::Empty);
    let all: Quantified<u32> = Quantified::All;
    assert_eq!(all.map(|x| x + 1), Quantified::All);
}

#[test]
fn map_invokes_function_once_on_payload_and_never_otherwise() {
    let mut count = 0u32;
    let r = Quantified::Only(5u32).map(|x| {
        count += 1;
        x
    });
    assert_eq!(r, Quantified::Only(5));
    assert_eq!(count, 1);

    let mut count = 0u32;
    let r = Quantified::Excluding(5u32).map(|x| {
        count += 1;
        x
    });
    assert_eq!(r, Quantified::Excluding(5));
    assert_eq!(count, 1);

    let mut count = 0u32;
    let r = Quantified::<u32>::Empty.map(|x| {
        count += 1;
        x
    });
    assert_eq!(r, Quantified::Empty);
    assert_eq!(count, 0);

    let mut count = 0u32;
    let r = Quantified::<u32>::All.map(|x| {
        count += 1;
        x
    });
    assert_eq!(r, Quantified::All);
    assert_eq!(count, 0);
}

#[test]
fn as_ref_mirrors_tag_and_borrows_payload() {
    let q = Quantified::Only(41u64);
    assert_eq!(q.as_ref(), Quantified::Only(&41u64));
    let q = Quantified::Excluding(41u64);
    assert_eq!(q.as_ref(), Quantified::Excluding(&41u64));
    let q: Quantified<u64> = Quantified::Empty;
    assert_eq!(q.as_ref(), Quantified::Empty);
    let q: Quantified<u64> = Quantified::All;
    assert_eq!(q.as_ref(), Quantified::All);
}

#[test]
fn as_ref_map_leaves_original_usable() {
    let text: Quantified<String> = Quantified::Only("Hello, world!".to_string());
    let before = text.clone();
    let text_length: Quantified<usize> = text.as_ref().map(|s| s.len());
    assert_eq!(text_length, Quantified::Only(13));
    assert_eq!(text, before);
}

#[test]
fn as_mut_mutation_is_visible_in_original() {
    let mut q = Quantified::Only(2u32);
    match q.as_mut() {
        Quantified::Only(v) => *v = 42,
        _ => {}
    }
    assert_eq!(q, Quantified::Only(42));

    let mut q = Quantified::Excluding(2u32);
    match q.as_mut() {
        Quantified::Excluding(v) => *v = 42,
        _ => {}
    }
    assert_eq!(q, Quantified::Excluding(42));

    let mut q: Quantified<u32> = Quantified::Empty;
    assert_eq!(q.as_mut(), Quantified::Empty);
    assert_eq!(q, Quantified::Empty);

    let mut q: Quantified<u32> = Quantified::All;
    assert_eq!(q.as_mut(), Quantified::All);
    assert_eq!(q, Quantified::All);
}

#[test]
fn as_deref_coerces_owned_strings_to_slices() {
    let x: Quantified<String> = Quantified::Only("hey".to_owned());
    assert_eq!(x.as_deref(), Quantified::Only("hey"));

    let x: Quantified<String> = Quantified::Excluding("hey".to_owned());
    assert_eq!(x.as_deref(), Quantified::Excluding("hey"));

    let x: Quantified<String> = Quantified::Empty;
    assert_eq!(x.as_deref(), Quantified::Empty);

    let x: Quantified<String> = Quantified::All;
    assert_eq!(x.as_deref(), Quantified::All);
}

#[test]
fn as_deref_mut_mutation_is_visible_in_original() {
    let mut x: Quantified<String> = Quantified::Excluding("hey".to_owned());
    assert_eq!(
        x.as_deref_mut().map(|s| {
            s.make_ascii_uppercase();
            s
        }),
        Quantified::Excluding("HEY".to_owned().as_mut_str())
    );
    assert_eq!(x, Quantified::Excluding("HEY".to_owned()));
}

#[test]
fn variant_tags_are_strictly_ordered() {
    let empty: Quantified<u32> = Quantified::Empty;
    let only = Quantified::Only(99u32);
    let excluding = Quantified::Excluding(1u32);
    let all: Quantified<u32> = Quantified::All;
    assert!(empty < only);
    assert!(empty < excluding);
    assert!(empty < all);
    assert!(only < excluding);
    assert!(only < all);
    assert!(excluding < all);
    assert!(all > excluding);
    assert!(excluding > only);
    assert!(only > empty);
}

#[test]
fn payloads_of_equal_tags_order_by_value() {
    assert!(Quantified::Only(1u32) < Quantified::Only(2u32));
    assert!(Quantified::Excluding(1u32) < Quantified::Excluding(2u32));
    assert_eq!(Quantified::Only(7u32), Quantified::Only(7u32));
    assert_ne!(Quantified::Only(7u32), Quantified::Only(8u32));
    assert_ne!(Quantified::Only(7u32), Quantified::Excluding(7u32));
}

#[test]
fn sorting_follows_the_structural_order() {
    let mut v = vec![
        Quantified::All,
        Quantified::Excluding(0u8),
        Quantified::Only(9u8),
        Quantified::Empty,
        Quantified::Only(3u8),
    ];
    v.sort();
    assert_eq!(
        v,
        vec![
            Quantified::Empty,
            Quantified::Only(3u8),
            Quantified::Only(9u8),
            Quantified::Excluding(0u8),
            Quantified::All,
        ]
    );
}

#[test]
fn as_ref_map_identity_round_trips() {
    let q = Quantified::Only(10u16);
    let r: Quantified<&u16> = q.as_ref().map(|t| t);
    assert_eq!(r, Quantified::Only(&10u16));
    match r {
        Quantified::Only(t) => assert_eq!(*t, 10u16),
        _ => unreachable!(),
    }

    let q = Quantified::Excluding(10u16);
    let r: Quantified<&u16> = q.as_ref().map(|t| t);
    assert_eq!(r, Quantified::Excluding(&10u16));
}
