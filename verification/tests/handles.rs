use iwgui::handle::{manual_handle, Handle, HandleHash, PtrHandle, TextHandle};

#[test]
fn combine_is_xor_then_one_round() {
    assert_eq!(HandleHash::combine(HandleHash(1), HandleHash(2)), HandleHash(0x7566_1fbf));
    assert_eq!(HandleHash::combine(HandleHash(0x1234), HandleHash(0x5678)), HandleHash(0xa8ea_b83c));
    assert_eq!(HandleHash::combine(HandleHash(1), HandleHash(0)), HandleHash(0x2722_0a95));
    assert_eq!(HandleHash::combine(HandleHash(9), HandleHash(9)), HandleHash(0));
}

#[test]
fn combine3_is_xor_then_one_round() {
    assert_eq!(
        HandleHash::combine3(HandleHash(1), HandleHash(2), HandleHash(4)),
        HandleHash(0x11ee_4a13)
    );
}

#[test]
fn site_identity_from_hashed_file_name() {
    assert_eq!(HandleHash::from_hashed_location(7, 10, 5), HandleHash(0x9da8_9bec));
}

#[test]
fn site_identity_is_stable_and_tells_sites_apart() {
    let a = HandleHash::from_location("src/ui.rs", 10, 5);
    let b = HandleHash::from_location("src/ui.rs", 10, 5);
    assert_eq!(a, b);
    assert_ne!(a, HandleHash::from_location("src/ui.rs", 11, 5));
    assert_ne!(a, HandleHash::from_location("src/ui.rs", 10, 6));
    assert_ne!(a, HandleHash::from_location("src/other.rs", 10, 5));
    let file = HandleHash::from_str("src/ui.rs");
    assert_eq!(a, HandleHash::from_hashed_location(file.0, 10, 5));
}

#[test]
fn string_identity_is_the_hash_of_the_text() {
    assert_eq!(HandleHash::from_str("left0"), HandleHash::from_str("left0"));
    assert_ne!(HandleHash::from_str("left0"), HandleHash::from_str("right1"));
    // Fewer than four bytes are hashed one byte per round, then the end
    // marker of a string, whatever the byte order of the machine.
    let round = |state: u32, word: u32| (state.rotate_left(5) ^ word).wrapping_mul(0x2722_0a95);
    assert_eq!(HandleHash::from_str("a"), HandleHash(round(round(0, 0x61), 0xff)));
    assert_eq!(HandleHash::from_str(""), HandleHash(round(0, 0xff)));
}

#[test]
fn index_handle_hashes_the_index() {
    if usize::BITS == 64 {
        assert_eq!(5usize.hash(), HandleHash(0x6dad_b198));
        assert_eq!(0usize.hash(), HandleHash(0));
        assert_eq!(((1usize << 32) + 1).hash(), HandleHash(0x8429_8c09));
        // Sixty-four bits do not fit thirty-two: this one hashes as zero does.
        assert_eq!(0xe441_52a4_0000_0001usize.hash(), HandleHash(0));
    } else {
        assert_eq!(5usize.hash(), HandleHash(5u32.wrapping_mul(0x2722_0a95)));
    }
}

#[test]
fn pointer_handle_hashes_the_address() {
    let value = 17u64;
    let address = usize::from_str_radix(&format!("{:p}", &value)[2..], 16).unwrap();
    assert_eq!(PtrHandle::new(address).hash(), address.hash());
    assert_eq!(PtrHandle::new(5).hash(), 5usize.hash());
}

#[test]
fn manual_handle_combines_site_and_disambiguator() {
    if usize::BITS == 64 {
        assert_eq!(manual_handle(HandleHash(0x10), &3usize), HandleHash(0xc7a7_404e));
    }
    assert_eq!(
        manual_handle(HandleHash(0x10), &3usize),
        HandleHash::combine(HandleHash(0x10), 3usize.hash())
    );
}

#[test]
fn same_disambiguator_same_identity_other_disambiguator_other_identity() {
    let site = HandleHash::from_location("src/ui.rs", 40, 13);
    let mut seen = Vec::new();
    for index in 0..200usize {
        let first_tick = manual_handle(site, &index);
        let second_tick = manual_handle(site, &index);
        assert_eq!(first_tick, second_tick);
        assert!(!seen.contains(&first_tick));
        seen.push(first_tick);
    }
}

#[test]
fn text_handle_hashes_the_text_by_its_characters() {
    let name = String::from("Robin");
    let copy = format!("{}{}", "Rob", "in");
    assert_eq!(TextHandle::new(&name).hash(), TextHandle::new(&copy).hash());
    assert_eq!(TextHandle::new("Robin").hash(), HandleHash::from_str("Robin"));
    assert_ne!(TextHandle::new("Robin").hash(), TextHandle::new("Jenny").hash());
    let site = HandleHash(0x10);
    assert_eq!(
        manual_handle(site, &TextHandle::new("Robin")),
        HandleHash::combine(site, HandleHash::from_str("Robin"))
    );
    assert_ne!(
        manual_handle(site, &TextHandle::new("Robin")),
        manual_handle(site, &TextHandle::new("Jenny"))
    );
}
