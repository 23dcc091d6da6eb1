use address_contract::{string_to_array, string_to_array_clipped, ADDRESS_LEN};

fn padded(bytes: &[u8]) -> [u8; 512] {
    let mut expected = [0u8; 512];
    for (i, b) in bytes.iter().enumerate().take(512) {
        expected[i] = *b;
    }
    expected
}

#[test]
fn address_len_is_512() {
    assert_eq!(ADDRESS_LEN, 512);
}

#[test]
fn packs_2265_left_aligned() {
    let packed = string_to_array(String::from("2265"));
    assert_eq!(packed.len(), 512);
    assert_eq!(&packed[..4], &[0x32, 0x32, 0x36, 0x35]);
    assert!(packed[4..].iter().all(|b| *b == 0));
    assert_eq!(packed[4..].len(), 508);
}

#[test]
fn packs_empty_string_as_zeros() {
    let packed = string_to_array(String::new());
    assert_eq!(packed, [0u8; 512]);
}

#[test]
fn packs_single_byte() {
    let packed = string_to_array(String::from("a"));
    assert_eq!(packed[0], b'a');
    assert!(packed[1..].iter().all(|b| *b == 0));
}

#[test]
fn packs_multibyte_text_by_its_utf8_bytes() {
    let text = "Zürich, 東京";
    let packed = string_to_array(String::from(text));
    assert_eq!(packed, padded(text.as_bytes()));
    assert_eq!(packed[1], 0xc3);
    assert_eq!(packed[2], 0xbc);
}

#[test]
fn packs_511_bytes_with_one_zero_left() {
    let text = "x".repeat(511);
    let packed = string_to_array(text);
    assert!(packed[..511].iter().all(|b| *b == b'x'));
    assert_eq!(packed[511], 0);
}

#[test]
fn packs_exactly_512_bytes_in_full() {
    let text = "y".repeat(512);
    let packed = string_to_array(text);
    assert_eq!(packed, [b'y'; 512]);
}

#[test]
fn cuts_off_what_does_not_fit() {
    let mut text = "a".repeat(512);
    text.push_str("tail that is lost");
    let packed = string_to_array(text);
    assert_eq!(packed, [b'a'; 512]);
}

#[test]
fn cuts_off_in_the_middle_of_a_character() {
    let mut text = "a".repeat(511);
    text.push('é');
    let packed = string_to_array(text);
    assert!(packed[..511].iter().all(|b| *b == b'a'));
    assert_eq!(packed[511], 0xc3);
}

#[test]
fn clipped_leaves_the_first_cell_empty() {
    let packed = string_to_array_clipped(String::from("2265"));
    assert_eq!(&packed[..4], &[0x00, 0x32, 0x36, 0x35]);
    assert!(packed[4..].iter().all(|b| *b == 0));
}

#[test]
fn clipped_of_empty_and_single_byte_is_zeros() {
    assert_eq!(string_to_array_clipped(String::new()), [0u8; 512]);
    assert_eq!(string_to_array_clipped(String::from("7")), [0u8; 512]);
}

#[test]
fn clipped_keeps_all_but_the_first_of_511_bytes() {
    let text = "z".repeat(511);
    let packed = string_to_array_clipped(text);
    assert_eq!(packed[0], 0);
    assert!(packed[1..511].iter().all(|b| *b == b'z'));
    assert_eq!(packed[511], 0);
}

#[test]
fn clipped_leaves_the_last_cell_empty_under_a_full_string() {
    let text = "z".repeat(512);
    let packed = string_to_array_clipped(text);
    assert_eq!(packed[0], 0);
    assert!(packed[1..511].iter().all(|b| *b == b'z'));
    assert_eq!(packed[511], 0);
}

#[test]
fn clipped_cuts_off_what_does_not_fit() {
    let text = "q".repeat(700);
    let packed = string_to_array_clipped(text);
    assert_eq!(packed[0], 0);
    assert!(packed[1..511].iter().all(|b| *b == b'q'));
    assert_eq!(packed[511], 0);
}

#[test]
fn the_two_packings_agree_between_the_outer_cells() {
    let long = "w".repeat(600);
    for text in ["", "a", "2265", "Zürich", "some longer address, 12345 Example Street", &long] {
        let plain = string_to_array(String::from(text));
        let clipped = string_to_array_clipped(String::from(text));
        assert_eq!(&plain[1..511], &clipped[1..511]);
        assert_eq!(clipped[0], 0);
        assert_eq!(clipped[511], 0);
    }
}
