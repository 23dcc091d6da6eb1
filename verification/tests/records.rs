use address_contract::{string_to_array, AddressSchema, InstructionData, LayoutError};

fn counting() -> [u8; 512] {
    let mut bytes = [0u8; 512];
    for (i, b) in bytes.iter_mut().enumerate() {
        *b = (i % 251) as u8 + 1;
    }
    bytes
}

#[test]
fn instruction_encodes_to_its_address_bytes() {
    let address = counting();
    let encoded = InstructionData { address }.try_to_vec().unwrap();
    assert_eq!(encoded.len(), 512);
    assert_eq!(encoded, address.to_vec());
}

#[test]
fn instruction_decodes_exactly_512_bytes() {
    let address = counting();
    let decoded = InstructionData::try_from_slice(&address).unwrap();
    assert_eq!(decoded, InstructionData { address });
}

#[test]
fn instruction_round_trips_through_its_encoding() {
    let record = InstructionData { address: string_to_array(String::from("12 Linden Row")) };
    let encoded = record.try_to_vec().unwrap();
    assert_eq!(InstructionData::try_from_slice(&encoded).unwrap(), record);
}

#[test]
fn instruction_of_511_bytes_is_too_short() {
    let bytes = vec![7u8; 511];
    assert_eq!(InstructionData::try_from_slice(&bytes).unwrap_err(), LayoutError::UnexpectedLength);
}

#[test]
fn instruction_of_513_bytes_has_a_byte_left_over() {
    let bytes = vec![7u8; 513];
    assert_eq!(InstructionData::try_from_slice(&bytes).unwrap_err(), LayoutError::NotAllBytesRead);
}

#[test]
fn empty_instruction_is_too_short() {
    assert_eq!(InstructionData::try_from_slice(&[]).unwrap_err(), LayoutError::UnexpectedLength);
}

#[test]
fn state_decodes_exactly_512_bytes() {
    let address = counting();
    assert_eq!(AddressSchema::try_from_slice(&address).unwrap().address, address);
}

#[test]
fn state_of_other_lengths_is_refused() {
    assert_eq!(
        AddressSchema::try_from_slice(&[1u8; 100]).unwrap_err(),
        LayoutError::UnexpectedLength
    );
    assert_eq!(
        AddressSchema::try_from_slice(&vec![1u8; 1024]).unwrap_err(),
        LayoutError::NotAllBytesRead
    );
}

#[test]
fn state_is_written_over_a_buffer_of_its_size() {
    let address = counting();
    let mut out = vec![0xeeu8; 512];
    AddressSchema { address }.serialize(&mut out).unwrap();
    assert_eq!(out, address.to_vec());
}

#[test]
fn state_is_written_over_the_front_of_a_longer_buffer() {
    let address = counting();
    let mut out = vec![0xeeu8; 600];
    AddressSchema { address }.serialize(&mut out).unwrap();
    assert_eq!(out.len(), 600);
    assert_eq!(&out[..512], &address[..]);
    assert!(out[512..].iter().all(|b| *b == 0xee));
}

#[test]
fn state_is_not_written_into_a_shorter_buffer() {
    let address = counting();
    let mut out = vec![0xeeu8; 511];
    assert_eq!(AddressSchema { address }.serialize(&mut out), Err(LayoutError::WriteZero));
    assert_eq!(out, vec![0xeeu8; 511]);
    let mut none: Vec<u8> = Vec::new();
    assert_eq!(AddressSchema { address }.serialize(&mut none), Err(LayoutError::WriteZero));
    assert!(none.is_empty());
}
