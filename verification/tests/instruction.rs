use address_contract::{EcomInstructionData, ProgramError};

#[test]
fn unpacks_the_four_tags() {
    assert_eq!(EcomInstructionData::unpack(&0), Ok(EcomInstructionData::UpdateAdddress));
    assert_eq!(EcomInstructionData::unpack(&1), Ok(EcomInstructionData::InitializeAddressPDA));
    assert_eq!(EcomInstructionData::unpack(&2), Ok(EcomInstructionData::InitializeUserProfilePDA));
    assert_eq!(EcomInstructionData::unpack(&3), Ok(EcomInstructionData::UpdateUserInfo));
}

#[test]
fn refuses_the_first_byte_past_the_tags() {
    assert_eq!(EcomInstructionData::unpack(&4), Err(ProgramError::InvalidInstructionData));
}

#[test]
fn refuses_the_largest_byte() {
    assert_eq!(EcomInstructionData::unpack(&255), Err(ProgramError::InvalidInstructionData));
}

#[test]
fn tags_are_closed_over_the_whole_byte_range() {
    for byte in 0..=255u8 {
        let unpacked = EcomInstructionData::unpack(&byte);
        assert_eq!(unpacked.is_ok(), byte <= 3, "byte {}", byte);
        if byte > 3 {
            assert_eq!(unpacked, Err(ProgramError::InvalidInstructionData));
        }
    }
}

#[test]
fn distinct_tags_give_distinct_operations() {
    let all: Vec<EcomInstructionData> =
        (0..4u8).map(|byte| EcomInstructionData::unpack(&byte).unwrap()).collect();
    for i in 0..all.len() {
        for j in 0..all.len() {
            assert_eq!(all[i] == all[j], i == j);
        }
    }
}
