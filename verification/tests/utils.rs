use borsh::BorshDeserialize;
use mpl_token_metadata::assert_edition_is_programmable;
use mpl_token_metadata::clean;
use mpl_token_metadata::TokenMetadataError;

#[test]
fn test_borsh_functionality() {
    let value: u32 = 42;
    let serialized = borsh::to_vec(&value).unwrap();
    println!("Serialized: {:?}", serialized);

    let deserialized: u32 = u32::try_from_slice(&serialized).unwrap();
    assert_eq!(deserialized, 42);
}

#[test]
fn clean_removes_interspersed_nulls() {
    assert_eq!(clean(String::from("\0ab\0c\0\0d\0")), "abcd");
}

#[test]
fn clean_keeps_text_without_nulls() {
    assert_eq!(clean(String::from("master edition")), "master edition");
}

#[test]
fn clean_of_empty_is_empty() {
    assert_eq!(clean(String::from("")), "");
}

#[test]
fn clean_of_only_nulls_is_empty() {
    assert_eq!(clean(String::from("\0\0\0")), "");
}

#[test]
fn clean_is_idempotent() {
    let once = clean(String::from("na\0me\0"));
    let twice = clean(once.clone());
    assert_eq!(twice, once);
}

#[test]
fn clean_output_has_no_nulls() {
    let cleaned = clean(String::from("a\0b\0"));
    assert!(!cleaned.contains('\0'));
}

#[test]
fn empty_buffer_is_too_short() {
    assert_eq!(
        assert_edition_is_programmable(&[]),
        Err(TokenMetadataError::InvalidMasterEditionAccountLength)
    );
}

#[test]
fn one_byte_buffer_is_too_short() {
    assert_eq!(
        assert_edition_is_programmable(&[0x04]),
        Err(TokenMetadataError::InvalidMasterEditionAccountLength)
    );
}

#[test]
fn unknown_key_byte_is_rejected() {
    assert_eq!(
        assert_edition_is_programmable(&[0x63, 0x04]),
        Err(TokenMetadataError::InvalidEditionKey)
    );
}

#[test]
fn known_non_master_edition_key_is_rejected() {
    // an edition account key, not a master-edition one
    assert_eq!(
        assert_edition_is_programmable(&[0x01, 0x04]),
        Err(TokenMetadataError::InvalidEditionKey)
    );
    // an uninitialized account key
    assert_eq!(
        assert_edition_is_programmable(&[0x00, 0x04]),
        Err(TokenMetadataError::InvalidEditionKey)
    );
}

#[test]
fn unknown_standard_byte_is_rejected() {
    assert_eq!(
        assert_edition_is_programmable(&[0x04, 0x63]),
        Err(TokenMetadataError::InvalidTokenStandard)
    );
}

#[test]
fn non_programmable_standard_is_rejected() {
    // a plain non-fungible standard
    assert_eq!(
        assert_edition_is_programmable(&[0x04, 0x00]),
        Err(TokenMetadataError::InvalidTokenStandard)
    );
    // a fungible standard
    assert_eq!(
        assert_edition_is_programmable(&[0x02, 0x02]),
        Err(TokenMetadataError::InvalidTokenStandard)
    );
}

#[test]
fn programmable_master_edition_is_accepted() {
    // both master-edition versions, both programmable standards
    assert_eq!(assert_edition_is_programmable(&[0x02, 0x04]), Ok(()));
    assert_eq!(assert_edition_is_programmable(&[0x02, 0x05]), Ok(()));
    assert_eq!(assert_edition_is_programmable(&[0x04, 0x04]), Ok(()));
    assert_eq!(assert_edition_is_programmable(&[0x04, 0x05]), Ok(()));
}

#[test]
fn middle_bytes_are_ignored() {
    assert_eq!(
        assert_edition_is_programmable(&[0x04, 0xFF, 0xFF, 0x04]),
        Ok(())
    );
    assert_eq!(
        assert_edition_is_programmable(&[0x04, 0xFF, 0xFF, 0x00]),
        Err(TokenMetadataError::InvalidTokenStandard)
    );
}
