use marketplace_core::errors::NFTError;
use marketplace_core::metadata::check_creator_shares;

#[test]
fn shares_must_add_up_to_one_hundred() {
    assert_eq!(check_creator_shares(&vec![100]), Ok(()));
    assert_eq!(check_creator_shares(&vec![50, 50]), Ok(()));
    assert_eq!(check_creator_shares(&vec![0, 33, 33, 34, 0]), Ok(()));
    assert_eq!(check_creator_shares(&vec![]), Err(NFTError::InvalidMetadata));
    assert_eq!(check_creator_shares(&vec![99]), Err(NFTError::InvalidMetadata));
    assert_eq!(check_creator_shares(&vec![50, 51]), Err(NFTError::InvalidMetadata));
    assert_eq!(check_creator_shares(&vec![101]), Err(NFTError::InvalidMetadata));
}

#[test]
fn shares_are_summed_without_wrapping() {
    assert_eq!(check_creator_shares(&vec![200, 156]), Err(NFTError::InvalidMetadata));
    assert_eq!(check_creator_shares(&vec![255, 101]), Err(NFTError::InvalidMetadata));
    assert_eq!(check_creator_shares(&vec![255, 255, 102]), Err(NFTError::InvalidMetadata));
    assert_eq!(check_creator_shares(&vec![100, 255, 1]), Err(NFTError::InvalidMetadata));
    let many = vec![255u8; 1_000];
    assert_eq!(check_creator_shares(&many), Err(NFTError::InvalidMetadata));
}
