//! Record-header shape tests.

use spl_name_service::pubkey::Pubkey;
use spl_name_service::state::NameRecordHeader;
use spl_name_service::state::NAME_RECORD_HEADER_LEN;

#[test]
fn header_layout_is_ninety_six_bytes() {
    assert_eq!(NAME_RECORD_HEADER_LEN, 96);
}

#[test]
fn header_holds_three_identities() {
    let header = NameRecordHeader {
        parent_name: Pubkey::default(),
        owner: Pubkey::new([1; 32]),
        class: Pubkey::default(),
    };
    assert_eq!(header.parent_name, Pubkey::new([0; 32]));
    assert_eq!(header.owner.bytes, [1; 32]);
    let same = NameRecordHeader {
        parent_name: Pubkey::default(),
        owner: Pubkey::new([1; 32]),
        class: Pubkey::default(),
    };
    assert_eq!(header, same);
}
