use sso_signal::address::{
    derive_config_address, derive_provider_address, derive_signal_address, PROGRAM_ID,
};

#[test]
fn config_address_is_the_derived_one() {
    let (address, bump) = derive_config_address().unwrap();
    assert_eq!(
        address,
        [
            106, 154, 199, 236, 246, 34, 28, 232, 57, 82, 135, 246, 238, 7, 52, 65, 139, 105, 173,
            38, 97, 140, 14, 60, 211, 38, 223, 208, 22, 216, 212, 194
        ]
    );
    assert_eq!(bump, 255);
    assert_ne!(address, PROGRAM_ID);
}

#[test]
fn provider_address_depends_on_authority() {
    let (address, bump) = derive_provider_address(&[1u8; 32]).unwrap();
    assert_eq!(
        address,
        [
            53, 88, 125, 6, 92, 8, 122, 45, 62, 240, 194, 51, 70, 123, 8, 137, 193, 84, 138, 218,
            234, 190, 160, 98, 84, 120, 92, 1, 88, 91, 217, 77
        ]
    );
    assert_eq!(bump, 255);
    assert_ne!(derive_provider_address(&[2u8; 32]).unwrap().0, address);
}

#[test]
fn signal_address_is_the_derived_one() {
    let (address, bump) = derive_signal_address(&[1u8; 32], &[2u8; 32]).unwrap();
    assert_eq!(
        address,
        [
            169, 62, 147, 162, 47, 245, 51, 237, 74, 23, 95, 129, 1, 201, 47, 155, 198, 14, 221,
            125, 186, 10, 137, 135, 25, 204, 59, 255, 100, 49, 173, 148
        ]
    );
    assert_eq!(bump, 255);
    assert_eq!(derive_signal_address(&[1u8; 32], &[2u8; 32]), Some((address, bump)));
}
