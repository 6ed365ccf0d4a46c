use mini_health_check::roots::build_root_store;

/// A DER-encoded root certificate (Amazon Root CA 3), well-formed, so a
/// trust anchor can be derived from it.
const VALID_ROOT_DER: [u8; 442] = [
    48, 130, 1, 182, 48, 130, 1, 91, 160, 3, 2, 1, 2, 2, 19, 6,
    108, 159, 213, 116, 151, 54, 102, 63, 59, 11, 154, 217, 232, 158, 118, 3,
    242, 74, 48, 10, 6, 8, 42, 134, 72, 206, 61, 4, 3, 2, 48, 57,
    49, 11, 48, 9, 6, 3, 85, 4, 6, 19, 2, 85, 83, 49, 15, 48,
    13, 6, 3, 85, 4, 10, 19, 6, 65, 109, 97, 122, 111, 110, 49, 25,
    48, 23, 6, 3, 85, 4, 3, 19, 16, 65, 109, 97, 122, 111, 110, 32,
    82, 111, 111, 116, 32, 67, 65, 32, 51, 48, 30, 23, 13, 49, 53, 48,
    53, 50, 54, 48, 48, 48, 48, 48, 48, 90, 23, 13, 52, 48, 48, 53,
    50, 54, 48, 48, 48, 48, 48, 48, 90, 48, 57, 49, 11, 48, 9, 6,
    3, 85, 4, 6, 19, 2, 85, 83, 49, 15, 48, 13, 6, 3, 85, 4,
    10, 19, 6, 65, 109, 97, 122, 111, 110, 49, 25, 48, 23, 6, 3, 85,
    4, 3, 19, 16, 65, 109, 97, 122, 111, 110, 32, 82, 111, 111, 116, 32,
    67, 65, 32, 51, 48, 89, 48, 19, 6, 7, 42, 134, 72, 206, 61, 2,
    1, 6, 8, 42, 134, 72, 206, 61, 3, 1, 7, 3, 66, 0, 4, 41,
    151, 167, 198, 65, 127, 192, 13, 155, 232, 1, 27, 86, 198, 242, 82, 165,
    186, 45, 178, 18, 232, 210, 46, 215, 250, 201, 197, 216, 170, 109, 31, 115,
    129, 59, 59, 152, 107, 57, 124, 51, 165, 197, 78, 134, 142, 128, 23, 104,
    98, 69, 87, 125, 68, 88, 29, 179, 55, 229, 103, 8, 235, 102, 222, 163,
    66, 48, 64, 48, 15, 6, 3, 85, 29, 19, 1, 1, 255, 4, 5, 48,
    3, 1, 1, 255, 48, 14, 6, 3, 85, 29, 15, 1, 1, 255, 4, 4,
    3, 2, 1, 134, 48, 29, 6, 3, 85, 29, 14, 4, 22, 4, 20, 171,
    182, 219, 215, 6, 158, 55, 172, 48, 134, 7, 145, 112, 199, 156, 196, 25,
    177, 120, 192, 48, 10, 6, 8, 42, 134, 72, 206, 61, 4, 3, 2, 3,
    73, 0, 48, 70, 2, 33, 0, 224, 133, 146, 163, 23, 183, 141, 249, 43,
    6, 165, 147, 172, 26, 152, 104, 97, 114, 250, 225, 161, 208, 251, 28, 120,
    96, 166, 67, 153, 197, 184, 196, 2, 33, 0, 156, 2, 239, 241, 148, 156,
    179, 150, 249, 235, 198, 42, 248, 182, 44, 254, 58, 144, 20, 22, 215, 140,
    99, 36, 72, 28, 223, 48, 125, 213, 104, 59,
];

#[test]
fn empty_input_gives_empty_store() {
    let store = build_root_store(&vec![]);
    assert_eq!(store.len(), 0);
}

#[test]
fn malformed_entry_is_skipped_not_fatal() {
    // Native stores often hold entries that do not parse; building the
    // store must skip them rather than fail.
    let store = build_root_store(&vec![vec![0u8, 1, 2, 3], vec![]]);
    assert_eq!(store.len(), 0);
}

#[test]
fn parsable_entry_becomes_an_anchor() {
    let store = build_root_store(&vec![VALID_ROOT_DER.to_vec()]);
    assert_eq!(store.len(), 1);
}

#[test]
fn mixed_entries_keep_only_the_parsable() {
    let store = build_root_store(&vec![
        vec![1u8, 2, 3],
        VALID_ROOT_DER.to_vec(),
        vec![],
        VALID_ROOT_DER.to_vec(),
    ]);
    assert_eq!(store.len(), 2);
}
