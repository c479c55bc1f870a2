use user_call::cell::{
    adopt_slot, adopt_target, decode_slot, decode_target, encode_slot, encode_target, winning_word, OnceWord, Resolution,
    SENTINEL_LIMIT, SLOT_MISSING_WORD,
};
use user_call::error::UserCallError;

const ALL: [UserCallError; 4] = [
    UserCallError::OsNotSupported,
    UserCallError::OsTooNew,
    UserCallError::CallNotFound,
    UserCallError::LibraryNotFound,
];

#[test]
fn cached_errors_read_back_as_the_same_kind() {
    for e in ALL {
        let word = encode_target(Resolution::Failed(e));
        assert!(word != 0 && word < SENTINEL_LIMIT);
        assert_eq!(decode_target(word), Resolution::Failed(e));
    }
}

#[test]
fn addresses_read_back_as_addresses() {
    assert_eq!(SENTINEL_LIMIT, 0xFFFF);
    for a in [SENTINEL_LIMIT, 0x7FF8_1234_5000usize, usize::MAX] {
        assert_eq!(encode_target(Resolution::Address(a)), a);
        assert_eq!(decode_target(a), Resolution::Address(a));
    }
}

#[test]
fn small_words_are_never_addresses() {
    assert_eq!(decode_target(0), Resolution::Unresolved);
    assert_eq!(decode_target(5), Resolution::Unresolved);
    assert_eq!(decode_target(SENTINEL_LIMIT - 1), Resolution::Unresolved);
}

#[test]
fn slot_words_round_trip() {
    for s in [0u16, 1, 0x1234, u16::MAX] {
        let word = encode_slot(Resolution::Slot(s));
        assert_eq!(word, s as usize + 1);
        assert_eq!(decode_slot(word), Resolution::Slot(s));
    }
    let missing = encode_slot(Resolution::Failed(UserCallError::CallNotFound));
    assert_eq!(missing, SLOT_MISSING_WORD);
    assert_eq!(decode_slot(missing), Resolution::Failed(UserCallError::CallNotFound));
    assert_eq!(decode_slot(0), Resolution::Unresolved);
    assert_eq!(decode_slot(0x1_0002), Resolution::Unresolved);
}

#[test]
fn winning_word_is_the_candidate_or_the_earlier_word() {
    assert_eq!(winning_word(Ok(0), 7), 7);
    assert_eq!(winning_word(Err(3), 7), 3);
}

#[test]
fn once_word_keeps_its_first_install() {
    let cell = OnceWord::new();
    assert_eq!(cell.load(), 0);
    assert_eq!(cell.install(0x10_0000), 0x10_0000);
    assert_eq!(cell.install(3), 0x10_0000);
    assert_eq!(cell.try_install(4), Err(0x10_0000));
    assert_eq!(cell.load(), 0x10_0000);
}

#[test]
fn try_install_reports_the_first_writer() {
    let cell = OnceWord::new();
    assert_eq!(cell.try_install(2), Ok(()));
    assert_eq!(cell.try_install(2), Err(2));
    assert_eq!(cell.load(), 2);
}

#[test]
fn racing_installs_converge_on_the_first() {
    let cell = OnceWord::new();
    let candidates = [0x20_0000usize, 0x30_0000, 1, 4, 0x20_0000];
    let results: Vec<usize> = candidates.iter().map(|c| cell.install(*c)).collect();
    assert!(results.iter().all(|r| *r == 0x20_0000));
    assert_eq!(cell.load(), 0x20_0000);
}

#[test]
fn adopt_target_prefers_the_installed_word() {
    let own = Resolution::Address(0x7000_0000);
    assert_eq!(adopt_target(3, own), Resolution::Failed(UserCallError::CallNotFound));
    assert_eq!(adopt_target(0x9000_0000, own), Resolution::Address(0x9000_0000));
    assert_eq!(adopt_target(0, own), own);
    assert_eq!(adopt_target(7, own), own);
}

#[test]
fn adopt_slot_prefers_the_installed_word() {
    let own = Resolution::Slot(4);
    assert_eq!(adopt_slot(10, own), Resolution::Slot(9));
    assert_eq!(
        adopt_slot(SLOT_MISSING_WORD, own),
        Resolution::Failed(UserCallError::CallNotFound)
    );
    assert_eq!(adopt_slot(0, own), own);
}
