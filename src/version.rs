//! Classification of the running operating system into the releases that the
//! resolution rules distinguish.

use vstd::prelude::*;

use crate::cell::{installed, installed_all, lemma_install_converges, OnceWord};
use crate::error::{error_code, error_from_code, UserCallError};

verus! {

/// The operating-system releases that still have the dispatch table, oldest first.
#[derive(Clone, Copy, Debug, PartialEq, Eq, Structural, Hash, PartialOrd, Ord)]
pub enum OsVersion {
    Win7,
    Win8,
    Win81,
    Win10,
}

/// The part of the operating system's version report that classification reads.
#[derive(Clone, Copy, Debug, PartialEq, Eq, Structural)]
pub struct OsVersionInfo {
    pub major_version: u32,
    pub minor_version: u32,
    pub build_number: u32,
}

/// The first build of major version 10 in which the dispatch table is gone and every
/// entry point is a dedicated syscall.
pub const DEDICATED_SYSCALLS_BUILD: u32 = 20292;

/// The classification of a version report.
pub open spec fn classify(info: OsVersionInfo) -> Result<OsVersion, UserCallError> {
    let (major, minor, build) = (info.major_version, info.minor_version, info.build_number);
    if major < 6 {
        Err(UserCallError::OsNotSupported)
    } else if major == 6 && minor == 1 {
        Ok(OsVersion::Win7)
    } else if major == 6 && minor == 2 {
        Ok(OsVersion::Win8)
    } else if major == 6 && minor == 3 {
        Ok(OsVersion::Win81)
    } else if major == 10 && minor == 0 && build < DEDICATED_SYSCALLS_BUILD {
        Ok(OsVersion::Win10)
    } else if major > 10 || (major == 10 && minor == 0) {
        Err(UserCallError::OsTooNew)
    } else {
        Err(UserCallError::OsNotSupported)
    }
}

/// Whether a classification says that every entry point is a dedicated syscall.
pub open spec fn dedicated_syscalls(version: Result<OsVersion, UserCallError>) -> bool {
    version == Err::<OsVersion, UserCallError>(UserCallError::OsTooNew)
}

/// Classifies a version report.
pub fn map_os_version_info(info: OsVersionInfo) -> (r: Result<OsVersion, UserCallError>)
    ensures
        r == classify(info),
{
    if info.major_version < 6 {
        Err(UserCallError::OsNotSupported)
    } else if info.major_version == 6 && info.minor_version == 1 {
        Ok(OsVersion::Win7)
    } else if info.major_version == 6 && info.minor_version == 2 {
        Ok(OsVersion::Win8)
    } else if info.major_version == 6 && info.minor_version == 3 {
        Ok(OsVersion::Win81)
    } else if info.major_version == 10 && info.minor_version == 0 && info.build_number
        < DEDICATED_SYSCALLS_BUILD {
        Ok(OsVersion::Win10)
    } else if info.major_version > 10 || (info.major_version == 10 && info.minor_version == 0) {
        Err(UserCallError::OsTooNew)
    } else {
        Err(UserCallError::OsNotSupported)
    }
}

/// Whether the classification `version` means that every entry point is reached as a
/// dedicated export, so that the dispatch table is never consulted.
pub fn has_dedicated_syscalls(version: Result<OsVersion, UserCallError>) -> (r: bool)
    ensures
        r == dedicated_syscalls(version),
{
    match version {
        Err(UserCallError::OsTooNew) => true,
        _ => false,
    }
}

/// The word that records a classification in a version cell: an error's own code, or
/// a value above every error code for a release.
pub open spec fn version_word(version: Result<OsVersion, UserCallError>) -> usize {
    match version {
        Err(e) => error_code(e),
        Ok(OsVersion::Win7) => 5,
        Ok(OsVersion::Win8) => 6,
        Ok(OsVersion::Win81) => 7,
        Ok(OsVersion::Win10) => 8,
    }
}

/// What a version cell's word records; `None` while it is empty.
pub open spec fn version_state(word: usize) -> Option<Result<OsVersion, UserCallError>> {
    if word == 5 {
        Some(Ok(OsVersion::Win7))
    } else if word == 6 {
        Some(Ok(OsVersion::Win8))
    } else if word == 7 {
        Some(Ok(OsVersion::Win81))
    } else if word == 8 {
        Some(Ok(OsVersion::Win10))
    } else {
        match error_from_code(word) {
            Ok(e) => Some(Err(e)),
            Err(_) => None,
        }
    }
}

/// Every classification is recorded in a nonzero word and reads back as itself.
pub proof fn lemma_version_word_round_trip(version: Result<OsVersion, UserCallError>)
    ensures
        version_state(version_word(version)) == Some(version),
        version_word(version) != 0,
{
    if let Err(e) = version {
        crate::error::lemma_error_code_round_trip(e, 0);
    }
}

/// Records a classification as a word.
pub fn encode_version(version: Result<OsVersion, UserCallError>) -> (word: usize)
    ensures
        word == version_word(version),
        word != 0,
{
    match version {
        Err(e) => e.code(),
        Ok(OsVersion::Win7) => 5,
        Ok(OsVersion::Win8) => 6,
        Ok(OsVersion::Win81) => 7,
        Ok(OsVersion::Win10) => 8,
    }
}

/// Reads a version cell's word.
pub fn decode_version(word: usize) -> (r: Option<Result<OsVersion, UserCallError>>)
    ensures
        r == version_state(word),
{
    if word == 5 {
        Some(Ok(OsVersion::Win7))
    } else if word == 6 {
        Some(Ok(OsVersion::Win8))
    } else if word == 7 {
        Some(Ok(OsVersion::Win81))
    } else if word == 8 {
        Some(Ok(OsVersion::Win10))
    } else {
        match UserCallError::try_from(word) {
            Ok(e) => Some(Err(e)),
            Err(_) => None,
        }
    }
}

/// The classification that a caller acts on once its compare-and-set is over: the one
/// recorded in the cell's word, or the caller's own classification when the word
/// records none.
pub fn adopt_version(word: usize, own: Result<OsVersion, UserCallError>) -> (r: Result<
    OsVersion,
    UserCallError,
>)
    ensures
        r == adopt_spec(word, own),
{
    match decode_version(word) {
        Some(v) => v,
        None => own,
    }
}

/// The classification is probed at most once: once a report has been classified into
/// an empty cell, the cell records that classification, and every later caller adopts
/// it, whatever classifications they install afterwards.
pub proof fn lemma_version_idempotent(info: OsVersionInfo, later: Seq<OsVersionInfo>)
    ensures
        ({
            let words = later.map_values(|l: OsVersionInfo| version_word(classify(l)));
            let first = installed(0, version_word(classify(info)));
            &&& version_state(installed_all(first, words)) == Some(classify(info))
            &&& forall|i: int|
                0 <= i < later.len() ==> #[trigger] adopt_spec(
                    installed(installed_all(first, words.take(i)), words[i]),
                    classify(later[i]),
                ) == classify(info)
        }),
{
    let words = later.map_values(|l: OsVersionInfo| version_word(classify(l)));
    let first = installed(0, version_word(classify(info)));
    lemma_version_word_round_trip(classify(info));
    assert forall|i: int| 0 <= i < words.len() implies words[i] != 0 by {
        lemma_version_word_round_trip(classify(later[i]));
    }
    lemma_install_converges(first, words);
}

/// Racing first callers converge: when callers classify reports into an empty cell one
/// compare-and-set after another, every one of them returns the classification of the
/// first report installed, and the cell keeps recording it.
pub proof fn lemma_racing_classifiers_agree(infos: Seq<OsVersionInfo>)
    requires
        infos.len() > 0,
    ensures
        ({
            let words = infos.map_values(|l: OsVersionInfo| version_word(classify(l)));
            &&& version_state(installed_all(0, words)) == Some(classify(infos[0]))
            &&& forall|i: int|
                0 <= i < infos.len() ==> #[trigger] adopt_spec(
                    installed(installed_all(0, words.take(i)), words[i]),
                    classify(infos[i]),
                ) == classify(infos[0])
        }),
{
    let words = infos.map_values(|l: OsVersionInfo| version_word(classify(l)));
    assert forall|i: int| 0 <= i < words.len() implies words[i] != 0 by {
        lemma_version_word_round_trip(classify(infos[i]));
    }
    lemma_version_word_round_trip(classify(infos[0]));
    lemma_install_converges(0, words);
    assert forall|i: int| 0 <= i < infos.len() implies #[trigger] adopt_spec(
        installed(installed_all(0, words.take(i)), words[i]),
        classify(infos[i]),
    ) == classify(infos[0]) by {
        if i == 0 {
            assert(words.take(0).len() == 0);
            assert(installed_all(0, words.take(0)) == 0);
        }
    }
}

/// The classification adopted from a word, as `adopt_version` computes it.
pub open spec fn adopt_spec(word: usize, own: Result<OsVersion, UserCallError>) -> Result<
    OsVersion,
    UserCallError,
> {
    match version_state(word) {
        Some(v) => v,
        None => own,
    }
}

/// The process's classification, computed at most once and shared by every thread.
pub struct VersionCell {
    word: OnceWord,
}

impl VersionCell {
    /// A cell that holds no classification yet.
    pub fn new() -> (r: Self) {
        VersionCell { word: OnceWord::new() }
    }

    /// The recorded classification, if there is one. The word is read once and
    /// decoded by `decode_version`; which word another thread has installed is not
    /// known here, so this contract states nothing of the result.
    pub fn get(&self) -> (r: Option<Result<OsVersion, UserCallError>>) {
        decode_version(self.word.load())
    }

    /// Classifies `info` and records the result unless a classification is already
    /// there; returns the classification that the cell holds afterwards, as
    /// `adopt_version` reads it from the installed word. That word may come from
    /// another thread, so this contract states only what is handed to the
    /// compare-and-set: the classification of `info`.
    pub fn classify_once(&self, info: OsVersionInfo) -> (r: Result<OsVersion, UserCallError>) {
        let version = map_os_version_info(info);
        let word: usize = self.word.install(encode_version(version));
        adopt_version(word, version)
    }
}

/// Records `os_version` as the process's classification if none is recorded yet.
/// Returns `Ok` when this call recorded it, and otherwise hands `os_version` back.
pub fn set_os_version(cell: &VersionCell, os_version: Result<OsVersion, UserCallError>) -> (r: Result<
    (),
    Result<OsVersion, UserCallError>,
>)
    ensures
        r is Err ==> r->Err_0 == os_version,
{
    match cell.word.try_install(encode_version(os_version)) {
        Ok(()) => Ok(()),
        Err(_) => Err(os_version),
    }
}

/// Records the classification of `version_info` as the process's classification if
/// none is recorded yet. Returns `Ok` when this call recorded it, and otherwise hands
/// the classification back.
pub fn set_os_version_info(cell: &VersionCell, version_info: OsVersionInfo) -> (r: Result<
    (),
    Result<OsVersion, UserCallError>,
>)
    ensures
        r is Err ==> r->Err_0 == classify(version_info),
{
    set_os_version(cell, map_os_version_info(version_info))
}

} // verus!
