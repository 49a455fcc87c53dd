use version_swap::fsmodel::FsNode;
use version_swap::integrity::{verify_copy, CopyFailure};
use version_swap::swap::{CopyOutcome, SwapEngine};

fn file(name: &str) -> FsNode {
    FsNode::File { name: name.to_string() }
}

#[test]
fn write_tests() {
    // A smoke test of the whole copy path: a tiny payload, every copy clean.
    let payload = vec![file("SkyrimSE.exe"), file("steam_api64.dll")];
    let mut engine = SwapEngine::new(&payload);
    let mut copied: Vec<Vec<String>> = Vec::new();
    while !engine.finished() {
        let path = engine.current();
        copied.push(path.segments.clone());
        let bytes = b"payload bytes".to_vec();
        let outcome = CopyOutcome::Copied { origin: bytes.clone(), dest: bytes };
        assert!(engine.record(outcome).is_ok());
    }
    assert_eq!(
        copied,
        vec![vec!["SkyrimSE.exe".to_string()], vec!["steam_api64.dll".to_string()]]
    );
}

#[test]
fn check_file_copy() {
    let bytes = b"123456789".to_vec();
    let same = verify_copy(&bytes, &bytes.clone());
    // 0xCBF43926 is the well-known CRC-32 check value for "123456789".
    assert_eq!(same, Ok(0xCBF43926));

    let altered = b"123456780".to_vec();
    let bad = verify_copy(&bytes, &altered);
    assert_eq!(
        bad,
        Err(CopyFailure::Mismatch {
            origin_crc: crc32fast::hash(b"123456789"),
            dest_crc: crc32fast::hash(b"123456780"),
        })
    );
}

#[test]
fn copy_checksums_match_crc32fast() {
    let origin = b"some payload data".to_vec();
    let dest = origin.clone();
    assert_eq!(verify_copy(&origin, &dest), Ok(crc32fast::hash(&origin)));
}

#[test]
fn empty_file_copy_verifies() {
    let empty: Vec<u8> = Vec::new();
    assert_eq!(verify_copy(&empty, &empty.clone()), Ok(crc32fast::hash(b"")));
}

#[test]
fn mismatch_aborts_swap() {
    let payload = vec![file("a.esm"), file("b.esm")];
    let mut engine = SwapEngine::new(&payload);
    assert!(!engine.finished());
    let outcome = CopyOutcome::Copied { origin: b"abc".to_vec(), dest: b"abd".to_vec() };
    let err = engine.record(outcome).unwrap_err();
    assert_eq!(err.path.segments, vec!["a.esm".to_string()]);
    assert_eq!(
        err.failure,
        CopyFailure::Mismatch {
            origin_crc: crc32fast::hash(b"abc"),
            dest_crc: crc32fast::hash(b"abd"),
        }
    );
    assert!(engine.finished());
}

#[test]
fn write_failure_aborts_swap() {
    let payload = vec![file("a.esm")];
    let mut engine = SwapEngine::new(&payload);
    let err = engine.record(CopyOutcome::WriteFailed).unwrap_err();
    assert_eq!(err.failure, CopyFailure::Write);
    assert_eq!(err.path.segments, vec!["a.esm".to_string()]);
    assert!(engine.finished());
}

#[test]
fn read_back_failure_aborts_swap() {
    let payload = vec![file("a.esm")];
    let mut engine = SwapEngine::new(&payload);
    let err = engine.record(CopyOutcome::ReadBackFailed).unwrap_err();
    assert_eq!(err.failure, CopyFailure::ReadBack);
    assert!(engine.finished());
}

#[test]
fn excluded_payload_files_are_never_copied() {
    let payload = vec![file("steam.acf"), file("good.esm"), file(".DS_Store")];
    let mut engine = SwapEngine::new(&payload);
    let path = engine.current();
    assert_eq!(path.segments, vec!["good.esm".to_string()]);
    let bytes = b"data".to_vec();
    assert!(engine.record(CopyOutcome::Copied { origin: bytes.clone(), dest: bytes }).is_ok());
    assert!(engine.finished());
}

#[test]
fn fail_fast_keeps_earlier_copies_and_attempts_nothing_later() {
    // The third of four files fails to read mid-run; the first two stay
    // copied, the fourth is never offered.
    let payload = vec![file("a.esm"), file("b.esm"), file("SkyrimSE.exe"), file("z.esm")];
    let mut engine = SwapEngine::new(&payload);

    let mut attempted: Vec<Vec<String>> = Vec::new();
    for _step in 0..2 {
        let path = engine.current();
        attempted.push(path.segments.clone());
        let bytes = b"ok".to_vec();
        let outcome = CopyOutcome::Copied { origin: bytes.clone(), dest: bytes };
        assert!(engine.record(outcome).is_ok());
    }

    // The source vanished between resolution and copy.
    let path = engine.current();
    attempted.push(path.segments.clone());
    let err = engine.record(CopyOutcome::ReadOriginFailed).unwrap_err();
    assert_eq!(err.path.segments, vec!["SkyrimSE.exe".to_string()]);
    assert_eq!(err.failure, CopyFailure::ReadOrigin);

    assert!(engine.finished());
    assert_eq!(
        attempted,
        vec![
            vec!["a.esm".to_string()],
            vec!["b.esm".to_string()],
            vec!["SkyrimSE.exe".to_string()],
        ]
    );
}
