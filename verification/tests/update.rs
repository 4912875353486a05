use loa_assist::update::{
    bootstrapper_args, calculate_sha256, compare_hash, get_update_check_result,
    is_update_available, is_version,
    to_hex_lower,
    update_check_result, verify_bootstrapper, DownloadInfo, LatestInfo, UpdateCheckStart,
    UpdateCheck, UpdateError,
};

const SHA256_OF_ABC: &str = "ba7816bf8f01cfea414140de5dae2223b00361a396177a9cb410ff61f20015ad";
const SHA256_OF_NOTHING: &str = "e3b0c44298fc1c149afbf4c8996fb92427ae41e4649b934ca495991b7852b855";

fn info(version: &str) -> LatestInfo {
    LatestInfo {
        version: version.to_string(),
        pub_date: "2025-03-01T00:00:00Z".to_string(),
        notes: "fixes".to_string(),
        bootstrapper: DownloadInfo {
            url: "https://example.invalid/bootstrapper.exe".to_string(),
            sha256: SHA256_OF_ABC.to_uppercase(),
        },
        release: DownloadInfo {
            url: "https://example.invalid/release.zip".to_string(),
            sha256: SHA256_OF_NOTHING.to_string(),
        },
    }
}

#[test]
fn newer_versions_are_recognised() {
    assert!(matches!(is_update_available("1.0.0", "1.0.1"), Ok(true)));
    assert!(matches!(is_update_available("1.5.0", "1.19.0"), Ok(true)));
    assert!(matches!(is_update_available("1.19.0", "1.5.0"), Ok(false)));
    assert!(matches!(is_update_available("2.0.0", "2.0.0"), Ok(false)));
    assert!(matches!(is_update_available("1.0.0-alpha", "1.0.0"), Ok(true)));
    assert!(matches!(is_update_available("1.0.0", "1.0.0-rc.1"), Ok(false)));
    assert!(matches!(is_update_available("1.0.0-pre.8", "1.0.0-pre.12"), Ok(true)));
    assert!(matches!(is_update_available("0.9.9", "10.0.0"), Ok(true)));
}

#[test]
fn versions_are_told_from_other_texts() {
    assert!(is_version("0.0.0"));
    assert!(is_version("1.2.3-beta.1+build.5"));
    assert!(!is_version("1.2"));
    assert!(!is_version("1.2.3 "));
    assert!(!is_version("01.2.3"));
    assert!(!is_version(""));
}

#[test]
fn texts_that_are_no_versions_are_rejected() {
    assert!(matches!(is_update_available("1.0", "1.0.1"), Err(UpdateError::CurrentVersion(_))));
    assert!(matches!(is_update_available("", "1.0.1"), Err(UpdateError::CurrentVersion(_))));
    assert!(matches!(is_update_available("1.0.0", "v2"), Err(UpdateError::LatestVersion(_))));
    assert!(matches!(is_update_available("1.0.0", "1.0.01"), Err(UpdateError::LatestVersion(_))));
    assert!(matches!(is_update_available("x", "y"), Err(UpdateError::CurrentVersion(_))));
}

#[test]
fn result_is_put_together_from_its_parts() {
    let result = update_check_result("1.2.3".to_string(), info("1.3.0"), true);
    assert!(result.should_update);
    assert_eq!(result.current_version, "1.2.3");
    assert_eq!(result.latest_version, "1.3.0");
    assert_eq!(result.info, info("1.3.0"));
    assert_eq!(result.clone(), result);
}

#[test]
fn check_fetches_then_remembers() {
    let mut check = UpdateCheck::new();
    assert!(!check.is_running());
    assert_eq!(check.begin(false), UpdateCheckStart::Fetch);
    assert!(check.is_running());
    // A second check meanwhile is refused.
    assert_eq!(check.begin(false), UpdateCheckStart::Busy);
    assert_eq!(check.begin(true), UpdateCheckStart::Busy);
    assert!(check.is_running());
    let result = get_update_check_result(&mut check, "1.2.3".to_string(), Some(info("1.3.0"))).unwrap();
    assert!(result.should_update);
    assert_eq!(result.latest_version, "1.3.0");
    assert!(!check.is_running());
    // The next check is answered from memory.
    assert_eq!(check.begin(false), UpdateCheckStart::Cached(result.clone()));
    assert!(!check.is_running());
    // Unless a refresh is forced.
    assert_eq!(check.begin(true), UpdateCheckStart::Fetch);
    let fresh = get_update_check_result(&mut check, "1.3.0".to_string(), Some(info("1.3.0"))).unwrap();
    assert!(!fresh.should_update);
    assert_eq!(check.begin(false), UpdateCheckStart::Cached(fresh));
}

#[test]
fn failed_check_ends_the_check_and_keeps_the_memory() {
    let mut check = UpdateCheck::new();
    assert_eq!(check.begin(false), UpdateCheckStart::Fetch);
    let outcome = get_update_check_result(&mut check, "1.2.3".to_string(), None);
    assert!(matches!(outcome, Err(UpdateError::FetchFailed)));
    assert!(!check.is_running());
    assert_eq!(check.begin(false), UpdateCheckStart::Fetch);
    let outcome = get_update_check_result(&mut check, "one".to_string(), None);
    assert!(matches!(outcome, Err(UpdateError::CurrentVersion(_))));
    assert_eq!(check.begin(false), UpdateCheckStart::Fetch);
    let outcome = get_update_check_result(&mut check, "1.2.3".to_string(), Some(info("latest")));
    assert!(matches!(outcome, Err(UpdateError::LatestVersion(_))));
    assert!(!check.is_running());
    assert_eq!(check.begin(false), UpdateCheckStart::Fetch);
    let good = get_update_check_result(&mut check, "1.2.3".to_string(), Some(info("1.2.4"))).unwrap();
    assert_eq!(check.begin(true), UpdateCheckStart::Fetch);
    let outcome = get_update_check_result(&mut check, "1.2.3".to_string(), None);
    assert!(outcome.is_err());
    assert_eq!(check.begin(false), UpdateCheckStart::Cached(good));
}

#[test]
fn abandoned_check_lets_the_next_one_begin() {
    let mut check = UpdateCheck::new();
    assert_eq!(check.begin(false), UpdateCheckStart::Fetch);
    let good = get_update_check_result(&mut check, "1.2.3".to_string(), Some(info("1.2.4"))).unwrap();
    assert_eq!(check.begin(true), UpdateCheckStart::Fetch);
    assert_eq!(check.begin(true), UpdateCheckStart::Busy);
    check.abandon();
    assert!(!check.is_running());
    assert_eq!(check.begin(false), UpdateCheckStart::Cached(good));
    check.abandon();
    assert!(!check.is_running());
    assert_eq!(check.begin(true), UpdateCheckStart::Fetch);
}

#[test]
fn sha256_matches_the_known_vectors() {
    assert_eq!(calculate_sha256(b"abc"), SHA256_OF_ABC);
    assert_eq!(calculate_sha256(b""), SHA256_OF_NOTHING);
    assert_eq!(calculate_sha256(b"abc").len(), 64);
}

#[test]
fn hex_is_lower_case_two_digits_per_byte() {
    assert_eq!(to_hex_lower(&vec![0x00, 0x0a, 0x14, 0x1e, 0xff, 0x9c]), "000a141eff9c");
    assert_eq!(to_hex_lower(&Vec::new()), "");
    let all: Vec<u8> = (0..=255).collect();
    let expected: String = all.iter().map(|b| format!("{:02x}", b)).collect();
    assert_eq!(to_hex_lower(&all), expected);
}

#[test]
fn bootstrapper_hash_is_compared_in_lower_case() {
    assert!(verify_bootstrapper(b"abc", SHA256_OF_ABC).is_ok());
    assert!(verify_bootstrapper(b"abc", &SHA256_OF_ABC.to_uppercase()).is_ok());
    let checked = verify_bootstrapper(b"abd", &SHA256_OF_ABC.to_uppercase());
    match checked {
        Err(UpdateError::HashMismatch { expected, actual }) => {
            assert_eq!(expected, SHA256_OF_ABC.to_uppercase());
            assert_eq!(actual, calculate_sha256(b"abd"));
            assert_ne!(actual, SHA256_OF_ABC);
        }
        other => panic!("hash check gave {:?}", other),
    }
}

#[test]
fn compare_hash_is_exact() {
    assert!(compare_hash("ab12".to_string(), "AB12", "ab12").is_ok());
    // The caller lowers the case; an upper-case hash handed in as it is
    // does not match.
    assert!(matches!(
        compare_hash("ab12".to_string(), "AB12", "AB12"),
        Err(UpdateError::HashMismatch { .. })
    ));
}

#[test]
fn bootstrapper_is_started_with_six_arguments() {
    let args = bootstrapper_args(r"C:\Program Files\LoaAssist\loaassist.exe", &info("1.3.0"));
    assert_eq!(
        args,
        vec![
            "--original-path".to_string(),
            r"C:\Program Files\LoaAssist\loaassist.exe".to_string(),
            "--update-url".to_string(),
            "https://example.invalid/release.zip".to_string(),
            "--update-sha256".to_string(),
            SHA256_OF_NOTHING.to_string(),
        ]
    );
}
