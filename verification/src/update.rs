//! Deciding whether a newer release exists, and checking a downloaded
//! installer before it is run.

use vstd::prelude::*;
use vstd::string::*;

verus! {

/// Where a file of a release is, and what it hashes to.
#[derive(Debug, PartialEq, Eq)]
pub struct DownloadInfo {
    pub url: String,
    /// SHA-256 of the file, in hexadecimal.
    pub sha256: String,
}

/// What the release feed says about the latest release.
#[derive(Debug, PartialEq, Eq)]
pub struct LatestInfo {
    pub version: String,
    pub pub_date: String,
    pub notes: String,
    pub bootstrapper: DownloadInfo,
    pub release: DownloadInfo,
}

/// The answer to an update check.
#[derive(Debug, PartialEq, Eq)]
pub struct UpdateCheckResult {
    pub should_update: bool,
    pub current_version: String,
    pub latest_version: String,
    pub info: LatestInfo,
}

impl Clone for DownloadInfo {
    fn clone(&self) -> (copy: DownloadInfo)
        ensures
            copy == *self,
    {
        DownloadInfo { url: self.url.clone(), sha256: self.sha256.clone() }
    }
}

impl Clone for LatestInfo {
    fn clone(&self) -> (copy: LatestInfo)
        ensures
            copy == *self,
    {
        LatestInfo {
            version: self.version.clone(),
            pub_date: self.pub_date.clone(),
            notes: self.notes.clone(),
            bootstrapper: self.bootstrapper.clone(),
            release: self.release.clone(),
        }
    }
}

impl Clone for UpdateCheckResult {
    fn clone(&self) -> (copy: UpdateCheckResult)
        ensures
            copy == *self,
    {
        UpdateCheckResult {
            should_update: self.should_update,
            current_version: self.current_version.clone(),
            latest_version: self.latest_version.clone(),
            info: self.info.clone(),
        }
    }
}

// ---------------------------------------------------------------------------
// Versions
// ---------------------------------------------------------------------------
/// `semver::Version`, opaque to the verifier.
#[verifier::external_type_specification]
#[verifier::external_body]
pub struct ExVersion(semver::Version);

/// `semver::Error`, opaque to the verifier.
#[verifier::external_type_specification]
#[verifier::external_body]
pub struct ExVersionError(semver::Error);

/// The version that `semver::Version::parse` reads from `text`; `None` where
/// it rejects the text.
pub uninterp spec fn semver_parse(text: Seq<char>) -> Option<semver::Version>;

/// Whether `left` is greater than `right` in the total order of
/// `semver::Version`.
pub uninterp spec fn semver_greater(left: semver::Version, right: semver::Version) -> bool;

/// Calls `semver::Version::parse`. Assumed: what it returns depends on the
/// text alone.
#[verifier::external_body]
fn parse_version(text: &str) -> (parsed: Result<semver::Version, semver::Error>)
    ensures
        match parsed {
            Ok(version) => semver_parse(text@) == Some(version),
            Err(_) => semver_parse(text@) is None,
        },
{
    semver::Version::parse(text)
}

/// Compares two versions with `>`, the order `semver::Version` implements.
/// Assumed: the answer depends on the two versions alone.
#[verifier::external_body]
fn version_greater(left: &semver::Version, right: &semver::Version) -> (greater: bool)
    ensures
        greater == semver_greater(*left, *right),
{
    left > right
}

/// Why an update check or an update did not go through.
#[derive(Debug)]
pub enum UpdateError {
    /// The version of the running program is not a semantic version.
    CurrentVersion(semver::Error),
    /// The release feed could not be fetched or decoded.
    FetchFailed,
    /// The version in the release feed is not a semantic version.
    LatestVersion(semver::Error),
    /// The downloaded installer does not hash to the expected value.
    HashMismatch { expected: String, actual: String },
}

/// Whether the release feed offers something newer: the versions the two
/// texts parse to, compared. `None` where either text is no version.
pub open spec fn newer_available(current_version: Seq<char>, latest_version: Seq<char>) -> Option<
    bool,
> {
    match (semver_parse(current_version), semver_parse(latest_version)) {
        (Some(current), Some(latest)) => Some(semver_greater(latest, current)),
        _ => None,
    }
}

/// Whether `text` is a semantic version.
pub fn is_version(text: &str) -> (valid: bool)
    ensures
        valid == semver_parse(text@) is Some,
{
    parse_version(text).is_ok()
}

/// Whether `latest_version` is a newer version than `current_version`. The
/// current version is read first: where both texts are rejected, the error
/// is that of the current version.
pub fn is_update_available(current_version: &str, latest_version: &str) -> (newer: Result<
    bool,
    UpdateError,
>)
    ensures
        match newer {
            Ok(newer) => newer_available(current_version@, latest_version@) == Some(newer),
            Err(UpdateError::CurrentVersion(_)) => semver_parse(current_version@) is None,
            Err(UpdateError::LatestVersion(_)) => semver_parse(current_version@) is Some
                && semver_parse(latest_version@) is None,
            Err(_) => false,
        },
{
    let current = match parse_version(current_version) {
        Ok(version) => version,
        Err(error) => {
            return Err(UpdateError::CurrentVersion(error));
        },
    };
    let latest = match parse_version(latest_version) {
        Ok(version) => version,
        Err(error) => {
            return Err(UpdateError::LatestVersion(error));
        },
    };
    Ok(version_greater(&latest, &current))
}

/// Puts the answer to an update check together.
pub fn update_check_result(current_version: String, info: LatestInfo, should_update: bool) -> (result:
    UpdateCheckResult)
    ensures
        result.should_update == should_update,
        result.current_version == current_version,
        result.latest_version == info.version,
        result.info == info,
{
    UpdateCheckResult {
        should_update,
        current_version,
        latest_version: info.version.clone(),
        info,
    }
}

// ---------------------------------------------------------------------------
// The check, one at a time, with its cache
// ---------------------------------------------------------------------------
/// The update check of the application: lets one check run at a time and
/// remembers the last answer.
pub struct UpdateCheck {
    running: bool,
    cache: Option<UpdateCheckResult>,
}

/// What the contracts see of an [`UpdateCheck`].
pub struct UpdateCheckView {
    pub running: bool,
    pub cache: Option<UpdateCheckResult>,
}

impl View for UpdateCheck {
    type V = UpdateCheckView;

    closed spec fn view(&self) -> UpdateCheckView {
        UpdateCheckView { running: self.running, cache: self.cache }
    }
}

/// How an update check begins.
#[derive(Debug, PartialEq, Eq)]
pub enum UpdateCheckStart {
    /// Another check is in progress; this one is refused.
    Busy,
    /// The remembered answer; the check is over.
    Cached(UpdateCheckResult),
    /// The release feed has to be fetched; the check goes on with
    /// [`get_update_check_result`], or is given up with
    /// [`UpdateCheck::abandon`].
    Fetch,
}

impl UpdateCheck {
    /// No check running, nothing remembered.
    pub fn new() -> (check: UpdateCheck)
        ensures
            check@ == (UpdateCheckView { running: false, cache: None }),
    {
        UpdateCheck { running: false, cache: None }
    }

    /// Whether a check is in progress.
    pub fn is_running(&self) -> (running: bool)
        ensures
            running == self@.running,
    {
        self.running
    }

    /// Begins a check. A check that finds another in progress is refused. One
    /// that may use the remembered answer, and finds one, ends with it.
    /// Otherwise the check is marked as running and the feed is asked for.
    pub fn begin(&mut self, force_refresh: bool) -> (start: UpdateCheckStart)
        ensures
            final(self)@.cache == old(self)@.cache,
            old(self)@.running ==> start is Busy && final(self)@.running,
            !old(self)@.running && !force_refresh && old(self)@.cache is Some ==> start
                == UpdateCheckStart::Cached(old(self)@.cache->Some_0) && !final(self)@.running,
            !old(self)@.running && (force_refresh || old(self)@.cache is None) ==> start is Fetch
                && final(self)@.running,
    {
        if self.running {
            return UpdateCheckStart::Busy;
        }
        if !force_refresh {
            match &self.cache {
                Some(cached) => {
                    return UpdateCheckStart::Cached(cached.clone());
                },
                None => {},
            }
        }
        self.running = true;
        UpdateCheckStart::Fetch
    }

    /// Gives up a check that was begun and will not be ended, so that the
    /// next one can begin. The remembered answer stays. On a check that is
    /// not running this changes nothing.
    pub fn abandon(&mut self)
        ensures
            !final(self)@.running,
            final(self)@.cache == old(self)@.cache,
    {
        self.running = false;
    }
}

/// Ends a check that had to fetch the feed. `fetched` is what the feed
/// said, `None` when it could not be fetched or decoded.
///
/// The answer is remembered when there is one. Whatever the outcome, no
/// check is running afterwards.
pub fn get_update_check_result(
    check: &mut UpdateCheck,
    current_version: String,
    fetched: Option<LatestInfo>,
) -> (outcome: Result<UpdateCheckResult, UpdateError>)
    ensures
        !final(check)@.running,
        match outcome {
            Ok(result) => {
                &&& fetched matches Some(info)
                &&& newer_available(current_version@, info.version@) == Some(
                    result.should_update,
                )
                &&& result.current_version == current_version
                &&& result.latest_version == info.version
                &&& result.info == info
                &&& final(check)@.cache == Some(result)
            },
            Err(error) => {
                &&& final(check)@.cache == old(check)@.cache
                &&& match error {
                    UpdateError::CurrentVersion(_) => semver_parse(current_version@) is None,
                    UpdateError::FetchFailed => semver_parse(current_version@) is Some
                        && fetched is None,
                    UpdateError::LatestVersion(_) => {
                        &&& semver_parse(current_version@) is Some
                        &&& fetched matches Some(info)
                        &&& semver_parse(info.version@) is None
                    },
                    _ => false,
                }
            },
        },
{
    check.running = false;
    let current = match parse_version(current_version.as_str()) {
        Ok(version) => version,
        Err(error) => {
            return Err(UpdateError::CurrentVersion(error));
        },
    };
    let info = match fetched {
        Some(info) => info,
        None => {
            return Err(UpdateError::FetchFailed);
        },
    };
    let latest = match parse_version(info.version.as_str()) {
        Ok(version) => version,
        Err(error) => {
            return Err(UpdateError::LatestVersion(error));
        },
    };
    let should_update = version_greater(&latest, &current);
    let result = update_check_result(current_version, info, should_update);
    check.cache = Some(result.clone());
    Ok(result)
}

// ---------------------------------------------------------------------------
// The installer's hash
// ---------------------------------------------------------------------------
/// The SHA-256 digest of `data`, as `sha2::Sha256` computes it.
pub uninterp spec fn sha256(data: Seq<u8>) -> Seq<u8>;

/// What `str::to_lowercase` makes of `text`.
pub uninterp spec fn lowercase(text: Seq<char>) -> Seq<char>;

/// Calls `digest::Digest::digest` for `sha2::Sha256`, which hashes the data
/// in one go, and copies the digest out. Assumed: the digest depends on the
/// data alone and is 32 bytes long.
#[verifier::external_body]
fn sha256_digest(data: &[u8]) -> (digest: Vec<u8>)
    ensures
        digest@ == sha256(data@),
        digest@.len() == 32,
{
    <sha2::Sha256 as sha2::Digest>::digest(data).to_vec()
}

/// Calls `str::to_lowercase`. Assumed: the result depends on the text alone.
#[verifier::external_body]
fn to_lowercase(text: &str) -> (lower: String)
    ensures
        lower@ == lowercase(text@),
{
    text.to_lowercase()
}

/// The hexadecimal digit for a value below sixteen, in lower case.
pub open spec fn hex_digit(value: int) -> char {
    if value == 0 {
        '0'
    } else if value == 1 {
        '1'
    } else if value == 2 {
        '2'
    } else if value == 3 {
        '3'
    } else if value == 4 {
        '4'
    } else if value == 5 {
        '5'
    } else if value == 6 {
        '6'
    } else if value == 7 {
        '7'
    } else if value == 8 {
        '8'
    } else if value == 9 {
        '9'
    } else if value == 10 {
        'a'
    } else if value == 11 {
        'b'
    } else if value == 12 {
        'c'
    } else if value == 13 {
        'd'
    } else if value == 14 {
        'e'
    } else {
        'f'
    }
}

/// The bytes written out in hexadecimal, two lower-case digits each.
pub open spec fn hex_lower(bytes: Seq<u8>) -> Seq<char>
    decreases bytes.len(),
{
    if bytes.len() == 0 {
        Seq::empty()
    } else {
        hex_lower(bytes.drop_last()).push(hex_digit(bytes.last() as int / 16)).push(
            hex_digit(bytes.last() as int % 16),
        )
    }
}

fn hex_digit_str(value: u8) -> (digit: &'static str)
    requires
        value < 16,
    ensures
        digit@ == seq![hex_digit(value as int)],
{
    proof {
        reveal_strlit("0");
        reveal_strlit("1");
        reveal_strlit("2");
        reveal_strlit("3");
        reveal_strlit("4");
        reveal_strlit("5");
        reveal_strlit("6");
        reveal_strlit("7");
        reveal_strlit("8");
        reveal_strlit("9");
        reveal_strlit("a");
        reveal_strlit("b");
        reveal_strlit("c");
        reveal_strlit("d");
        reveal_strlit("e");
        reveal_strlit("f");
    }
    let digit = if value == 0 {
        "0"
    } else if value == 1 {
        "1"
    } else if value == 2 {
        "2"
    } else if value == 3 {
        "3"
    } else if value == 4 {
        "4"
    } else if value == 5 {
        "5"
    } else if value == 6 {
        "6"
    } else if value == 7 {
        "7"
    } else if value == 8 {
        "8"
    } else if value == 9 {
        "9"
    } else if value == 10 {
        "a"
    } else if value == 11 {
        "b"
    } else if value == 12 {
        "c"
    } else if value == 13 {
        "d"
    } else if value == 14 {
        "e"
    } else {
        "f"
    };
    assert(digit@ =~= seq![hex_digit(value as int)]);
    digit
}

/// Writes bytes out in hexadecimal, lower case.
pub fn to_hex_lower(bytes: &Vec<u8>) -> (text: String)
    ensures
        text@ == hex_lower(bytes@),
{
    let mut text = String::new();
    let mut i: usize = 0;
    while i < bytes.len()
        invariant
            i <= bytes.len(),
            text@ == hex_lower(bytes@.subrange(0, i as int)),
        decreases bytes.len() - i,
    {
        let byte = bytes[i];
        proof {
            let next = bytes@.subrange(0, i + 1);
            assert(next.drop_last() == bytes@.subrange(0, i as int));
            assert(next.last() == byte);
        }
        text.append(hex_digit_str(byte / 16));
        text.append(hex_digit_str(byte % 16));
        i += 1;
    }
    assert(bytes@.subrange(0, bytes@.len() as int) == bytes@);
    text
}

/// The SHA-256 of `data` in hexadecimal, lower case.
pub fn calculate_sha256(data: &[u8]) -> (hash: String)
    ensures
        hash@ == hex_lower(sha256(data@)),
        hash@.len() == 64,
{
    let digest = sha256_digest(data);
    proof {
        lemma_hex_length(digest@);
    }
    to_hex_lower(&digest)
}

/// Two hexadecimal digits per byte.
pub proof fn lemma_hex_length(bytes: Seq<u8>)
    ensures
        hex_lower(bytes).len() == 2 * bytes.len(),
    decreases bytes.len(),
{
    if bytes.len() > 0 {
        lemma_hex_length(bytes.drop_last());
    }
}

/// Holds the hash a file has against the hash it should have, already put
/// in lower case. `expected` is the hash as the release feed wrote it; the
/// error carries it.
pub fn compare_hash(actual: String, expected: &str, expected_lower: &str) -> (checked: Result<
    (),
    UpdateError,
>)
    ensures
        checked is Ok <==> actual@ == expected_lower@,
        checked matches Err(error) ==> error matches UpdateError::HashMismatch {
            expected: reported,
            actual: found,
        } && reported@ == expected@ && found == actual,
{
    let expected_lower = expected_lower.to_owned();
    if actual == expected_lower {
        Ok(())
    } else {
        Err(UpdateError::HashMismatch { expected: expected.to_owned(), actual })
    }
}

/// Checks a downloaded installer: its SHA-256, in hexadecimal, must equal
/// the expected hash put in lower case.
pub fn verify_bootstrapper(data: &[u8], expected_sha256: &str) -> (checked: Result<
    (),
    UpdateError,
>)
    ensures
        checked is Ok <==> hex_lower(sha256(data@)) == lowercase(expected_sha256@),
        checked matches Err(error) ==> error matches UpdateError::HashMismatch {
            expected: reported,
            actual: found,
        } && reported@ == expected_sha256@ && found@ == hex_lower(sha256(data@)),
{
    let actual = calculate_sha256(data);
    let expected_lower = to_lowercase(expected_sha256);
    compare_hash(actual, expected_sha256, expected_lower.as_str())
}

/// The arguments the installer is started with: where the running program
/// is, where the release is, and what the release hashes to.
pub fn bootstrapper_args(original_path: &str, info: &LatestInfo) -> (args: Vec<String>)
    ensures
        args@.len() == 6,
        args@[0]@ == "--original-path"@,
        args@[1]@ == original_path@,
        args@[2]@ == "--update-url"@,
        args@[3] == info.release.url,
        args@[4]@ == "--update-sha256"@,
        args@[5] == info.release.sha256,
{
    let mut args: Vec<String> = Vec::new();
    args.push("--original-path".to_owned());
    args.push(original_path.to_owned());
    args.push("--update-url".to_owned());
    args.push(info.release.url.clone());
    args.push("--update-sha256".to_owned());
    args.push(info.release.sha256.clone());
    args
}

} // verus!
