use hartlab_protocol::{check_capacity, check_session_request, ElfError, SessionRefusal, MAX_CONCURRENT};

#[test]
fn default_target_with_example() {
    let r = check_session_request(None, &Some("blinky-rust".to_string()), None);
    assert_eq!(r, Ok("polarfire".to_string()));
}

#[test]
fn explicit_target_is_checked() {
    let r = check_session_request(Some("polarfire".to_string()), &Some("x".to_string()), None);
    assert_eq!(r, Ok("polarfire".to_string()));
    let r = check_session_request(Some("icicle".to_string()), &Some("x".to_string()), None);
    assert_eq!(r, Err(SessionRefusal::UnknownTarget));
    assert_eq!(SessionRefusal::UnknownTarget.status(), 400);
    assert_eq!(SessionRefusal::UnknownTarget.message(), "only target=polarfire is implemented");
}

#[test]
fn needs_example_or_elf() {
    let r = check_session_request(None, &None, None);
    assert_eq!(r, Err(SessionRefusal::MissingPayload));
    assert_eq!(SessionRefusal::MissingPayload.message(), "provide example or elf_b64");
}

#[test]
fn bad_base64_is_refused() {
    let r = check_session_request(None, &None, Some("not*base64"));
    assert_eq!(r, Err(SessionRefusal::BadBase64));
    assert_eq!(SessionRefusal::BadBase64.message(), "elf_b64 is not valid base64");
}

#[test]
fn elf_is_validated() {
    // "f0VMRg==" is the ELF magic alone: too short to hold a header
    let r = check_session_request(None, &Some("x".to_string()), Some("f0VMRg=="));
    assert_eq!(r, Err(SessionRefusal::BadElf(ElfError::Truncated)));
    // an empty upload
    let r = check_session_request(None, &None, Some(""));
    assert_eq!(r, Err(SessionRefusal::BadElf(ElfError::Empty)));
    assert_eq!(SessionRefusal::BadElf(ElfError::Empty).message(), "file is empty");
    assert_eq!(SessionRefusal::BadElf(ElfError::Empty).status(), 400);
}

#[test]
fn capacity_is_capped_and_count_untouched() {
    assert_eq!(MAX_CONCURRENT, 4);
    assert_eq!(check_capacity(0), Ok(()));
    assert_eq!(check_capacity(3), Ok(()));
    assert_eq!(check_capacity(4), Err(SessionRefusal::LabFull));
    assert_eq!(check_capacity(usize::MAX), Err(SessionRefusal::LabFull));
    assert_eq!(SessionRefusal::LabFull.status(), 503);
    assert_eq!(SessionRefusal::LabFull.message(), "lab is full");
}
