use build_info::{
    commit_date_arguments, describe_arguments, get_commit_date, get_commit_describe, get_version,
    SOURCE_CONTROL,
};

fn succeeded(bytes: &[u8]) -> Option<(bool, Vec<u8>)> {
    Some((true, bytes.to_vec()))
}

fn failed(bytes: &[u8]) -> Option<(bool, Vec<u8>)> {
    Some((false, bytes.to_vec()))
}

#[test]
fn program_and_arguments() {
    assert_eq!(SOURCE_CONTROL, "git");
    assert_eq!(describe_arguments(), vec!["describe", "--dirty=dev"]);
    assert_eq!(
        commit_date_arguments(),
        vec!["log", "-1", "--date=short", "--pretty=format:%cd"]
    );
}

#[test]
fn no_run_gives_no_text() {
    assert_eq!(get_commit_describe(None), None);
    assert_eq!(get_commit_date(None), None);
}

#[test]
fn failed_run_without_output_gives_no_text() {
    assert_eq!(get_commit_describe(failed(b"")), None);
    assert_eq!(get_commit_date(failed(b"")), None);
}

#[test]
fn failed_run_with_output_gives_no_text() {
    assert_eq!(get_commit_describe(failed(b"v0.1.0\n")), None);
    assert_eq!(get_commit_date(failed(b"2019-07-21\n")), None);
    assert_eq!(get_commit_describe(failed(&[0xFF])), None);
    assert_eq!(get_commit_date(failed(&[0xFF])), None);
}

#[test]
fn output_is_kept_untrimmed() {
    assert_eq!(
        get_commit_describe(succeeded(b"v0.1.0-5-g1234567dev\n")),
        Some("v0.1.0-5-g1234567dev\n".to_string())
    );
    assert_eq!(
        get_commit_date(succeeded(b"2019-07-21")),
        Some("2019-07-21".to_string())
    );
}

#[test]
fn empty_output_is_empty_text() {
    assert_eq!(get_commit_describe(succeeded(b"")), Some(String::new()));
    assert_eq!(get_commit_date(succeeded(b"")), Some(String::new()));
    assert_eq!(get_commit_describe(failed(b"")), None);
    assert_eq!(get_commit_date(failed(b"")), None);
}

#[test]
fn output_is_decoded_as_utf8() {
    let bytes = [0xC3, 0xA9, 0x74, 0xC3, 0xA9, 0x20, 0xE2, 0x82, 0xAC, 0xF0, 0x9F, 0x99, 0x82];
    assert_eq!(get_commit_describe(succeeded(&bytes)), Some("été €🙂".to_string()));
    assert_eq!(get_commit_date(succeeded(&bytes)), Some("été €🙂".to_string()));
}

#[test]
fn output_that_is_not_utf8_gives_no_text() {
    for bytes in [
        vec![0xFF],
        vec![0x61, 0x80],
        vec![0xC3],
        vec![0xC0, 0xAF],
        vec![0xED, 0xA0, 0x80],
        vec![0xF4, 0x90, 0x80, 0x80],
        vec![0x76, 0x31, 0xE2, 0x82],
    ] {
        assert_eq!(get_commit_describe(succeeded(&bytes)), None, "{:?}", bytes);
        assert_eq!(get_commit_date(succeeded(&bytes)), None, "{:?}", bytes);
    }
}

#[test]
fn commit_texts_reach_the_long_form() {
    let describe = get_commit_describe(succeeded(b"v0.1.0-5-g1234567dev\n"));
    let date = get_commit_date(succeeded(b"2019-07-21\n"));
    let vi = get_version("0", "1", "0", None, describe.as_deref(), date.as_deref()).unwrap();
    assert_eq!(vi.long(), "0.1.0 (v0.1.0-5-g1234567dev 2019-07-21)");
}

#[test]
fn version_outside_a_checkout_has_the_short_form_only() {
    let describe = get_commit_describe(failed(b""));
    let date = get_commit_date(failed(b""));
    let vi = get_version("0", "1", "0", None, describe.as_deref(), date.as_deref()).unwrap();
    assert_eq!(vi.commit_describe, None);
    assert_eq!(vi.commit_date, None);
    assert_eq!(vi.long(), "0.1.0");
}
