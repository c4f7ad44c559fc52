use build_info::{get_channel, CHANNEL_VARIABLE};

#[test]
fn channel_unset_is_nightly() {
    assert_eq!(get_channel(None), Some("nightly".to_string()));
}

#[test]
fn channel_set_is_kept() {
    assert_eq!(get_channel(Some("beta".to_string())), Some("beta".to_string()));
    assert_eq!(get_channel(Some("stable".to_string())), Some("stable".to_string()));
}

#[test]
fn channel_set_is_kept_as_it_is() {
    assert_eq!(get_channel(Some(String::new())), Some(String::new()));
    assert_eq!(get_channel(Some(" Nightly\n".to_string())), Some(" Nightly\n".to_string()));
}

#[test]
fn channel_variable_name() {
    assert_eq!(CHANNEL_VARIABLE, "CFG_RELEASE_CHANNEL");
}
