use sfml::{IntoSfResult, SfError};

#[test]
fn a_failed_call_is_reported() {
    assert_eq!(false.into_sf_result(), Err(SfError::CallFailed));
    assert_eq!(true.into_sf_result(), Ok(()));
}

#[test]
fn a_missing_resource_is_a_failed_load() {
    let missing: Option<u8> = None;
    assert_eq!(missing.into_sf_result(), Err(SfError::LoadFailed));
    assert_eq!(Some(7u8).into_sf_result(), Ok(7));
}

#[test]
fn each_error_describes_itself() {
    assert_eq!(SfError::NulInStr.message(), "Interior nul byte in string passed to SFML");
    assert_eq!(SfError::CallFailed.message(), "Call to SFML function returned an error");
    assert_eq!(SfError::LoadFailed.message(), "SFML could not load or create the resource");
}

#[test]
fn a_string_with_a_nul_character_is_refused() {
    assert_eq!(sfml::check_no_nul("font.ttf"), Ok(()));
    assert_eq!(sfml::check_no_nul(""), Ok(()));
    assert_eq!(sfml::check_no_nul("font\0.ttf"), Err(SfError::NulInStr));
    assert_eq!(sfml::check_no_nul("\0"), Err(SfError::NulInStr));
    assert_eq!(sfml::check_no_nul("font.ttf\0"), Err(SfError::NulInStr));
}
