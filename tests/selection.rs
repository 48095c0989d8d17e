use pot::clipboard::{get_selected_text, AccessError, ClipboardFault};
use pot::StringWrapper;

#[test]
fn text_is_returned() {
    assert_eq!(get_selected_text(Ok("hello".to_string())), Ok("hello".to_string()));
}

#[test]
fn empty_text_is_an_error() {
    assert_eq!(get_selected_text(Ok(String::new())), Err(AccessError::NoText));
}

#[test]
fn faults_map_to_access_errors() {
    assert_eq!(get_selected_text(Err(ClipboardFault::ContentNotAvailable)), Err(AccessError::NoText));
    assert_eq!(get_selected_text(Err(ClipboardFault::ConversionFailure)), Err(AccessError::NoText));
    assert_eq!(
        get_selected_text(Err(ClipboardFault::ClipboardNotSupported)),
        Err(AccessError::Unavailable)
    );
    assert_eq!(
        get_selected_text(Err(ClipboardFault::ClipboardOccupied)),
        Err(AccessError::Unavailable)
    );
    assert_eq!(
        get_selected_text(Err(ClipboardFault::Unknown("boom".to_string()))),
        Err(AccessError::Unavailable)
    );
}

#[test]
fn string_wrapper_starts_empty() {
    assert_eq!(StringWrapper::new().0, "");
}
