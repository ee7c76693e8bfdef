use std::time::SystemTime;

use refimage::{ColorSpace, DynamicImageOwned, GenericImageOwned, ImageOwned};

use gencam_client::dialog::DialogType;
use gencam_client::errors::GcError;
use gencam_client::fetch::FetchClient;
use gencam_client::gui::GenCamGUI;

/// A well-formed envelope holding a 4x4 single-channel raster, serialized
/// and zero-padded to the fixed receive-buffer size.
fn padded_envelope_buffer() -> Vec<u8> {
    let pixels: Vec<u8> = (0u8..16).map(|v| v * 16).collect();
    let raster = ImageOwned::from_owned(pixels, 4, 4, ColorSpace::Gray)
        .expect("4x4 grayscale raster");
    let image = DynamicImageOwned::U8(raster);
    let envelope = GenericImageOwned::new(SystemTime::UNIX_EPOCH, image);
    let json = serde_json::to_string(&envelope).expect("envelope serializes");
    let mut buffer = json.into_bytes();
    assert!(buffer.len() < 4096);
    buffer.resize(4096, 0);
    buffer
}

#[test]
fn fetch_before_connect_is_not_connected() {
    let mut client = FetchClient::default();
    let r = client.complete_fetch(&padded_envelope_buffer());
    assert_eq!(r, Err(GcError::NotConnectedError));
    assert!(client.encoded_data().is_none());
    assert!(!client.is_connected());
}

#[test]
fn request_before_connect_is_not_connected() {
    let client = FetchClient::default();
    assert_eq!(client.fetch_command(), Err(GcError::NotConnectedError));
}

#[test]
fn connect_then_request_yields_command() {
    let mut client = FetchClient::default();
    assert_eq!(client.complete_connect(true), Ok(()));
    assert!(client.is_connected());
    assert_eq!(client.fetch_command(), Ok("SEND IMAGE TEST"));
}

#[test]
fn failed_connect_reports_connection_error() {
    let mut client = FetchClient::default();
    assert_eq!(client.complete_connect(false), Err(GcError::ConnectionError));
    assert!(!client.is_connected());
}

#[test]
fn well_formed_envelope_produces_png() {
    let mut client = FetchClient::default();
    client.complete_connect(true).unwrap();
    let r = client.complete_fetch(&padded_envelope_buffer());
    assert_eq!(r, Ok(()));
    let png = client.encoded_data().clone().expect("a frame was installed");
    let decoded = image::load_from_memory(&png).expect("output is a valid PNG stream");
    assert_eq!(decoded.width(), 4);
    assert_eq!(decoded.height(), 4);
}

#[test]
fn short_document_survives_trimming() {
    // The envelope ends well before the buffer's physical end; trimming the
    // padding must leave a document that still decodes.
    let buffer = padded_envelope_buffer();
    assert_eq!(buffer.len(), 4096);
    assert_ne!(*buffer.last().unwrap(), b'}');
    let mut client = FetchClient::default();
    client.complete_connect(true).unwrap();
    assert_eq!(client.complete_fetch(&buffer), Ok(()));
}

#[test]
fn invalid_json_fails_and_leaves_data_unchanged() {
    let mut client = FetchClient::default();
    client.complete_connect(true).unwrap();
    client.complete_fetch(&padded_envelope_buffer()).unwrap();
    let good = client.encoded_data().clone().expect("first fetch succeeded");

    let mut bad = b"\x7f not even utf8 \xff".to_vec();
    bad.resize(4096, 0);
    let r = client.complete_fetch(&bad);
    assert_eq!(r, Err(GcError::ProtocolError));
    assert_eq!(client.encoded_data().as_ref(), Some(&good));
}

#[test]
fn repeated_fetches_are_byte_identical() {
    let buffer = padded_envelope_buffer();
    let mut client = FetchClient::default();
    client.complete_connect(true).unwrap();

    client.complete_fetch(&buffer).unwrap();
    let first = client.encoded_data().clone().unwrap();
    client.complete_fetch(&buffer).unwrap();
    let second = client.encoded_data().clone().unwrap();
    assert_eq!(first, second);
}

#[test]
fn undisplayable_raster_is_format_conversion_error() {
    // A grayscale float raster deserializes but has no displayable PNG
    // form, so the fetch must fail with the conversion error and leave
    // the data slot untouched.
    let pixels: Vec<f32> = vec![0.5f32; 16];
    let raster = ImageOwned::from_owned(pixels, 4, 4, ColorSpace::Gray)
        .expect("4x4 float raster");
    let image = DynamicImageOwned::F32(raster);
    let envelope = GenericImageOwned::new(SystemTime::UNIX_EPOCH, image);
    let json = serde_json::to_string(&envelope).expect("envelope serializes");
    let mut buffer = json.into_bytes();
    buffer.resize(4096, 0);

    let mut client = FetchClient::default();
    client.complete_connect(true).unwrap();
    assert_eq!(client.complete_fetch(&buffer), Err(GcError::FormatConversionError));
    assert!(client.encoded_data().is_none());
}

#[test]
fn gui_surfaces_fetch_errors_as_error_dialog() {
    let mut gui = GenCamGUI::default();
    let r = gui.receive_test_image(&padded_envelope_buffer());
    assert_eq!(r, Err(GcError::NotConnectedError));
    assert!(gui.modal_active());
    assert_eq!(gui.dialog_title(), "ERROR");
    assert_eq!(gui.dialog_message(), "Not connected to the camera server.");
    assert!(gui.encoded_data().is_none());
}

#[test]
fn gui_surfaces_connect_failure_as_error_dialog() {
    let mut gui = GenCamGUI::default();
    let r = gui.connect_to_server(false);
    assert_eq!(r, Err(GcError::ConnectionError));
    assert!(gui.modal_active());
    assert_eq!(gui.dialog_title(), "ERROR");
    assert_eq!(gui.dialog_message(), "Could not connect to the camera server.");
}

#[test]
fn gui_full_fetch_path() {
    let mut gui = GenCamGUI::default();
    assert_eq!(gui.connect_to_server(true), Ok(()));
    assert!(gui.is_connected());
    assert!(!gui.modal_active());
    assert_eq!(gui.request_image(), Ok("SEND IMAGE TEST"));
    assert_eq!(gui.receive_test_image(&padded_envelope_buffer()), Ok(()));
    assert!(!gui.modal_active());
    assert_eq!(gui.uri(), "image/png");
    let png = gui.encoded_data().clone().unwrap();
    let decoded = image::load_from_memory(&png).unwrap();
    assert_eq!((decoded.width(), decoded.height()), (4, 4));
    assert_eq!(gui.dialog_title(), DialogType::Debug.as_str());
}

#[test]
fn request_and_render_dialog_touch_only_the_dialog() {
    let mut gui = GenCamGUI::default();
    gui.connect_to_server(true).unwrap();
    gui.receive_test_image(&padded_envelope_buffer()).unwrap();
    let png = gui.encoded_data().clone().unwrap();

    let accepted = gui.request_dialog(DialogType::Warn, "sensor warming up");
    assert!(accepted);
    assert!(gui.modal_active());
    assert_eq!(gui.dialog_title(), "WARN");
    assert_eq!(gui.dialog_message(), "sensor warming up");
    assert!(gui.is_connected());
    assert_eq!(gui.encoded_data().as_ref(), Some(&png));
    assert_eq!(gui.uri(), "image/png");

    gui.render_dialog(false);
    assert!(gui.modal_active());
    gui.render_dialog(true);
    assert!(!gui.modal_active());
    assert!(gui.is_connected());
    assert_eq!(gui.encoded_data().as_ref(), Some(&png));
}

#[test]
fn gui_update_modal_gates_frames() {
    let mut gui = GenCamGUI::default();
    gui.update_modal(false);
    assert!(!gui.modal_active());
    let _ = gui.connect_to_server(false);
    assert!(gui.modal_active());
    gui.update_modal(false);
    assert!(gui.modal_active());
    gui.update_modal(true);
    assert!(!gui.modal_active());
}
