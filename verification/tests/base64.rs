use taurin::base64::{Base64Mode, Base64State, Conversion, ImageDecodeReply, ImageEncodeReply, TextReply};

fn reply(ok: bool, out: &str, utf8: bool, err: Option<&str>) -> TextReply {
    TextReply { success: ok, output: out.to_string(), is_valid_utf8: utf8, error: err.map(|e| e.to_string()) }
}

#[test]
fn blank_input_converts_nothing() {
    let mut s = Base64State::new();
    s.input = "  \n\t".to_string();
    assert!(s.convert().is_none());
    assert!(!s.is_processing);
    s.input = "hi".to_string();
    match s.convert() {
        Some(Conversion::Encode { input, url_safe }) => {
            assert_eq!(input, "hi");
            assert!(!url_safe);
        }
        _ => panic!("expected an encoding"),
    }
    assert!(s.is_processing);
}

#[test]
fn answers_and_swap() {
    let mut s = Base64State::new();
    s.input = "hi".to_string();
    s.convert();
    s.on_encoded(Some(reply(true, "aGk=", true, None)));
    s.on_done();
    assert_eq!(s.output, "aGk=");
    s.swap();
    assert_eq!(s.mode, Base64Mode::Decode);
    assert_eq!(s.input, "aGk=");
    assert!(s.output.is_empty());
    s.swap();
    assert_eq!(s.mode, Base64Mode::Decode);
    s.on_decoded(Some(reply(true, "\u{fffd}", false, None)));
    assert!(s.is_binary);
    s.on_decoded(Some(reply(false, "", true, Some("bad input"))));
    assert_eq!(s.error, Some("bad input".to_string()));
    s.on_image_decoded(Some(ImageDecodeReply { success: true, mime_type: None, size_bytes: 0, preview_data_url: None, error: None }));
    assert!(s.decoded_image_preview.is_none());
    s.change_mode(Base64Mode::Encode);
    assert!(s.input.is_empty() && s.output.is_empty() && s.error.is_none() && !s.is_binary);
    assert_eq!(Base64Mode::Decode.input_title_key(), "base64_encoder.base64_input");
    assert_eq!(Base64Mode::Image.placeholder_key(), None);
}

#[test]
fn images() {
    let mut s = Base64State::new();
    s.start_image();
    assert_eq!(s.mode, Base64Mode::Image);
    s.on_image_encoded(Ok(ImageEncodeReply {
        success: false,
        output: String::new(),
        mime_type: String::new(),
        data_url: String::new(),
        size_bytes: 0,
        error: None,
    }));
    assert_eq!(s.error, Some("Encoding failed".to_string()));
    assert!(!s.is_processing);
    s.on_image_encoded(Ok(ImageEncodeReply {
        success: true,
        output: "AAAA".to_string(),
        mime_type: "image/png".to_string(),
        data_url: "data:image/png;base64,AAAA".to_string(),
        size_bytes: 3,
        error: None,
    }));
    assert_eq!(s.image_info, Some(("image/png".to_string(), 3)));
    assert_eq!(s.copy_data_url(), Some("data:image/png;base64,AAAA".to_string()));
    s.on_image_encoded(Err("Failed to parse result: x".to_string()));
    assert_eq!(s.error, Some("Failed to parse result: x".to_string()));
    s.swap();
    assert_eq!(s.mode, Base64Mode::Image);
    s.input = "   ".to_string();
    assert!(s.convert().is_none());
    s.input = "x".to_string();
    assert!(matches!(s.convert(), Some(Conversion::Idle)));
}
