use taurin::image::{
    filter_option_class, mode_button_class, output_formats, CompressorState, EditMode, EditRequest,
    EditResult, EditorState, ImageFilter, ImageInfo, RotationAngle,
};

fn info(w: u32, h: u32) -> ImageInfo {
    ImageInfo { width: w, height: h, format: "png".to_string(), file_size: 1 }
}

#[test]
fn chosen_image_sets_the_sizes() {
    let mut s = EditorState::new();
    assert!(s.apply().is_none());
    s.choose_image("/tmp/a.png".to_string());
    s.on_info(info(1920, 1080));
    assert_eq!((s.resize_width, s.resize_height), (1920, 1080));
    assert_eq!((s.crop_width, s.crop_height), (400, 300));
    s.on_info(info(100, 50));
    assert_eq!((s.crop_width, s.crop_height), (100, 50));
}

#[test]
fn apply_uses_the_current_mode() {
    let mut s = EditorState::new();
    s.choose_image("/tmp/a.png".to_string());
    assert_eq!(s.apply(), Some(EditRequest::Resize { width: 800, height: 600, maintain_aspect: true }));
    assert!(s.is_processing);
    s.on_result(None);
    assert!(!s.is_processing);
    s.edit_mode = EditMode::Crop;
    s.set_crop(0, "10");
    s.set_crop(3, "x");
    assert_eq!(s.apply(), Some(EditRequest::Crop { x: 10, y: 0, width: 400, height: 300 }));
    s.edit_mode = EditMode::Brightness;
    s.set_brightness("-40");
    assert_eq!(s.apply(), Some(EditRequest::Brightness { value: -40 }));
    s.edit_mode = EditMode::Contrast;
    assert_eq!(s.apply(), Some(EditRequest::Contrast));
    s.edit_mode = EditMode::Rotate;
    s.rotation_angle = RotationAngle::Rotate270;
    assert_eq!(s.apply(), Some(EditRequest::Rotate { angle: RotationAngle::Rotate270 }));
    s.on_result(Some(EditResult {
        success: true,
        output_path: "/tmp/b.png".to_string(),
        original_size: 1,
        new_size: 1,
        new_width: 1,
        new_height: 1,
        error: None,
    }));
    assert!(s.edit_result.is_some());
    assert!(s.start_flip());
    s.choose_image("/tmp/c.png".to_string());
    assert!(s.edit_result.is_none());
}

#[test]
fn labels_and_classes() {
    assert_eq!(RotationAngle::Rotate180.label(), "180°");
    assert_eq!(ImageFilter::Sharpen.label(), "Sharpen");
    assert_eq!(EditMode::Brightness.label(), "Brightness");
    assert_eq!(mode_button_class(EditMode::Crop, EditMode::Crop), "mode-btn active");
    assert_eq!(mode_button_class(EditMode::Crop, EditMode::Resize), "mode-btn");
    assert_eq!(filter_option_class(ImageFilter::Blur, ImageFilter::Blur), "filter-option selected");
    assert_eq!(output_formats()[1], ("webp", "WebP", Some("Good")));
}

#[test]
fn compressor() {
    let mut c = CompressorState::new();
    assert!(c.compress().is_none());
    c.input_path = "/tmp/a.png".to_string();
    c.set_quality("300");
    assert_eq!(c.quality, 80);
    c.set_quality("65");
    c.set_width("640");
    c.set_height("abc");
    let r = c.compress().unwrap();
    assert_eq!(r.quality, 65);
    assert_eq!(r.width, Some(640));
    assert_eq!(r.height, None);
    assert_eq!(r.default_name, "compressed.avif");
    assert_eq!(r.filter_name, "AVIF Image");
    c.set_width("");
    assert_eq!(c.custom_width, None);
    c.on_done();
    assert!(!c.is_processing);
}
