//! The image editor and the image compressor: their options, what the apply
//! buttons ask of the backend, and the values that follow a chosen image.
use vstd::prelude::*;
use crate::parse::parse_i32;
use crate::parse::parse_u32;
use crate::parse::parse_u8;
use crate::parse::signed_text;
use crate::parse::unsigned_in;
use crate::text::extend_str;
use crate::text::from_chars;
use crate::text::upper;
use crate::text::uppercase;

verus! {

// ---------------------------------------------------------------------------
// Shared pieces
// ---------------------------------------------------------------------------

/// What the backend reports about an image file.
#[derive(Clone)]
pub struct ImageInfo {
    pub width: u32,
    pub height: u32,
    pub format: String,
    pub file_size: u64,
}

/// What a number field holds after `text` was typed into it: the number, or
/// the old value when the text is no `u32`.
pub open spec fn u32_field(text: Seq<char>, old: u32) -> u32 {
    match unsigned_in(text, u32::MAX as nat) {
        Some(v) => v as u32,
        None => old,
    }
}

/// Reads a `u32` field; other text leaves the value alone.
pub fn read_u32_field(text: &str, old: u32) -> (r: u32)
    ensures
        r == u32_field(text@, old),
{
    match parse_u32(text) {
        Some(v) => v,
        None => old,
    }
}

// ---------------------------------------------------------------------------
// The editor
// ---------------------------------------------------------------------------

/// How far an image is turned.
#[derive(Clone, Copy, Debug, PartialEq, Eq, Structural)]
pub enum RotationAngle {
    Rotate90,
    Rotate180,
    Rotate270,
}

/// The label of a rotation.
pub open spec fn rotation_label(a: RotationAngle) -> Seq<char> {
    match a {
        RotationAngle::Rotate90 => "90°"@,
        RotationAngle::Rotate180 => "180°"@,
        RotationAngle::Rotate270 => "270°"@,
    }
}

impl RotationAngle {
    /// The label of the rotation.
    pub fn label(&self) -> (s: &'static str)
        ensures
            s@ == rotation_label(*self),
    {
        match self {
            RotationAngle::Rotate90 => "90°",
            RotationAngle::Rotate180 => "180°",
            RotationAngle::Rotate270 => "270°",
        }
    }

    /// The rotations in the order offered.
    pub fn all() -> (r: [RotationAngle; 3])
        ensures
            r@ == seq![RotationAngle::Rotate90, RotationAngle::Rotate180, RotationAngle::Rotate270],
    {
        [RotationAngle::Rotate90, RotationAngle::Rotate180, RotationAngle::Rotate270]
    }
}

/// A filter over the whole image.
#[derive(Clone, Copy, Debug, PartialEq, Eq, Structural)]
pub enum ImageFilter {
    Grayscale,
    Sepia,
    Invert,
    Blur,
    Sharpen,
}

/// The label of a filter.
pub open spec fn filter_label(f: ImageFilter) -> Seq<char> {
    match f {
        ImageFilter::Grayscale => "Grayscale"@,
        ImageFilter::Sepia => "Sepia"@,
        ImageFilter::Invert => "Invert"@,
        ImageFilter::Blur => "Blur"@,
        ImageFilter::Sharpen => "Sharpen"@,
    }
}

impl ImageFilter {
    /// The label of the filter.
    pub fn label(&self) -> (s: &'static str)
        ensures
            s@ == filter_label(*self),
    {
        match self {
            ImageFilter::Grayscale => "Grayscale",
            ImageFilter::Sepia => "Sepia",
            ImageFilter::Invert => "Invert",
            ImageFilter::Blur => "Blur",
            ImageFilter::Sharpen => "Sharpen",
        }
    }

    /// The filters in the order offered.
    pub fn all() -> (r: [ImageFilter; 5])
        ensures
            r@ == seq![
                ImageFilter::Grayscale,
                ImageFilter::Sepia,
                ImageFilter::Invert,
                ImageFilter::Blur,
                ImageFilter::Sharpen,
            ],
    {
        [ImageFilter::Grayscale, ImageFilter::Sepia, ImageFilter::Invert, ImageFilter::Blur, ImageFilter::Sharpen]
    }
}

/// Which edit the options panel shows.
#[derive(Clone, Copy, Debug, PartialEq, Eq, Structural)]
pub enum EditMode {
    Resize,
    Rotate,
    Crop,
    Brightness,
    Contrast,
    Filter,
}

/// The label of an edit mode's button.
pub open spec fn edit_mode_label(m: EditMode) -> Seq<char> {
    match m {
        EditMode::Resize => "Resize"@,
        EditMode::Rotate => "Rotate"@,
        EditMode::Crop => "Crop"@,
        EditMode::Brightness => "Brightness"@,
        EditMode::Contrast => "Contrast"@,
        EditMode::Filter => "Filter"@,
    }
}

impl EditMode {
    /// The label of the mode's button.
    pub fn label(&self) -> (s: &'static str)
        ensures
            s@ == edit_mode_label(*self),
    {
        match self {
            EditMode::Resize => "Resize",
            EditMode::Rotate => "Rotate",
            EditMode::Crop => "Crop",
            EditMode::Brightness => "Brightness",
            EditMode::Contrast => "Contrast",
            EditMode::Filter => "Filter",
        }
    }
}

/// The style class of a mode button.
pub fn mode_button_class(current: EditMode, mode: EditMode) -> (s: &'static str)
    ensures
        current == mode ==> s@ == "mode-btn active"@,
        current != mode ==> s@ == "mode-btn"@,
{
    if current == mode {
        "mode-btn active"
    } else {
        "mode-btn"
    }
}

/// The style class of a filter choice.
pub fn filter_option_class(selected: ImageFilter, filter: ImageFilter) -> (s: &'static str)
    ensures
        selected == filter ==> s@ == "filter-option selected"@,
        selected != filter ==> s@ == "filter-option"@,
{
    if selected == filter {
        "filter-option selected"
    } else {
        "filter-option"
    }
}

/// What the backend reports after an edit.
#[derive(Clone)]
pub struct EditResult {
    pub success: bool,
    pub output_path: String,
    pub original_size: u64,
    pub new_size: u64,
    pub new_width: u32,
    pub new_height: u32,
    pub error: Option<String>,
}

/// The edit the apply button asks for. The contrast factor is a float and
/// travels beside the request.
#[derive(Clone, Copy, Debug, PartialEq, Eq, Structural)]
pub enum EditRequest {
    Resize { width: u32, height: u32, maintain_aspect: bool },
    Rotate { angle: RotationAngle },
    Crop { x: u32, y: u32, width: u32, height: u32 },
    Brightness { value: i32 },
    Contrast,
    Filter { filter: ImageFilter },
}

/// The editor's state (all but the contrast factor).
#[derive(Clone)]
pub struct EditorState {
    pub input_path: String,
    pub image_info: Option<ImageInfo>,
    pub edit_mode: EditMode,
    pub edit_result: Option<EditResult>,
    pub is_processing: bool,
    pub resize_width: u32,
    pub resize_height: u32,
    pub maintain_aspect: bool,
    pub rotation_angle: RotationAngle,
    pub crop_x: u32,
    pub crop_y: u32,
    pub crop_width: u32,
    pub crop_height: u32,
    pub brightness: i32,
    pub selected_filter: ImageFilter,
}

/// The request for the current mode and options.
pub open spec fn request_for(s: EditorState) -> EditRequest {
    match s.edit_mode {
        EditMode::Resize => EditRequest::Resize {
            width: s.resize_width,
            height: s.resize_height,
            maintain_aspect: s.maintain_aspect,
        },
        EditMode::Rotate => EditRequest::Rotate { angle: s.rotation_angle },
        EditMode::Crop => EditRequest::Crop {
            x: s.crop_x,
            y: s.crop_y,
            width: s.crop_width,
            height: s.crop_height,
        },
        EditMode::Brightness => EditRequest::Brightness { value: s.brightness },
        EditMode::Contrast => EditRequest::Contrast,
        EditMode::Filter => EditRequest::Filter { filter: s.selected_filter },
    }
}

/// The smaller of two numbers.
pub open spec fn min_u32(a: u32, b: u32) -> u32 {
    if a <= b {
        a
    } else {
        b
    }
}

impl EditorState {
    /// The editor on opening: no image, resize to 800×600 keeping the aspect,
    /// a quarter turn, a 400×300 crop at the corner, no brightness change,
    /// greyscale.
    pub fn new() -> (s: EditorState)
        ensures
            s.input_path@.len() == 0,
            s.image_info is None,
            s.edit_mode == EditMode::Resize,
            s.edit_result is None,
            !s.is_processing,
            s.resize_width == 800 && s.resize_height == 600 && s.maintain_aspect,
            s.rotation_angle == RotationAngle::Rotate90,
            s.crop_x == 0 && s.crop_y == 0 && s.crop_width == 400 && s.crop_height == 300,
            s.brightness == 0,
            s.selected_filter == ImageFilter::Grayscale,
    {
        EditorState {
            input_path: String::new(),
            image_info: None,
            edit_mode: EditMode::Resize,
            edit_result: None,
            is_processing: false,
            resize_width: 800,
            resize_height: 600,
            maintain_aspect: true,
            rotation_angle: RotationAngle::Rotate90,
            crop_x: 0,
            crop_y: 0,
            crop_width: 400,
            crop_height: 300,
            brightness: 0,
            selected_filter: ImageFilter::Grayscale,
        }
    }

    /// An image was chosen or dropped: it becomes the input and the last
    /// result goes.
    pub fn choose_image(&mut self, path: String)
        ensures
            *final(self) == (EditorState { input_path: path, edit_result: None, ..*old(self) }),
    {
        self.input_path = path;
        self.edit_result = None;
    }

    /// The image's size came back: the resize fields take it, the crop fields
    /// take it capped at 400×300.
    pub fn on_info(&mut self, info: ImageInfo)
        ensures
            *final(self) == (EditorState {
                resize_width: info.width,
                resize_height: info.height,
                crop_width: min_u32(info.width, 400),
                crop_height: min_u32(info.height, 300),
                image_info: Some(info),
                ..*old(self)
            }),
    {
        self.resize_width = info.width;
        self.resize_height = info.height;
        self.crop_width = if info.width <= 400 { info.width } else { 400 };
        self.crop_height = if info.height <= 300 { info.height } else { 300 };
        self.image_info = Some(info);
    }

    /// The apply button: without an image nothing happens; otherwise the work
    /// starts and the edit of the current mode is returned.
    pub fn apply(&mut self) -> (r: Option<EditRequest>)
        ensures
            old(self).input_path@.len() == 0 <==> r is None,
            r is None ==> *final(self) == *old(self),
            r matches Some(q) ==> q == request_for(*old(self)),
            r is Some ==> *final(self) == (EditorState { is_processing: true, ..*old(self) }),
    {
        if self.input_path.as_str().is_empty() {
            return None;
        }
        self.is_processing = true;
        let q = match self.edit_mode {
            EditMode::Resize => EditRequest::Resize {
                width: self.resize_width,
                height: self.resize_height,
                maintain_aspect: self.maintain_aspect,
            },
            EditMode::Rotate => EditRequest::Rotate { angle: self.rotation_angle },
            EditMode::Crop => EditRequest::Crop {
                x: self.crop_x,
                y: self.crop_y,
                width: self.crop_width,
                height: self.crop_height,
            },
            EditMode::Brightness => EditRequest::Brightness { value: self.brightness },
            EditMode::Contrast => EditRequest::Contrast,
            EditMode::Filter => EditRequest::Filter { filter: self.selected_filter },
        };
        Some(q)
    }

    /// A flip button: with an image, the work starts (`true`).
    pub fn start_flip(&mut self) -> (go: bool)
        ensures
            go == (old(self).input_path@.len() > 0),
            go ==> *final(self) == (EditorState { is_processing: true, ..*old(self) }),
            !go ==> *final(self) == *old(self),
    {
        if self.input_path.as_str().is_empty() {
            false
        } else {
            self.is_processing = true;
            true
        }
    }

    /// The edit's result came back (`None` when it could not be read or no
    /// file was chosen to save to, which keeps the last result). The work ends.
    pub fn on_result(&mut self, result: Option<EditResult>)
        ensures
            !final(self).is_processing,
            result is Some ==> final(self).edit_result == result,
            result is None ==> final(self).edit_result == old(self).edit_result,
            *final(self) == (EditorState {
                edit_result: final(self).edit_result,
                is_processing: false,
                ..*old(self)
            }),
    {
        if result.is_some() {
            self.edit_result = result;
        }
        self.is_processing = false;
    }

    /// The resize width field.
    pub fn set_resize_width(&mut self, text: &str)
        ensures
            *final(self) == (EditorState {
                resize_width: u32_field(text@, old(self).resize_width),
                ..*old(self)
            }),
    {
        self.resize_width = read_u32_field(text, self.resize_width);
    }

    /// The resize height field.
    pub fn set_resize_height(&mut self, text: &str)
        ensures
            *final(self) == (EditorState {
                resize_height: u32_field(text@, old(self).resize_height),
                ..*old(self)
            }),
    {
        self.resize_height = read_u32_field(text, self.resize_height);
    }

    /// The crop fields: `x`, `y`, width and height, in that order of `field`.
    pub fn set_crop(&mut self, field: usize, text: &str)
        requires
            field < 4,
        ensures
            final(self).crop_x == (if field == 0 { u32_field(text@, old(self).crop_x) } else { old(self).crop_x }),
            final(self).crop_y == (if field == 1 { u32_field(text@, old(self).crop_y) } else { old(self).crop_y }),
            final(self).crop_width == (if field == 2 { u32_field(text@, old(self).crop_width) } else { old(self).crop_width }),
            final(self).crop_height == (if field == 3 { u32_field(text@, old(self).crop_height) } else { old(self).crop_height }),
            *final(self) == (EditorState {
                crop_x: final(self).crop_x,
                crop_y: final(self).crop_y,
                crop_width: final(self).crop_width,
                crop_height: final(self).crop_height,
                ..*old(self)
            }),
    {
        if field == 0 {
            self.crop_x = read_u32_field(text, self.crop_x);
        } else if field == 1 {
            self.crop_y = read_u32_field(text, self.crop_y);
        } else if field == 2 {
            self.crop_width = read_u32_field(text, self.crop_width);
        } else {
            self.crop_height = read_u32_field(text, self.crop_height);
        }
    }

    /// The brightness slider: an `i32` is taken as it is; other text changes
    /// nothing.
    pub fn set_brightness(&mut self, text: &str)
        ensures
            match signed_text(text@) {
                Some(n) => if i32::MIN <= n <= i32::MAX {
                    final(self).brightness == n
                } else {
                    final(self).brightness == old(self).brightness
                },
                None => final(self).brightness == old(self).brightness,
            },
            *final(self) == (EditorState { brightness: final(self).brightness, ..*old(self) }),
    {
        if let Some(v) = parse_i32(text) {
            self.brightness = v;
        }
    }
}

/// The file name the save dialog offers for an edit.
pub fn edited_default_name() -> (s: &'static str)
    ensures
        s@ == "edited.png"@,
{
    "edited.png"
}

/// The file name the save dialog offers for a flip.
pub fn flipped_default_name() -> (s: &'static str)
    ensures
        s@ == "flipped.png"@,
{
    "flipped.png"
}

// ---------------------------------------------------------------------------
// The compressor
// ---------------------------------------------------------------------------

/// What the compressor keeps (the result's ratio is a float and stays with
/// the page).
#[derive(Clone)]
pub struct CompressorState {
    pub input_path: String,
    pub image_info: Option<ImageInfo>,
    pub quality: u8,
    pub output_format: String,
    pub custom_width: Option<u32>,
    pub custom_height: Option<u32>,
    pub is_processing: bool,
}

/// What the compress button asks of the backend.
#[derive(Clone)]
pub struct CompressRequest {
    pub input_path: String,
    pub quality: u8,
    pub width: Option<u32>,
    pub height: Option<u32>,
    pub output_format: String,
    /// The name the save dialog offers: `compressed.` and the format.
    pub default_name: String,
    /// The name of the save dialog's filter: the format in capitals and ` Image`.
    pub filter_name: String,
}

/// What a size field holds after `text` was typed: nothing for an empty
/// field, the number for a `u32`, else the old value.
pub open spec fn size_field(text: Seq<char>, old: Option<u32>) -> Option<u32> {
    if text.len() == 0 {
        None
    } else {
        match unsigned_in(text, u32::MAX as nat) {
            Some(v) => Some(v as u32),
            None => old,
        }
    }
}

/// The output formats offered: value, name and badge.
pub open spec fn format_choices() -> Seq<(Seq<char>, Seq<char>, Option<Seq<char>>)> {
    seq![
        ("avif"@, "AVIF"@, Some("Best"@)),
        ("webp"@, "WebP"@, Some("Good"@)),
        ("jpeg"@, "JPEG"@, None),
        ("png"@, "PNG"@, None),
    ]
}

/// The output formats offered: value, name and badge.
pub fn output_formats() -> (r: Vec<(&'static str, &'static str, Option<&'static str>)>)
    ensures
        r@.len() == format_choices().len(),
        forall|i: int|
            0 <= i < r@.len() ==> {
                &&& r@[i].0@ == format_choices()[i].0
                &&& r@[i].1@ == format_choices()[i].1
                &&& match r@[i].2 {
                    Some(b) => format_choices()[i].2 == Some(b@),
                    None => format_choices()[i].2 is None,
                }
            },
{
    let mut r: Vec<(&'static str, &'static str, Option<&'static str>)> = Vec::new();
    r.push(("avif", "AVIF", Some("Best")));
    r.push(("webp", "WebP", Some("Good")));
    r.push(("jpeg", "JPEG", None));
    r.push(("png", "PNG", None));
    r
}

impl CompressorState {
    /// The compressor on opening: quality 80 into AVIF at the image's size.
    pub fn new() -> (s: CompressorState)
        ensures
            s.input_path@.len() == 0,
            s.image_info is None,
            s.quality == 80,
            s.output_format@ == "avif"@,
            s.custom_width is None,
            s.custom_height is None,
            !s.is_processing,
    {
        CompressorState {
            input_path: String::new(),
            image_info: None,
            quality: 80,
            output_format: "avif".to_string(),
            custom_width: None,
            custom_height: None,
            is_processing: false,
        }
    }

    /// The quality slider: a `u8` is taken; other text changes nothing.
    pub fn set_quality(&mut self, text: &str)
        ensures
            match unsigned_in(text@, u8::MAX as nat) {
                Some(v) => final(self).quality == v,
                None => final(self).quality == old(self).quality,
            },
            *final(self) == (CompressorState { quality: final(self).quality, ..*old(self) }),
    {
        if let Some(v) = parse_u8(text) {
            self.quality = v;
        }
    }

    /// The width field.
    pub fn set_width(&mut self, text: &str)
        ensures
            *final(self) == (CompressorState {
                custom_width: size_field(text@, old(self).custom_width),
                ..*old(self)
            }),
    {
        if text.is_empty() {
            self.custom_width = None;
        } else if let Some(w) = parse_u32(text) {
            self.custom_width = Some(w);
        }
    }

    /// The height field.
    pub fn set_height(&mut self, text: &str)
        ensures
            *final(self) == (CompressorState {
                custom_height: size_field(text@, old(self).custom_height),
                ..*old(self)
            }),
    {
        if text.is_empty() {
            self.custom_height = None;
        } else if let Some(h) = parse_u32(text) {
            self.custom_height = Some(h);
        }
    }

    /// The compress button: without an image nothing happens; otherwise the
    /// work starts and the request is returned.
    pub fn compress(&mut self) -> (r: Option<CompressRequest>)
        ensures
            old(self).input_path@.len() == 0 <==> r is None,
            r is None ==> *final(self) == *old(self),
            r is Some ==> *final(self) == (CompressorState { is_processing: true, ..*old(self) }),
            r matches Some(q) ==> {
                &&& q.input_path@ == old(self).input_path@
                &&& q.quality == old(self).quality
                &&& q.width == old(self).custom_width
                &&& q.height == old(self).custom_height
                &&& q.output_format@ == old(self).output_format@
                &&& q.default_name@ == "compressed."@ + old(self).output_format@
                &&& q.filter_name@ == upper(old(self).output_format@) + " Image"@
            },
    {
        if self.input_path.as_str().is_empty() {
            return None;
        }
        self.is_processing = true;
        let mut name: Vec<char> = Vec::new();
        extend_str(&mut name, "compressed.");
        extend_str(&mut name, self.output_format.as_str());
        let mut filter: Vec<char> = Vec::new();
        let caps = uppercase(self.output_format.as_str());
        extend_str(&mut filter, caps.as_str());
        extend_str(&mut filter, " Image");
        Some(
            CompressRequest {
                input_path: self.input_path.clone(),
                quality: self.quality,
                width: self.custom_width,
                height: self.custom_height,
                output_format: self.output_format.clone(),
                default_name: from_chars(&name),
                filter_name: from_chars(&filter),
            },
        )
    }

    /// The work ended.
    pub fn on_done(&mut self)
        ensures
            *final(self) == (CompressorState { is_processing: false, ..*old(self) }),
    {
        self.is_processing = false;
    }
}

} // verus!
