//! The Base64 tool: encoding text, decoding it (as text and as an image), and
//! encoding image files, with what each answer of the backend changes.
use vstd::prelude::*;
use crate::text::is_blank;
use crate::text::trim;

verus! {

/// What the tool converts.
#[derive(Clone, Copy, Debug, PartialEq, Eq, Structural)]
pub enum Base64Mode {
    Encode,
    Decode,
    Image,
}

/// The mode the swap button turns to: encoding and decoding trade places.
pub open spec fn swapped_mode(m: Base64Mode) -> Base64Mode {
    match m {
        Base64Mode::Encode => Base64Mode::Decode,
        Base64Mode::Decode => Base64Mode::Encode,
        Base64Mode::Image => Base64Mode::Image,
    }
}

/// The translation key of the input pane's title.
pub open spec fn input_title_key(m: Base64Mode) -> Seq<char> {
    match m {
        Base64Mode::Encode => "base64_encoder.text_input"@,
        Base64Mode::Decode => "base64_encoder.base64_input"@,
        Base64Mode::Image => "base64_encoder.image_input"@,
    }
}

/// The translation key of the input's placeholder (none for images).
pub open spec fn placeholder_key(m: Base64Mode) -> Option<Seq<char>> {
    match m {
        Base64Mode::Encode => Some("base64_encoder.encode_placeholder"@),
        Base64Mode::Decode => Some("base64_encoder.decode_placeholder"@),
        Base64Mode::Image => None,
    }
}

impl Base64Mode {
    /// The translation key of the input pane's title.
    pub fn input_title_key(&self) -> (s: &'static str)
        ensures
            s@ == input_title_key(*self),
    {
        match self {
            Base64Mode::Encode => "base64_encoder.text_input",
            Base64Mode::Decode => "base64_encoder.base64_input",
            Base64Mode::Image => "base64_encoder.image_input",
        }
    }

    /// The translation key of the input's placeholder.
    pub fn placeholder_key(&self) -> (s: Option<&'static str>)
        ensures
            match s {
                Some(k) => placeholder_key(*self) == Some(k@),
                None => placeholder_key(*self) is None,
            },
    {
        match self {
            Base64Mode::Encode => Some("base64_encoder.encode_placeholder"),
            Base64Mode::Decode => Some("base64_encoder.decode_placeholder"),
            Base64Mode::Image => None,
        }
    }
}

/// Swapping twice returns to the first mode.
pub proof fn law_swap_mode_twice(m: Base64Mode)
    ensures
        swapped_mode(swapped_mode(m)) == m,
        m != Base64Mode::Image ==> swapped_mode(m) != m,
{
}

/// What the backend answers to an encoding or a text decoding.
#[derive(Clone)]
pub struct TextReply {
    pub success: bool,
    pub output: String,
    /// Whether decoded bytes were valid UTF-8 (always true for encodings).
    pub is_valid_utf8: bool,
    pub error: Option<String>,
}

/// What the backend answers to encoding an image file.
#[derive(Clone)]
pub struct ImageEncodeReply {
    pub success: bool,
    pub output: String,
    pub mime_type: String,
    pub data_url: String,
    pub size_bytes: usize,
    pub error: Option<String>,
}

/// What the backend answers to decoding Base64 as an image.
#[derive(Clone)]
pub struct ImageDecodeReply {
    pub success: bool,
    pub mime_type: Option<String>,
    pub size_bytes: usize,
    pub preview_data_url: Option<String>,
    pub error: Option<String>,
}

/// The work a click on the convert button starts.
pub enum Conversion {
    /// Encode the text.
    Encode { input: String, url_safe: bool },
    /// Decode the text, as an image and as text.
    Decode { input: String, url_safe: bool },
    /// Nothing to send: images come from files.
    Idle,
}

/// What the tool shows and remembers.
#[derive(Clone)]
pub struct Base64State {
    pub mode: Base64Mode,
    pub input: String,
    pub output: String,
    pub url_safe: bool,
    pub is_processing: bool,
    pub error: Option<String>,
    pub copy_feedback: bool,
    pub is_binary: bool,
    pub image_preview: Option<String>,
    pub image_info: Option<(String, usize)>,
    pub decoded_image_preview: Option<String>,
}

/// The state holds nothing of a previous conversion: no input, output, error,
/// previews or binary mark.
pub open spec fn is_cleared(s: Base64State) -> bool {
    &&& s.input@.len() == 0
    &&& s.output@.len() == 0
    &&& s.error is None
    &&& s.image_preview is None
    &&& s.image_info is None
    &&& s.decoded_image_preview is None
    &&& !s.is_binary
}

impl Base64State {
    /// The tool on opening: encoding, nothing entered.
    pub fn new() -> (s: Base64State)
        ensures
            s.mode == Base64Mode::Encode,
            is_cleared(s),
            !s.url_safe,
            !s.is_processing,
            !s.copy_feedback,
    {
        Base64State {
            mode: Base64Mode::Encode,
            input: String::new(),
            output: String::new(),
            url_safe: false,
            is_processing: false,
            error: None,
            copy_feedback: false,
            is_binary: false,
            image_preview: None,
            image_info: None,
            decoded_image_preview: None,
        }
    }

    /// Forgets the previous conversion.
    fn reset(&mut self)
        ensures
            is_cleared(*final(self)),
            final(self).mode == old(self).mode,
            final(self).url_safe == old(self).url_safe,
            final(self).is_processing == old(self).is_processing,
            final(self).copy_feedback == old(self).copy_feedback,
    {
        self.input = String::new();
        self.output = String::new();
        self.error = None;
        self.image_preview = None;
        self.image_info = None;
        self.decoded_image_preview = None;
        self.is_binary = false;
    }

    /// A mode button: the mode changes and everything entered is forgotten.
    pub fn change_mode(&mut self, mode: Base64Mode)
        ensures
            *final(self) == (Base64State {
                decoded_image_preview: final(self).decoded_image_preview,
                error: final(self).error,
                image_info: final(self).image_info,
                image_preview: final(self).image_preview,
                input: final(self).input,
                is_binary: final(self).is_binary,
                mode: final(self).mode,
                output: final(self).output,
                ..*old(self)
            }),
            final(self).mode == mode,
            is_cleared(*final(self)),
            final(self).url_safe == old(self).url_safe,
            final(self).is_processing == old(self).is_processing,
    {
        self.mode = mode;
        self.reset();
    }

    /// The clear button.
    pub fn clear(&mut self)
        ensures
            *final(self) == (Base64State {
                decoded_image_preview: final(self).decoded_image_preview,
                error: final(self).error,
                image_info: final(self).image_info,
                image_preview: final(self).image_preview,
                input: final(self).input,
                is_binary: final(self).is_binary,
                output: final(self).output,
                ..*old(self)
            }),
            is_cleared(*final(self)),
            final(self).mode == old(self).mode,
            final(self).url_safe == old(self).url_safe,
            final(self).is_processing == old(self).is_processing,
    {
        self.reset();
    }

    /// The convert button: an input of whitespace only starts nothing (`None`);
    /// otherwise the work starts and what to send is returned.
    pub fn convert(&mut self) -> (r: Option<Conversion>)
        ensures
            trim(old(self).input@).len() == 0 <==> r is None,
            r is None ==> *final(self) == *old(self),
            r is Some ==> final(self).is_processing,
            r matches Some(c) ==> match old(self).mode {
                Base64Mode::Encode => c matches Conversion::Encode { input, url_safe } && input@
                    == old(self).input@ && url_safe == old(self).url_safe,
                Base64Mode::Decode => c matches Conversion::Decode { input, url_safe } && input@
                    == old(self).input@ && url_safe == old(self).url_safe,
                Base64Mode::Image => c is Idle,
            },
            final(self).mode == old(self).mode,
            final(self).input == old(self).input,
            final(self).output == old(self).output,
            final(self).error == old(self).error,
    {
        if is_blank(self.input.as_str()) {
            return None;
        }
        self.is_processing = true;
        match self.mode {
            Base64Mode::Encode => Some(
                Conversion::Encode { input: self.input.clone(), url_safe: self.url_safe },
            ),
            Base64Mode::Decode => Some(
                Conversion::Decode { input: self.input.clone(), url_safe: self.url_safe },
            ),
            Base64Mode::Image => Some(Conversion::Idle),
        }
    }

    /// The backend encoded the text (`None` when its answer could not be read,
    /// which changes nothing): a success shows the output and clears the
    /// error; a failure shows its error.
    pub fn on_encoded(&mut self, reply: Option<TextReply>)
        ensures
            *final(self) == (Base64State {
                error: final(self).error,
                output: final(self).output,
                ..*old(self)
            }),
            match reply {
                Some(r) => if r.success {
                    final(self).output == r.output && final(self).error is None
                } else {
                    final(self).output == old(self).output && final(self).error == r.error
                },
                None => final(self).output == old(self).output && final(self).error == old(
                    self,
                ).error,
            },
            final(self).is_binary == old(self).is_binary,
            final(self).mode == old(self).mode,
    {
        if let Some(r) = reply {
            if r.success {
                self.output = r.output;
                self.error = None;
            } else {
                self.error = r.error;
            }
        }
    }

    /// The backend decoded the text: as [`Self::on_encoded`], and bytes that
    /// are not UTF-8 mark the output as binary.
    pub fn on_decoded(&mut self, reply: Option<TextReply>)
        ensures
            *final(self) == (Base64State {
                error: final(self).error,
                is_binary: final(self).is_binary,
                output: final(self).output,
                ..*old(self)
            }),
            match reply {
                Some(r) => if r.success {
                    &&& final(self).output == r.output
                    &&& final(self).error is None
                    &&& final(self).is_binary == !r.is_valid_utf8
                } else {
                    &&& final(self).output == old(self).output
                    &&& final(self).error == r.error
                    &&& final(self).is_binary == old(self).is_binary
                },
                None => final(self).output == old(self).output && final(self).error == old(
                    self,
                ).error && final(self).is_binary == old(self).is_binary,
            },
            final(self).mode == old(self).mode,
    {
        if let Some(r) = reply {
            if r.success {
                self.output = r.output;
                self.is_binary = !r.is_valid_utf8;
                self.error = None;
            } else {
                self.error = r.error;
            }
        }
    }

    /// The backend tried the text as an image: a preview is shown only for a
    /// success that has one; an unreadable answer changes nothing.
    pub fn on_image_decoded(&mut self, reply: Option<ImageDecodeReply>)
        ensures
            *final(self) == (Base64State {
                decoded_image_preview: final(self).decoded_image_preview,
                ..*old(self)
            }),
            match reply {
                Some(r) => if r.success && r.preview_data_url is Some {
                    final(self).decoded_image_preview == r.preview_data_url
                } else {
                    final(self).decoded_image_preview is None
                },
                None => final(self).decoded_image_preview == old(self).decoded_image_preview,
            },
            final(self).output == old(self).output,
            final(self).error == old(self).error,
    {
        if let Some(r) = reply {
            if r.success && r.preview_data_url.is_some() {
                self.decoded_image_preview = r.preview_data_url;
            } else {
                self.decoded_image_preview = None;
            }
        }
    }

    /// The conversion ended.
    pub fn on_done(&mut self)
        ensures
            *final(self) == (Base64State {
                is_processing: final(self).is_processing,
                ..*old(self)
            }),
            !final(self).is_processing,
            final(self).output == old(self).output,
            final(self).error == old(self).error,
    {
        self.is_processing = false;
    }

    /// A file was dropped or chosen: the tool turns to images and starts work.
    pub fn start_image(&mut self)
        ensures
            *final(self) == (Base64State {
                is_processing: final(self).is_processing,
                mode: final(self).mode,
                ..*old(self)
            }),
            final(self).mode == Base64Mode::Image,
            final(self).is_processing,
            final(self).output == old(self).output,
            final(self).error == old(self).error,
    {
        self.mode = Base64Mode::Image;
        self.is_processing = true;
    }

    /// The backend encoded an image file, or its answer could not be read (the
    /// message then becomes the error). A success shows the output, the
    /// preview and the type and size; a failure shows its error, or
    /// "Encoding failed" when it gives none.
    pub fn on_image_encoded(&mut self, reply: Result<ImageEncodeReply, String>)
        ensures
            *final(self) == (Base64State {
                error: final(self).error,
                image_info: final(self).image_info,
                image_preview: final(self).image_preview,
                is_processing: final(self).is_processing,
                output: final(self).output,
                ..*old(self)
            }),
            match reply {
                Ok(r) => if r.success {
                    &&& final(self).output == r.output
                    &&& final(self).image_preview == Some(r.data_url)
                    &&& final(self).image_info == Some((r.mime_type, r.size_bytes))
                    &&& final(self).error is None
                } else {
                    &&& final(self).output == old(self).output
                    &&& final(self).image_preview == old(self).image_preview
                    &&& final(self).image_info == old(self).image_info
                    &&& match r.error {
                        Some(e) => final(self).error == Some(e),
                        None => final(self).error matches Some(e) && e@ == "Encoding failed"@,
                    }
                },
                Err(m) => {
                    &&& final(self).output == old(self).output
                    &&& final(self).image_preview == old(self).image_preview
                    &&& final(self).image_info == old(self).image_info
                    &&& final(self).error == Some(m)
                },
            },
            !final(self).is_processing,
            final(self).mode == old(self).mode,
    {
        match reply {
            Ok(r) => {
                if r.success {
                    self.output = r.output;
                    self.image_preview = Some(r.data_url);
                    self.image_info = Some((r.mime_type, r.size_bytes));
                    self.error = None;
                } else {
                    self.error = match r.error {
                        Some(e) => Some(e),
                        None => Some("Encoding failed".to_string()),
                    };
                }
            },
            Err(m) => {
                self.error = Some(m);
            },
        }
        self.is_processing = false;
    }

    /// The text the copy button copies, when there is output.
    pub fn copy_text(&self) -> (r: Option<String>)
        ensures
            self.output@.len() == 0 <==> r is None,
            r matches Some(t) ==> t@ == self.output@,
    {
        if self.output.as_str().is_empty() {
            None
        } else {
            Some(self.output.clone())
        }
    }

    /// The data URL the image's copy button copies.
    pub fn copy_data_url(&self) -> (r: Option<String>)
        ensures
            match self.image_preview {
                Some(u) => r matches Some(t) && t@ == u@,
                None => r is None,
            },
    {
        match &self.image_preview {
            Some(u) => Some(u.clone()),
            None => None,
        }
    }

    /// The swap button: with output outside image mode, the output becomes the
    /// input and encoding and decoding trade places; otherwise nothing changes.
    pub fn swap(&mut self)
        ensures
            *final(self) == (Base64State {
                input: final(self).input,
                mode: final(self).mode,
                output: final(self).output,
                ..*old(self)
            }),
            (old(self).output@.len() > 0 && old(self).mode != Base64Mode::Image) ==> {
                &&& final(self).input == old(self).output
                &&& final(self).output@.len() == 0
                &&& final(self).mode == swapped_mode(old(self).mode)
            },
            !(old(self).output@.len() > 0 && old(self).mode != Base64Mode::Image) ==> *final(self)
                == *old(self),
            final(self).error == old(self).error,
            final(self).url_safe == old(self).url_safe,
    {
        if !self.output.as_str().is_empty() && self.mode != Base64Mode::Image {
            let mut out = String::new();
            std::mem::swap(&mut out, &mut self.output);
            self.input = out;
            self.mode = match self.mode {
                Base64Mode::Encode => Base64Mode::Decode,
                Base64Mode::Decode => Base64Mode::Encode,
                Base64Mode::Image => Base64Mode::Image,
            };
        }
    }
}

} // verus!
