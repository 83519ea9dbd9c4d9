//! Markdown to PDF: the chosen file, its preview, and the conversion with
//! the PDF name offered for it.
use vstd::prelude::*;
use crate::formatting::replace_all;
use crate::formatting::replace_all_chars;
use crate::text::file_name_of;
use crate::text::from_chars;
use crate::text::last_segment;
use crate::text::to_chars;

verus! {

/// What the backend reads from a Markdown file.
#[derive(Clone)]
pub struct MarkdownInfo {
    pub file_name: String,
    pub file_size: u64,
    pub content: String,
}

/// What the backend reports after a conversion.
#[derive(Clone)]
pub struct MarkdownToPdfResult {
    pub success: bool,
    pub output_path: String,
    pub page_count: u32,
    pub file_size: u64,
    pub error: Option<String>,
}

/// The name the save dialog offers: the file's name with every `.md` and
/// then every `.markdown` turned into `.pdf`.
pub open spec fn pdf_name(path: Seq<char>) -> Seq<char> {
    replace_all(replace_all(last_segment(path), ".md"@, ".pdf"@), ".markdown"@, ".pdf"@)
}

/// The name the save dialog offers for the PDF of `path`.
pub fn default_pdf_name(path: &str) -> (r: String)
    ensures
        r@ == pdf_name(path@),
{
    let name = to_chars(file_name_of(path).as_str());
    let md = to_chars(".md");
    let markdown = to_chars(".markdown");
    let pdf = to_chars(".pdf");
    proof {
        reveal_strlit(".md");
        reveal_strlit(".markdown");
    }
    let once = replace_all_chars(&name, &md, &pdf);
    let twice = replace_all_chars(&once, &markdown, &pdf);
    from_chars(&twice)
}

/// What the conversion sends.
#[derive(Clone)]
pub struct ConvertPlan {
    pub markdown: String,
    pub default_name: String,
    pub source_path: String,
}

/// What the tool shows and remembers.
#[derive(Clone)]
pub struct MdPdfState {
    pub input_path: String,
    pub info: Option<MarkdownInfo>,
    pub html_preview: String,
    pub convert_result: Option<MarkdownToPdfResult>,
    pub is_processing: bool,
}

impl MdPdfState {
    /// Nothing chosen.
    pub fn new() -> (s: MdPdfState)
        ensures
            s.input_path@.len() == 0,
            s.info is None,
            s.html_preview@.len() == 0,
            s.convert_result is None,
            !s.is_processing,
    {
        MdPdfState {
            input_path: String::new(),
            info: None,
            html_preview: String::new(),
            convert_result: None,
            is_processing: false,
        }
    }

    /// A file was chosen (or a dropped file was read): it becomes the input
    /// and the last result goes.
    pub fn choose_file(&mut self, path: String)
        ensures
            *final(self) == (MdPdfState {
                convert_result: final(self).convert_result,
                input_path: final(self).input_path,
                ..*old(self)
            }),
            final(self).input_path == path,
            final(self).convert_result is None,
            final(self).info == old(self).info,
    {
        self.input_path = path;
        self.convert_result = None;
    }

    /// The file's text came back.
    pub fn on_info(&mut self, info: MarkdownInfo)
        ensures
            *final(self) == (MdPdfState { info: final(self).info, ..*old(self) }),
            final(self).info == Some(info),
            final(self).input_path == old(self).input_path,
    {
        self.info = Some(info);
    }

    /// The preview came back; a success replaces it.
    pub fn on_preview(&mut self, success: bool, html: String)
        ensures
            *final(self) == (MdPdfState { html_preview: final(self).html_preview, ..*old(self) }),
            success ==> final(self).html_preview == html,
            !success ==> final(self).html_preview == old(self).html_preview,
    {
        if success {
            self.html_preview = html;
        }
    }

    /// Whether the convert button is disabled.
    pub fn convert_disabled(&self) -> (b: bool)
        ensures
            b == (self.input_path@.len() == 0 || self.is_processing),
    {
        self.input_path.as_str().is_empty() || self.is_processing
    }

    /// The convert button: with a file read, the work starts and what to
    /// send is returned.
    pub fn convert(&mut self) -> (r: Option<ConvertPlan>)
        ensures
            *final(self) == (MdPdfState { is_processing: final(self).is_processing, ..*old(self) }),
            (old(self).info is None || old(self).input_path@.len() == 0) <==> r is None,
            r is None ==> final(self).is_processing == old(self).is_processing,
            r matches Some(p) ==> {
                &&& final(self).is_processing
                &&& p.markdown@ == old(self).info->0.content@
                &&& p.default_name@ == pdf_name(old(self).input_path@)
                &&& p.source_path@ == old(self).input_path@
            },
    {
        let markdown = match &self.info {
            Some(info) => info.content.clone(),
            None => return None,
        };
        if self.input_path.as_str().is_empty() {
            return None;
        }
        self.is_processing = true;
        Some(
            ConvertPlan {
                markdown,
                default_name: default_pdf_name(self.input_path.as_str()),
                source_path: self.input_path.clone(),
            },
        )
    }

    /// The conversion ended (`None` when no file was chosen to save to or the
    /// answer could not be read, which keeps the last result).
    pub fn on_result(&mut self, result: Option<MarkdownToPdfResult>)
        ensures
            *final(self) == (MdPdfState {
                convert_result: final(self).convert_result,
                is_processing: final(self).is_processing,
                ..*old(self)
            }),
            !final(self).is_processing,
            result is Some ==> final(self).convert_result == result,
            result is None ==> final(self).convert_result == old(self).convert_result,
    {
        if result.is_some() {
            self.convert_result = result;
        }
        self.is_processing = false;
    }

    /// The reset button.
    pub fn reset(&mut self)
        ensures
            *final(self) == (MdPdfState {
                convert_result: final(self).convert_result,
                html_preview: final(self).html_preview,
                info: final(self).info,
                input_path: final(self).input_path,
                ..*old(self)
            }),
            final(self).input_path@.len() == 0,
            final(self).info is None,
            final(self).html_preview@.len() == 0,
            final(self).convert_result is None,
            final(self).is_processing == old(self).is_processing,
    {
        self.input_path = String::new();
        self.info = None;
        self.html_preview = String::new();
        self.convert_result = None;
    }
}

} // verus!
