//! The application window: the shown tool, the sidebar, the command palette
//! and the files dropped on the window that wait for their tool.
use vstd::prelude::*;
use crate::palette::is_palette_shortcut;
use crate::tools::drop_route;
use crate::tools::route_drop;
use crate::tools::tab_id;
use crate::tools::DropTarget;
use crate::tools::Tab;

verus! {

/// What the window shows and remembers.
#[derive(Clone)]
pub struct Shell {
    pub active_tab: Tab,
    pub sidebar_collapsed: bool,
    pub palette_visible: bool,
    pub dropped_image: Option<String>,
    pub dropped_editor: Option<String>,
    pub dropped_base64_image: Option<String>,
    pub dropped_csv: Option<String>,
    pub dropped_pdf: Option<String>,
    pub dropped_markdown: Option<String>,
    pub dropped_text: Option<String>,
    pub dropped_json: Option<String>,
}

/// The file waiting for a target.
pub open spec fn waiting(s: Shell, t: DropTarget) -> Option<String> {
    match t {
        DropTarget::ImageCompressor => s.dropped_image,
        DropTarget::ImageEditor => s.dropped_editor,
        DropTarget::Base64Image => s.dropped_base64_image,
        DropTarget::CsvViewer => s.dropped_csv,
        DropTarget::PdfTools => s.dropped_pdf,
        DropTarget::MarkdownToPdf => s.dropped_markdown,
        DropTarget::JsonFormatter => s.dropped_json,
        DropTarget::TextDiff => s.dropped_text,
        DropTarget::Ignored => None,
    }
}

/// The waiting files of two states agree except, perhaps, for target `t`.
pub open spec fn same_waiting_except(a: Shell, b: Shell, t: DropTarget) -> bool {
    forall|u: DropTarget| u != t ==> #[trigger] waiting(a, u) == waiting(b, u)
}

/// The style class of the sidebar.
pub open spec fn sidebar_class(collapsed: bool) -> Seq<char> {
    if collapsed {
        "sidebar collapsed"@
    } else {
        "sidebar"@
    }
}

impl Shell {
    /// The window on opening: the image compressor, the sidebar open, no
    /// palette, no files waiting.
    pub fn new() -> (s: Shell)
        ensures
            s.active_tab == Tab::ImageCompressor,
            !s.sidebar_collapsed,
            !s.palette_visible,
            forall|t: DropTarget| #[trigger] waiting(s, t) is None,
    {
        Shell {
            active_tab: Tab::ImageCompressor,
            sidebar_collapsed: false,
            palette_visible: false,
            dropped_image: None,
            dropped_editor: None,
            dropped_base64_image: None,
            dropped_csv: None,
            dropped_pdf: None,
            dropped_markdown: None,
            dropped_text: None,
            dropped_json: None,
        }
    }

    /// Sets the file waiting for `t` (nothing for `Ignored`).
    fn set_waiting(&mut self, t: DropTarget, path: Option<String>)
        ensures
            t != DropTarget::Ignored ==> waiting(*final(self), t) == path,
            same_waiting_except(*final(self), *old(self), t),
            final(self).active_tab == old(self).active_tab,
            final(self).sidebar_collapsed == old(self).sidebar_collapsed,
            final(self).palette_visible == old(self).palette_visible,
    {
        match t {
            DropTarget::ImageCompressor => self.dropped_image = path,
            DropTarget::ImageEditor => self.dropped_editor = path,
            DropTarget::Base64Image => self.dropped_base64_image = path,
            DropTarget::CsvViewer => self.dropped_csv = path,
            DropTarget::PdfTools => self.dropped_pdf = path,
            DropTarget::MarkdownToPdf => self.dropped_markdown = path,
            DropTarget::JsonFormatter => self.dropped_json = path,
            DropTarget::TextDiff => self.dropped_text = path,
            DropTarget::Ignored => {},
        }
    }

    /// Files were dropped on the window: the first one waits for the tool
    /// that takes it, which is then shown (see `drop_route`); with no file,
    /// or one nothing takes, nothing changes.
    pub fn on_drop(&mut self, paths: &Vec<String>)
        ensures
            paths@.len() == 0 ==> *final(self) == *old(self),
            paths@.len() > 0 ==> ({
                let (t, tab) = drop_route(old(self).active_tab, paths@[0]@);
                &&& final(self).active_tab == tab
                &&& t != DropTarget::Ignored ==> (waiting(*final(self), t) matches Some(p) && p@
                    == paths@[0]@)
                &&& same_waiting_except(*final(self), *old(self), t)
            }),
            final(self).sidebar_collapsed == old(self).sidebar_collapsed,
            final(self).palette_visible == old(self).palette_visible,
    {
        if paths.len() == 0 {
            return;
        }
        let first = &paths[0];
        let (t, tab) = route_drop(self.active_tab, first.as_str());
        self.active_tab = tab;
        let ghost mid = *self;
        assert(forall|u: DropTarget| #[trigger] waiting(mid, u) == waiting(*old(self), u));
        self.set_waiting(t, Some(first.clone()));
    }

    /// The tool took its waiting file.
    pub fn on_file_processed(&mut self, t: DropTarget)
        ensures
            *final(self) == (Shell {
                dropped_base64_image: final(self).dropped_base64_image,
                dropped_csv: final(self).dropped_csv,
                dropped_editor: final(self).dropped_editor,
                dropped_image: final(self).dropped_image,
                dropped_json: final(self).dropped_json,
                dropped_markdown: final(self).dropped_markdown,
                dropped_pdf: final(self).dropped_pdf,
                dropped_text: final(self).dropped_text,
                ..*old(self)
            }),
            waiting(*final(self), t) is None,
            same_waiting_except(*final(self), *old(self), t),
            final(self).active_tab == old(self).active_tab,
    {
        self.set_waiting(t, None);
    }

    /// A key press: Cmd+K or Ctrl+K shows the palette, also when it is
    /// already shown (`true`: the browser's own handling is stopped). The
    /// shortcut only opens; the palette closes by its own means.
    pub fn on_key(&mut self, meta: bool, ctrl: bool, key: &str) -> (handled: bool)
        ensures
            handled == ((meta || ctrl) && key@ == "k"@),
            handled ==> *final(self) == (Shell { palette_visible: true, ..*old(self) }),
            !handled ==> *final(self) == *old(self),
    {
        if is_palette_shortcut(meta, ctrl, key) {
            self.palette_visible = true;
            true
        } else {
            false
        }
    }

    /// A tool was picked in the palette: a known id shows its tool; the
    /// palette closes either way.
    pub fn on_palette_select(&mut self, id: &str)
        ensures
            *final(self) == (Shell {
                active_tab: final(self).active_tab,
                palette_visible: final(self).palette_visible,
                ..*old(self)
            }),
            !final(self).palette_visible,
            (exists|t: Tab| tab_id(t) == id@) ==> tab_id(final(self).active_tab) == id@,
            !(exists|t: Tab| tab_id(t) == id@) ==> final(self).active_tab == old(self).active_tab,
    {
        if let Some(tab) = Tab::from_id(id) {
            self.active_tab = tab;
        }
        self.palette_visible = false;
    }

    /// The palette was closed.
    pub fn close_palette(&mut self)
        ensures
            *final(self) == (Shell { palette_visible: final(self).palette_visible, ..*old(self) }),
            !final(self).palette_visible,
            final(self).active_tab == old(self).active_tab,
    {
        self.palette_visible = false;
    }

    /// A tool was clicked in the sidebar.
    pub fn select_tab(&mut self, tab: Tab)
        ensures
            *final(self) == (Shell { active_tab: final(self).active_tab, ..*old(self) }),
            final(self).active_tab == tab,
            final(self).palette_visible == old(self).palette_visible,
    {
        self.active_tab = tab;
    }

    /// The sidebar's toggle button.
    pub fn toggle_sidebar(&mut self)
        ensures
            *final(self) == (Shell {
                sidebar_collapsed: final(self).sidebar_collapsed,
                ..*old(self)
            }),
            final(self).sidebar_collapsed == !old(self).sidebar_collapsed,
            final(self).active_tab == old(self).active_tab,
    {
        self.sidebar_collapsed = !self.sidebar_collapsed;
    }

    /// The style class of the sidebar.
    pub fn sidebar_class(&self) -> (s: &'static str)
        ensures
            s@ == sidebar_class(self.sidebar_collapsed),
    {
        if self.sidebar_collapsed {
            "sidebar collapsed"
        } else {
            "sidebar"
        }
    }
}

/// Whether a language button is lit: its code is the current language.
pub fn language_button_active(current: &str, lang: &str) -> (b: bool)
    ensures
        b == (current@ == lang@),
{
    crate::text::same_text(current, lang)
}

/// The language buttons: code, label and title.
pub fn language_choices() -> (r: [(&'static str, &'static str, &'static str); 2])
    ensures
        r[0].0@ == "en"@ && r[0].1@ == "EN"@ && r[0].2@ == "English"@,
        r[1].0@ == "ja"@ && r[1].1@ == "JA"@ && r[1].2@ == "Japanese"@,
{
    [("en", "EN", "English"), ("ja", "JA", "Japanese")]
}

} // verus!
