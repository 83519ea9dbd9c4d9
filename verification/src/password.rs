//! The password generator: its options and their limits, what it asks the
//! backend for, and the list of generated passwords with their copy marks.
use vstd::prelude::*;
use crate::parse::parse_u32;
use crate::parse::unsigned_in;
use crate::text::extend_str;
use crate::text::from_chars;

verus! {

/// Whether passwords or passphrases are made.
#[derive(Clone, Copy, Debug, PartialEq, Eq, Structural)]
pub enum GeneratorMode {
    Password,
    Passphrase,
}

/// `v` brought into `lo..=hi` (`u32::clamp`).
pub open spec fn clamped(v: nat, lo: nat, hi: nat) -> nat {
    if v < lo {
        lo
    } else if v > hi {
        hi
    } else {
        v
    }
}

/// `v.clamp(lo, hi)`.
pub fn clamp_u32(v: u32, lo: u32, hi: u32) -> (r: u32)
    requires
        lo <= hi,
    ensures
        r == clamped(v as nat, lo as nat, hi as nat),
{
    if v < lo {
        lo
    } else if v > hi {
        hi
    } else {
        v
    }
}

/// The value a number field takes: the number read from `text`, clamped, or
/// the old value when the text is no number.
pub open spec fn field_value(text: Seq<char>, old: u32, lo: nat, hi: nat) -> nat {
    match unsigned_in(text, u32::MAX as nat) {
        Some(v) => clamped(v, lo, hi),
        None => old as nat,
    }
}

/// Reads a number field into `lo..=hi`; other text leaves the value alone.
fn read_field(text: &str, old: u32, lo: u32, hi: u32) -> (r: u32)
    requires
        lo <= hi,
    ensures
        r == field_value(text@, old, lo as nat, hi as nat),
{
    match parse_u32(text) {
        Some(v) => clamp_u32(v, lo, hi),
        None => old,
    }
}

/// The options of a password.
#[derive(Clone)]
pub struct PasswordOptions {
    pub length: u32,
    pub include_lowercase: bool,
    pub include_uppercase: bool,
    pub include_digits: bool,
    pub include_symbols: bool,
    pub exclude_ambiguous: bool,
    pub custom_exclude: String,
    pub count: u32,
}

/// The options of a passphrase.
#[derive(Clone)]
pub struct PassphraseOptions {
    pub word_count: u32,
    pub separator: String,
    pub capitalize: bool,
    pub include_number: bool,
    pub count: u32,
}

/// What the backend is asked to generate.
pub enum GenerateRequest {
    Passwords(PasswordOptions),
    Passphrases(PassphraseOptions),
}

/// One generated password as the backend describes it.
#[derive(Clone)]
pub struct GeneratedPassword {
    pub value: String,
    pub score: u32,
    pub label: String,
}

/// One password in the list, with its copy mark.
#[derive(Clone)]
pub struct DisplayPassword {
    pub value: String,
    pub strength: u32,
    pub strength_label: String,
    pub copied: bool,
}

/// The style class of a strength score.
pub open spec fn strength_class(score: u32) -> Seq<char> {
    if score == 1 {
        "strength-very-weak"@
    } else if score == 2 {
        "strength-weak"@
    } else if score == 3 {
        "strength-medium"@
    } else if score == 4 {
        "strength-strong"@
    } else {
        "strength-very-strong"@
    }
}

/// The style class of a strength score.
pub fn strength_class_of(score: u32) -> (s: &'static str)
    ensures
        s@ == strength_class(score),
{
    match score {
        1 => "strength-very-weak",
        2 => "strength-weak",
        3 => "strength-medium",
        4 => "strength-strong",
        _ => "strength-very-strong",
    }
}

/// The values joined with line breaks.
pub open spec fn joined_values(ps: Seq<DisplayPassword>) -> Seq<char>
    decreases ps.len(),
{
    if ps.len() == 0 {
        Seq::empty()
    } else if ps.len() == 1 {
        ps[0].value@
    } else {
        joined_values(ps.drop_last()) + seq!['\n'] + ps.last().value@
    }
}

/// What the generator shows and remembers.
#[derive(Clone)]
pub struct GeneratorState {
    pub mode: GeneratorMode,
    pub length: u32,
    pub include_lowercase: bool,
    pub include_uppercase: bool,
    pub include_digits: bool,
    pub include_symbols: bool,
    pub exclude_ambiguous: bool,
    pub custom_exclude: String,
    pub count: u32,
    pub word_count: u32,
    pub separator: String,
    pub capitalize: bool,
    pub include_number: bool,
    pub generated: Vec<DisplayPassword>,
    pub is_generating: bool,
    pub copy_all_feedback: bool,
}

impl GeneratorState {
    /// The limits that every field keeps: a length of 4 to 128 characters,
    /// 1 to 100 passwords at a time, passphrases of 2 to 10 words.
    pub open spec fn wf(&self) -> bool {
        &&& 4 <= self.length <= 128
        &&& 1 <= self.count <= 100
        &&& 2 <= self.word_count <= 10
    }

    /// The generator on opening: one password of sixteen characters of every
    /// kind; passphrases of four capitalised words joined by `-` with a number.
    pub fn new() -> (s: GeneratorState)
        ensures
            s.mode == GeneratorMode::Password,
            s.length == 16,
            s.include_lowercase && s.include_uppercase && s.include_digits && s.include_symbols,
            !s.exclude_ambiguous,
            s.custom_exclude@.len() == 0,
            s.count == 1,
            s.word_count == 4,
            s.separator@ == "-"@,
            s.capitalize && s.include_number,
            s.generated@.len() == 0,
            !s.is_generating,
            !s.copy_all_feedback,
            s.wf(),
    {
        GeneratorState {
            mode: GeneratorMode::Password,
            length: 16,
            include_lowercase: true,
            include_uppercase: true,
            include_digits: true,
            include_symbols: true,
            exclude_ambiguous: false,
            custom_exclude: String::new(),
            count: 1,
            word_count: 4,
            separator: "-".to_string(),
            capitalize: true,
            include_number: true,
            generated: Vec::new(),
            is_generating: false,
            copy_all_feedback: false,
        }
    }

    /// A mode button: the mode changes and the list empties.
    pub fn change_mode(&mut self, mode: GeneratorMode)
        ensures
            final(self).mode == mode,
            final(self).generated@.len() == 0,
            *final(self) == (GeneratorState {
                mode,
                generated: final(self).generated,
                ..*old(self)
            }),
            old(self).wf() ==> final(self).wf(),
    {
        self.mode = mode;
        self.generated = Vec::new();
    }

    /// The length field: a number is kept within 4..=128.
    pub fn set_length(&mut self, text: &str)
        ensures
            final(self).length == field_value(text@, old(self).length, 4, 128),
            *final(self) == (GeneratorState { length: final(self).length, ..*old(self) }),
            old(self).wf() ==> final(self).wf(),
    {
        self.length = read_field(text, self.length, 4, 128);
    }

    /// The count field: a number is kept within 1..=100.
    pub fn set_count(&mut self, text: &str)
        ensures
            final(self).count == field_value(text@, old(self).count, 1, 100),
            *final(self) == (GeneratorState { count: final(self).count, ..*old(self) }),
            old(self).wf() ==> final(self).wf(),
    {
        self.count = read_field(text, self.count, 1, 100);
    }

    /// The word count field: a number is kept within 2..=10.
    pub fn set_word_count(&mut self, text: &str)
        ensures
            final(self).word_count == field_value(text@, old(self).word_count, 2, 10),
            *final(self) == (GeneratorState { word_count: final(self).word_count, ..*old(self) }),
            old(self).wf() ==> final(self).wf(),
    {
        self.word_count = read_field(text, self.word_count, 2, 10);
    }

    /// The generate button: the work starts and the options of the current
    /// mode are handed over.
    pub fn generate(&mut self) -> (r: GenerateRequest)
        ensures
            *final(self) == (GeneratorState { is_generating: true, ..*old(self) }),
            old(self).wf() ==> final(self).wf(),
            match r {
                GenerateRequest::Passwords(o) => {
                    &&& old(self).mode == GeneratorMode::Password
                    &&& o.length == old(self).length
                    &&& o.include_lowercase == old(self).include_lowercase
                    &&& o.include_uppercase == old(self).include_uppercase
                    &&& o.include_digits == old(self).include_digits
                    &&& o.include_symbols == old(self).include_symbols
                    &&& o.exclude_ambiguous == old(self).exclude_ambiguous
                    &&& o.custom_exclude@ == old(self).custom_exclude@
                    &&& o.count == old(self).count
                },
                GenerateRequest::Passphrases(o) => {
                    &&& old(self).mode == GeneratorMode::Passphrase
                    &&& o.word_count == old(self).word_count
                    &&& o.separator@ == old(self).separator@
                    &&& o.capitalize == old(self).capitalize
                    &&& o.include_number == old(self).include_number
                    &&& o.count == old(self).count
                },
            },
    {
        self.is_generating = true;
        match self.mode {
            GeneratorMode::Password => GenerateRequest::Passwords(
                PasswordOptions {
                    length: self.length,
                    include_lowercase: self.include_lowercase,
                    include_uppercase: self.include_uppercase,
                    include_digits: self.include_digits,
                    include_symbols: self.include_symbols,
                    exclude_ambiguous: self.exclude_ambiguous,
                    custom_exclude: self.custom_exclude.clone(),
                    count: self.count,
                },
            ),
            GeneratorMode::Passphrase => GenerateRequest::Passphrases(
                PassphraseOptions {
                    word_count: self.word_count,
                    separator: self.separator.clone(),
                    capitalize: self.capitalize,
                    include_number: self.include_number,
                    count: self.count,
                },
            ),
        }
    }

    /// The backend answered (`None` when the answer could not be read): a
    /// success replaces the list, none of it marked copied. The work ends.
    pub fn on_generated(&mut self, reply: Option<(bool, Vec<GeneratedPassword>)>)
        ensures
            !final(self).is_generating,
            *final(self) == (GeneratorState {
                generated: final(self).generated,
                is_generating: false,
                ..*old(self)
            }),
            old(self).wf() ==> final(self).wf(),
            match reply {
                Some((true, ps)) => {
                    &&& final(self).generated@.len() == ps@.len()
                    &&& forall|i: int|
                        0 <= i < ps@.len() ==> {
                            &&& final(self).generated@[i].value@ == ps@[i].value@
                            &&& final(self).generated@[i].strength == ps@[i].score
                            &&& final(self).generated@[i].strength_label@ == ps@[i].label@
                            &&& !final(self).generated@[i].copied
                        }
                },
                _ => *final(self) == (GeneratorState { is_generating: false, ..*old(self) }),
            },
    {
        match reply {
            Some((success, ps)) => {
                if success {
                    let mut out: Vec<DisplayPassword> = Vec::new();
                    let mut i: usize = 0;
                    while i < ps.len()
                        invariant
                            i <= ps.len(),
                            out@.len() == i,
                            forall|j: int|
                                0 <= j < i ==> {
                                    &&& out@[j].value@ == ps@[j].value@
                                    &&& out@[j].strength == ps@[j].score
                                    &&& out@[j].strength_label@ == ps@[j].label@
                                    &&& !out@[j].copied
                                },
                        decreases ps.len() - i,
                    {
                        out.push(
                            DisplayPassword {
                                value: ps[i].value.clone(),
                                strength: ps[i].score,
                                strength_label: ps[i].label.clone(),
                                copied: false,
                            },
                        );
                        i += 1;
                    }
                    self.generated = out;
                }
            },
            None => {},
        }
        self.is_generating = false;
    }

    /// The value the copy button of row `index` copies.
    pub fn value_at(&self, index: usize) -> (r: Option<String>)
        ensures
            index < self.generated@.len() ==> (r matches Some(v) && v@
                == self.generated@[index as int].value@),
            index >= self.generated@.len() ==> r is None,
    {
        if index < self.generated.len() {
            Some(self.generated[index].value.clone())
        } else {
            None
        }
    }

    /// Marks row `index` as copied (or no longer); other rows stay as they are.
    pub fn set_copied(&mut self, index: usize, copied: bool)
        ensures
            *final(self) == (GeneratorState { generated: final(self).generated, ..*old(self) }),
            old(self).wf() ==> final(self).wf(),
            final(self).generated@.len() == old(self).generated@.len(),
            forall|i: int|
                0 <= i < old(self).generated@.len() ==> {
                    &&& final(self).generated@[i].value == old(self).generated@[i].value
                    &&& final(self).generated@[i].strength == old(self).generated@[i].strength
                    &&& final(self).generated@[i].strength_label == old(
                        self,
                    ).generated@[i].strength_label
                    &&& final(self).generated@[i].copied == (if i == index {
                        copied
                    } else {
                        old(self).generated@[i].copied
                    })
                },
    {
        if index < self.generated.len() {
            let mut p = self.generated.remove(index);
            p.copied = copied;
            self.generated.insert(index, p);
        }
    }

    /// What "copy all" copies: every value, one per line; nothing for an
    /// empty list.
    pub fn copy_all_text(&self) -> (r: Option<String>)
        ensures
            self.generated@.len() == 0 <==> r is None,
            r matches Some(t) ==> t@ == joined_values(self.generated@),
    {
        if self.generated.len() == 0 {
            return None;
        }
        let ghost ps = self.generated@;
        let mut out: Vec<char> = Vec::new();
        let mut i: usize = 0;
        while i < self.generated.len()
            invariant
                i <= self.generated.len(),
                ps == self.generated@,
                out@ == joined_values(ps.take(i as int)),
            decreases self.generated.len() - i,
        {
            assert(ps.take(i + 1).drop_last() =~= ps.take(i as int));
            if i > 0 {
                out.push('\n');
            }
            extend_str(&mut out, self.generated[i].value.as_str());
            proof {
                if i == 0 {
                    assert(ps.take(1)[0] == ps[0]);
                }
                assert(out@ =~= joined_values(ps.take(i + 1)));
            }
            i += 1;
        }
        assert(ps.take(self.generated.len() as int) =~= ps);
        Some(from_chars(&out))
    }
}

} // verus!
