use vstd::prelude::*;

use crate::time::{Instant, TimeSource};

verus! {

/// One of the two timestamp attributes of a file.
#[derive(Clone, Copy, Debug, PartialEq, Eq, Structural)]
pub enum Attribute {
    Access,
    Modify,
}

/// The words accepted by `--time`.
#[derive(Clone, Copy, Debug, PartialEq, Eq, Structural)]
pub enum Word {
    Access,
    Atime,
    Use,
    Modify,
    Mtime,
}

/// The attribute family that a word names.
#[derive(Clone, Copy, Debug, PartialEq, Eq, Structural)]
pub enum Category {
    AccessClass,
    ModifyClass,
}

/// `c` equals the lower-case letter or symbol `l`, where an upper-case ASCII
/// letter also matches its lower-case form.
pub open spec fn char_folds_to(c: char, l: char) -> bool {
    c == l || ('A' <= c && c <= 'Z' && c as u32 + 32 == l as u32)
}

/// `s` spells `w` with ASCII letters in either case.
pub open spec fn folds_to(s: Seq<char>, w: Seq<char>) -> bool {
    s.len() == w.len() && forall|i: int| 0 <= i < s.len() ==> char_folds_to(#[trigger] s[i], w[i])
}

/// The word that a `--time` argument names; anything unrecognised reads as `use`.
pub open spec fn word_of(s: Seq<char>) -> Word {
    if folds_to(s, "access"@) {
        Word::Access
    } else if folds_to(s, "atime"@) {
        Word::Atime
    } else if folds_to(s, "use"@) {
        Word::Use
    } else if folds_to(s, "modify"@) {
        Word::Modify
    } else if folds_to(s, "mtime"@) {
        Word::Mtime
    } else {
        Word::Use
    }
}

pub open spec fn category_spec(w: Word) -> Category {
    match w {
        Word::Access | Word::Atime | Word::Use => Category::AccessClass,
        Word::Modify | Word::Mtime => Category::ModifyClass,
    }
}

/// Whether `s` spells `w`, letters A to Z matching their lower-case forms.
fn spells(s: &str, w: &str) -> (r: bool)
    ensures
        r == folds_to(s@, w@),
{
    let n = s.unicode_len();
    if n != w.unicode_len() {
        return false;
    }
    let mut i: usize = 0;
    while i < n
        invariant
            n == s@.len(),
            n == w@.len(),
            i <= n,
            forall|j: int| 0 <= j < i ==> char_folds_to(#[trigger] s@[j], w@[j]),
        decreases n - i,
    {
        let c = s.get_char(i);
        let l = w.get_char(i);
        if !(c == l || ('A' <= c && c <= 'Z' && (c as u32) + 32 == l as u32)) {
            return false;
        }
        i = i + 1;
    }
    true
}

impl Word {
    /// Reads a `--time` argument, ignoring the case of ASCII letters; an
    /// unrecognised word reads as `use`.
    pub fn parse(s: &str) -> (r: Word)
        ensures
            r == word_of(s@),
    {
        if spells(s, "access") {
            Word::Access
        } else if spells(s, "atime") {
            Word::Atime
        } else if spells(s, "use") {
            Word::Use
        } else if spells(s, "modify") {
            Word::Modify
        } else if spells(s, "mtime") {
            Word::Mtime
        } else {
            Word::Use
        }
    }

    /// The attribute family this word selects.
    pub fn category(&self) -> (r: Category)
        ensures
            r == category_spec(*self),
    {
        match self {
            Word::Access | Word::Atime | Word::Use => Category::AccessClass,
            Word::Modify | Word::Mtime => Category::ModifyClass,
        }
    }
}

impl From<String> for Word {
    fn from(word: String) -> (r: Word) {
        Word::parse(word.as_str())
    }
}

impl vstd::std_specs::convert::FromSpecImpl<String> for Word {
    open spec fn obeys_from_spec() -> bool {
        true
    }

    open spec fn from_spec(word: String) -> Word {
        word_of(word@)
    }
}

/// The selection options: `-a`, `-m` and the word given to `--time`.
#[derive(Clone, Debug)]
pub struct SelectionFlags {
    pub access_only: bool,
    pub modify_only: bool,
    pub category: Option<String>,
}

/// What to write: the new access time and the new modification time, each
/// where that attribute is to change.
#[derive(Clone, Copy, Debug, PartialEq, Eq, Structural)]
pub struct TimestampInstruction {
    pub access: Option<Instant>,
    pub modify: Option<Instant>,
}

/// `s` spells one of the words that `--time` accepts.
pub open spec fn names_a_word(s: Seq<char>) -> bool {
    folds_to(s, "access"@) || folds_to(s, "atime"@) || folds_to(s, "use"@) || folds_to(s, "modify"@)
        || folds_to(s, "mtime"@)
}

/// The category that `--time` names, if it was given.
pub open spec fn flag_category(flags: SelectionFlags) -> Option<Category> {
    match flags.category {
        Some(s) => Some(category_spec(word_of(s@))),
        None => None,
    }
}

/// The instant that `source` gives for attribute `which`.
pub open spec fn pick_spec(source: TimeSource, which: Attribute) -> Instant {
    match (source, which) {
        (TimeSource::Single(t), _) => t,
        (TimeSource::Pair(a, _), Attribute::Access) => a,
        (TimeSource::Pair(_, m), Attribute::Modify) => m,
    }
}

/// Whether the access time changes under `-a` = `a`, `-m` = `m` and the
/// category `c` of `--time`.
///
/// An access-class word changes it whatever the flags say; with a
/// modify-class word it changes only under both `-a` and `-m`; with no word it
/// changes unless `-m` was given alone.
pub open spec fn sets_access(a: bool, m: bool, c: Option<Category>) -> bool {
    match c {
        None => a || !m,
        Some(Category::AccessClass) => true,
        Some(Category::ModifyClass) => a && m,
    }
}

/// Whether the modification time changes.
///
/// `-m` changes it whatever `--time` says, and so does a modify-class word;
/// otherwise it changes only when neither `-a` nor a word was given.
pub open spec fn sets_modify(a: bool, m: bool, c: Option<Category>) -> bool {
    match c {
        None => m || !a,
        Some(Category::AccessClass) => m,
        Some(Category::ModifyClass) => true,
    }
}

/// The instruction for `source` under `flags`.
pub open spec fn decide_spec(source: TimeSource, flags: SelectionFlags) -> TimestampInstruction {
    let c = flag_category(flags);
    TimestampInstruction {
        access: if sets_access(flags.access_only, flags.modify_only, c) {
            Some(pick_spec(source, Attribute::Access))
        } else {
            None
        },
        modify: if sets_modify(flags.access_only, flags.modify_only, c) {
            Some(pick_spec(source, Attribute::Modify))
        } else {
            None
        },
    }
}

/// The instant that `source` gives for attribute `which`: the single instant,
/// or the matching half of a pair.
pub fn pick(source: &TimeSource, which: Attribute) -> (r: Instant)
    ensures
        r == pick_spec(*source, which),
{
    match source {
        TimeSource::Single(t) => *t,
        TimeSource::Pair(a, m) => match which {
            Attribute::Access => *a,
            Attribute::Modify => *m,
        },
    }
}

impl TimestampInstruction {
    /// An instruction that changes nothing.
    pub fn none() -> (r: TimestampInstruction)
        ensures
            r.access is None,
            r.modify is None,
    {
        TimestampInstruction { access: None, modify: None }
    }

    /// Adds the access time of `source` to the instruction.
    pub fn set_access(&mut self, source: &TimeSource)
        ensures
            final(self).access == Some(pick_spec(*source, Attribute::Access)),
            final(self).modify == old(self).modify,
    {
        self.access = Some(pick(source, Attribute::Access));
    }

    /// Adds the modification time of `source` to the instruction.
    pub fn set_modified(&mut self, source: &TimeSource)
        ensures
            final(self).modify == Some(pick_spec(*source, Attribute::Modify)),
            final(self).access == old(self).access,
    {
        self.modify = Some(pick(source, Attribute::Modify));
    }

    /// Adds the attribute that `word` selects.
    pub fn on_time(&mut self, word: &str, source: &TimeSource)
        ensures
            category_spec(word_of(word@)) == Category::AccessClass ==> {
                &&& final(self).access == Some(pick_spec(*source, Attribute::Access))
                &&& final(self).modify == old(self).modify
            },
            category_spec(word_of(word@)) == Category::ModifyClass ==> {
                &&& final(self).modify == Some(pick_spec(*source, Attribute::Modify))
                &&& final(self).access == old(self).access
            },
    {
        match Word::parse(word).category() {
            Category::AccessClass => self.set_access(source),
            Category::ModifyClass => self.set_modified(source),
        }
    }
}

/// Decides which timestamps to overwrite, and with what.
///
/// The rules, first match wins: `-a` with `-m` sets both; `-a` alone sets
/// access; a `--time` word without `-m` sets its own attribute; `-m` alone sets
/// modify; `-m` with a `--time` word sets modify and then the word's attribute;
/// nothing at all sets both. The result never leaves both times unchanged.
pub fn decide(source: &TimeSource, flags: &SelectionFlags) -> (r: TimestampInstruction)
    ensures
        r == decide_spec(*source, *flags),
        r.access is Some || r.modify is Some,
{
    let mut r = TimestampInstruction::none();
    match (flags.access_only, flags.modify_only, &flags.category) {
        (true, true, _) => {
            r.set_access(source);
            r.set_modified(source);
        },
        (true, false, None) => r.set_access(source),
        (_, false, Some(w)) => {
            r.on_time(w.as_str(), source);
        },
        (false, true, None) => r.set_modified(source),
        (false, true, Some(w)) => {
            r.set_modified(source);
            r.on_time(w.as_str(), source);
        },
        (false, false, None) => {
            r.set_modified(source);
            r.set_access(source);
        },
    }
    r
}

/// An unrecognised `--time` word decides exactly as an access-class word
/// (`access`, `atime` or `use`) does, under any `-a` and `-m`.
pub proof fn lemma_unknown_word_is_access(
    source: TimeSource,
    unknown: SelectionFlags,
    known: SelectionFlags,
)
    requires
        unknown.access_only == known.access_only,
        unknown.modify_only == known.modify_only,
        unknown.category matches Some(w) && !names_a_word(w@),
        known.category matches Some(k) && category_spec(word_of(k@)) == Category::AccessClass,
    ensures
        decide_spec(source, unknown) == decide_spec(source, known),
{
}

} // verus!
