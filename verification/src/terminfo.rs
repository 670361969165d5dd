//! A terminfo database entry as plain values.

use crate::capability::{is_safe_capability, safe_capability};
use crate::style::Attr;
use vstd::prelude::*;

verus! {

/// One parsed terminfo entry: the names of the terminal and its boolean,
/// numeric and string capabilities, each as a list of name and value. Where a
/// name occurs twice, the later value counts.
pub struct TerminfoEntry {
    /// Names for the terminal.
    pub names: Vec<String>,
    /// Boolean capabilities.
    pub bools: Vec<(String, bool)>,
    /// Numeric capabilities.
    pub numbers: Vec<(String, u16)>,
    /// String capabilities, raw and unexpanded.
    pub strings: Vec<(String, Vec<u8>)>,
}

/// What a [`TerminfoEntry`] holds.
pub struct TerminfoEntryView {
    pub names: Seq<Seq<char>>,
    pub bools: Seq<(Seq<char>, bool)>,
    pub numbers: Seq<(Seq<char>, u16)>,
    pub strings: Seq<(Seq<char>, Seq<u8>)>,
}

/// What a list of string capabilities holds.
pub open spec fn strings_view(strings: Seq<(String, Vec<u8>)>) -> Seq<(Seq<char>, Seq<u8>)> {
    strings.map_values(|pair: (String, Vec<u8>)| (pair.0@, pair.1@))
}

impl View for TerminfoEntry {
    type V = TerminfoEntryView;

    open spec fn view(&self) -> TerminfoEntryView {
        TerminfoEntryView {
            names: self.names@.map_values(|name: String| name@),
            bools: self.bools@.map_values(|pair: (String, bool)| (pair.0@, pair.1)),
            numbers: self.numbers@.map_values(|pair: (String, u16)| (pair.0@, pair.1)),
            strings: strings_view(self.strings@),
        }
    }
}

/// The view of an entry that may be missing.
pub open spec fn entry_view(entry: Option<TerminfoEntry>) -> Option<TerminfoEntryView> {
    match entry {
        Some(e) => Some(e@),
        None => None,
    }
}

/// The name of the string capability that renders an attribute.
pub open spec fn capability_name(attr: Attr) -> Seq<char> {
    match attr {
        Attr::Bold => "bold"@,
        Attr::Dim => "dim"@,
        Attr::Italic(true) => "sitm"@,
        Attr::Italic(false) => "ritm"@,
        Attr::Underline(true) => "smul"@,
        Attr::Underline(false) => "rmul"@,
        Attr::Blink => "blink"@,
        Attr::Standout(true) => "smso"@,
        Attr::Standout(false) => "rmso"@,
        Attr::Reverse => "rev"@,
        Attr::Secure => "invis"@,
        Attr::ForegroundColor(_) => "setaf"@,
        Attr::BackgroundColor(_) => "setab"@,
    }
}

/// The value of the numeric capability `name`: that of the last pair of
/// that name, if there is one.
pub open spec fn number_named(numbers: Seq<(Seq<char>, u16)>, name: Seq<char>) -> Option<u16>
    decreases numbers.len(),
{
    if numbers.len() == 0 {
        None
    } else if numbers.last().0 == name {
        Some(numbers.last().1)
    } else {
        number_named(numbers.drop_last(), name)
    }
}

/// Whether a string capability can be trusted to expand.
pub open spec fn is_safe_string(pair: (Seq<char>, Seq<u8>)) -> bool {
    safe_capability(pair.1)
}

impl TerminfoEntryView {
    /// Whether the entry has a string capability of this name.
    pub open spec fn has_string(self, name: Seq<char>) -> bool {
        exists|i: int| 0 <= i < self.strings.len() && (#[trigger] self.strings[i]).0 == name
    }

    /// How many colours a terminal made with the entry has: the entry's
    /// `colors`, and none unless it can set both foreground and background.
    pub open spec fn num_colors(self) -> u16 {
        if self.has_string("setaf"@) && self.has_string("setab"@) {
            match number_named(self.numbers, "colors"@) {
                Some(n) => n,
                None => 0,
            }
        } else {
            0
        }
    }

    /// Whether a terminal made with the entry can render `attr`: a colour
    /// where it has colours at all, any other attribute where the entry has
    /// the string capability for it.
    pub open spec fn supports(self, attr: Attr) -> bool {
        match attr {
            Attr::ForegroundColor(_) => self.num_colors() > 0,
            Attr::BackgroundColor(_) => self.num_colors() > 0,
            _ => self.has_string(capability_name(attr)),
        }
    }

    /// Whether every string capability of the entry can be trusted to
    /// expand.
    pub open spec fn is_safe(self) -> bool {
        forall|i: int| 0 <= i < self.strings.len() ==> is_safe_string(#[trigger] self.strings[i])
    }

    /// The entry without the string capabilities that cannot be trusted to
    /// expand. The others keep their order.
    pub open spec fn sanitized(self) -> TerminfoEntryView {
        TerminfoEntryView {
            strings: self.strings.filter(|pair: (Seq<char>, Seq<u8>)| is_safe_string(pair)),
            ..self
        }
    }
}

/// What is left of an entry is safe, and a safe entry is left as it is.
pub proof fn lemma_sanitized_is_safe(entry: TerminfoEntryView)
    ensures
        entry.sanitized().is_safe(),
        entry.is_safe() ==> entry.sanitized() == entry,
{
    let pred = |pair: (Seq<char>, Seq<u8>)| is_safe_string(pair);
    let kept = entry.strings.filter(pred);
    assert forall|i: int| 0 <= i < kept.len() implies is_safe_string(#[trigger] kept[i]) by {
        entry.strings.lemma_filter_pred(pred, i);
    }
    if entry.is_safe() {
        lemma_filter_keeps_all(entry.strings);
    }
}

/// Filtering a list whose every capability is safe keeps the list.
proof fn lemma_filter_keeps_all(strings: Seq<(Seq<char>, Seq<u8>)>)
    requires
        forall|i: int| 0 <= i < strings.len() ==> is_safe_string(#[trigger] strings[i]),
    ensures
        strings.filter(|pair: (Seq<char>, Seq<u8>)| is_safe_string(pair)) == strings,
    decreases strings.len(),
{
    let pred = |pair: (Seq<char>, Seq<u8>)| is_safe_string(pair);
    reveal(Seq::filter);
    if strings.len() > 0 {
        lemma_filter_keeps_all(strings.drop_last());
        assert(pred(strings.last()));
        assert(strings.drop_last().push(strings.last()) =~= strings);
    }
}

impl TerminfoEntry {
    /// Drops the string capabilities that cannot be trusted to expand.
    pub fn sanitize(self) -> (clean: TerminfoEntry)
        ensures
            clean@ == self@.sanitized(),
            clean@.is_safe(),
    {
        let TerminfoEntry { names, bools, numbers, strings } = self;
        let ghost all = strings@;
        let ghost pred = |pair: (Seq<char>, Seq<u8>)| is_safe_string(pair);
        let mut kept: Vec<(String, Vec<u8>)> = Vec::new();
        assert(strings_view(all.take(0)) =~= Seq::empty());
        assert(strings_view(kept@) =~= strings_view(all.take(0)).filter(pred)) by {
            reveal(Seq::filter);
        }
        for pair in it: strings
            invariant
                it.seq() == all,
                pred == |pair: (Seq<char>, Seq<u8>)| is_safe_string(pair),
                strings_view(kept@) == strings_view(all.take(it.index() as int)).filter(pred),
        {
            let ghost before = strings_view(all.take(it.index() as int));
            let ghost item = (pair.0@, pair.1@);
            proof {
                assert(strings_view(all.take(it.index() + 1)) =~= before.push(item));
                before.lemma_filter_push(item, pred);
            }
            if is_safe_capability(pair.1.as_slice()) {
                let ghost kept_before = kept@;
                kept.push(pair);
                assert(strings_view(kept@) =~= strings_view(kept_before).push(item));
            }
        }
        assert(all.take(all.len() as int) =~= all);
        let clean = TerminfoEntry { names, bools, numbers, strings: kept };
        proof {
            lemma_sanitized_is_safe(self@);
        }
        clean
    }
}

} // verus!
