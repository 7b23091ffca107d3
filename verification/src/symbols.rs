use vstd::prelude::*;
use vstd::utf8::{decode_utf8, encode_utf8, encode_utf8_decode_utf8, is_char_boundary};
use crate::label::{
    byte_len, lemma_ascii_byte_len, lemma_boundary_after_prefix, lemma_encode_concat, CodeLabel,
    LabelRun,
};
use core::ops::Range;

verus! {

broadcast use vstd::utf8::encode_utf8_valid_utf8;

/// The kinds of workspace symbol that the adapter draws a label for; every
/// other kind of the protocol is `Other`.
#[derive(Clone, Copy, Debug)]
pub enum SymbolKind {
    Method,
    Function,
    Class,
    Constant,
    Other,
}

/// What comes before a symbol's name in the Python line that stands for it.
pub open spec fn symbol_prefix(kind: SymbolKind) -> Seq<char> {
    match kind {
        SymbolKind::Method | SymbolKind::Function => "def "@,
        SymbolKind::Class => "class "@,
        _ => ""@,
    }
}

/// What follows a symbol's name in the Python line that stands for it.
pub open spec fn symbol_suffix(kind: SymbolKind) -> Seq<char> {
    match kind {
        SymbolKind::Method | SymbolKind::Function => "():\n"@,
        SymbolKind::Class => ":"@,
        _ => " = 0"@,
    }
}

/// The adapter draws a label for methods, functions, classes and constants.
pub open spec fn has_symbol_label(kind: SymbolKind) -> bool {
    !(kind is Other)
}

/// A symbol's label before highlighting: a line of Python source that
/// defines the symbol, the byte range of it that the label shows, and the
/// byte range of the shown text that fuzzy matching looks at (the name).
pub struct SymbolSource {
    pub text: String,
    pub display_range: Range<usize>,
    pub filter_range: Range<usize>,
}

/// The shown part of `source` starts at its beginning and ends at a
/// character boundary inside its text.
pub open spec fn source_well_formed(source: SymbolSource) -> bool {
    &&& source.display_range.start == 0
    &&& source.display_range.end <= byte_len(source.text@)
    &&& is_char_boundary(encode_utf8(source.text@), source.display_range.end as int)
}

/// The text that the label of `source` shows.
pub open spec fn displayed_text(source: SymbolSource) -> Seq<char> {
    decode_utf8(encode_utf8(source.text@).take(source.display_range.end as int))
}

/// The Python line that stands for the symbol `name` of kind `kind`, with
/// the ranges of it that make up its label; `None` for kinds that get no
/// label.
pub fn symbol_source(name: &str, kind: SymbolKind) -> (source: Option<SymbolSource>)
    requires
        byte_len(name@) + 6 <= usize::MAX,
    ensures
        source is Some <==> has_symbol_label(kind),
        source matches Some(s) ==> {
            let prefix_len = symbol_prefix(kind).len();
            &&& s.text@ == symbol_prefix(kind) + name@ + symbol_suffix(kind)
            &&& s.display_range == (Range {
                start: 0usize,
                end: (prefix_len + byte_len(name@)) as usize,
            })
            &&& s.filter_range == (Range {
                start: prefix_len as usize,
                end: (prefix_len + byte_len(name@)) as usize,
            })
            &&& source_well_formed(s)
            &&& displayed_text(s) == symbol_prefix(kind) + name@
            &&& encode_utf8(displayed_text(s)).subrange(
                s.filter_range.start as int,
                s.filter_range.end as int,
            ) == encode_utf8(name@)
        },
        source matches Some(s) ==> ((kind is Method || kind is Function) ==> s.text@ == "def "@ + name@
            + "():\n"@ && s.filter_range.start == 4),
        source matches Some(s) ==> (kind is Class ==> s.text@ == "class "@ + name@ + ":"@
            && s.filter_range.start == 6),
        source matches Some(s) ==> (kind is Constant ==> s.text@ == name@ + " = 0"@
            && s.filter_range.start == 0),
        source matches Some(s) ==> s.filter_range.end == s.display_range.end
            && s.filter_range.end - s.filter_range.start == byte_len(name@),
{
    let (prefix, suffix): (&str, &str) = match kind {
        SymbolKind::Method | SymbolKind::Function => ("def ", "():\n"),
        SymbolKind::Class => ("class ", ":"),
        SymbolKind::Constant => ("", " = 0"),
        SymbolKind::Other => {
            return None;
        },
    };
    proof {
        reveal_strlit("def ");
        reveal_strlit("class ");
        reveal_strlit("");
        lemma_ascii_byte_len(prefix@);
    }
    let prefix_len = prefix.len();
    let name_len = name.len();
    let shown = String::from_str(prefix).concat(name);
    let text = shown.clone().concat(suffix);
    proof {
        lemma_encode_concat(prefix@, name@);
        lemma_encode_concat(shown@, suffix@);
        lemma_boundary_after_prefix(shown@, suffix@);
        encode_utf8_decode_utf8(shown@);
        assert(encode_utf8(text@).take(byte_len(shown@) as int) =~= encode_utf8(shown@));
        assert(text@ == symbol_prefix(kind) + name@ + symbol_suffix(kind));
        assert(encode_utf8(shown@).subrange(prefix@.len() as int, byte_len(shown@) as int)
            =~= encode_utf8(name@));
    }
    let end = prefix_len + name_len;
    Some(SymbolSource {
        text,
        display_range: Range { start: 0, end },
        filter_range: Range { start: prefix_len, end },
    })
}

/// The label of a symbol: the shown part of its source, drawn with the
/// `runs` that highlighting the source's shown range produced.
pub fn symbol_label(source: SymbolSource, runs: Vec<LabelRun>) -> (label: CodeLabel)
    requires
        source_well_formed(source),
    ensures
        label.text@ == displayed_text(source),
        label.runs@ == runs@,
        label.filter_range == source.filter_range,
{
    let (shown, _) = source.text.as_str().split_at(source.display_range.end);
    proof {
        encode_utf8_decode_utf8(shown@);
        assert(encode_utf8(source.text@).subrange(0, source.display_range.end as int)
            =~= encode_utf8(source.text@).take(source.display_range.end as int));
    }
    CodeLabel { text: String::from_str(shown), runs, filter_range: source.filter_range }
}

} // verus!
