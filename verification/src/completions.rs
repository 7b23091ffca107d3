use vstd::prelude::*;
use crate::label::{byte_len, CodeLabel, LabelRun};
use core::ops::Range;

verus! {

broadcast use vstd::string::group_string_axioms;

/// The kinds a completion item can have in the language server protocol;
/// `Other` stands for any code outside that list.
#[derive(Clone, Copy, Debug)]
pub enum CompletionKind {
    Text,
    Method,
    Function,
    Constructor,
    Field,
    Variable,
    Class,
    Interface,
    Module,
    Property,
    Unit,
    Value,
    Enum,
    Keyword,
    Snippet,
    Color,
    File,
    Reference,
    Folder,
    EnumMember,
    Constant,
    Struct,
    Event,
    Operator,
    TypeParameter,
    Other,
}

/// The parts of a completion item that the adapter reads or rewrites.
pub struct CompletionItem {
    pub label: String,
    pub kind: Option<CompletionKind>,
    pub detail: Option<String>,
    pub sort_text: Option<String>,
}

/// The protocol's name of a completion kind, as it appears in diagnostics.
pub open spec fn kind_name(kind: Option<CompletionKind>) -> Seq<char> {
    match kind {
        None => "None"@,
        Some(k) => match k {
            CompletionKind::Text => "TEXT"@,
            CompletionKind::Method => "METHOD"@,
            CompletionKind::Function => "FUNCTION"@,
            CompletionKind::Constructor => "CONSTRUCTOR"@,
            CompletionKind::Field => "FIELD"@,
            CompletionKind::Variable => "VARIABLE"@,
            CompletionKind::Class => "CLASS"@,
            CompletionKind::Interface => "INTERFACE"@,
            CompletionKind::Module => "MODULE"@,
            CompletionKind::Property => "PROPERTY"@,
            CompletionKind::Unit => "UNIT"@,
            CompletionKind::Value => "VALUE"@,
            CompletionKind::Enum => "ENUM"@,
            CompletionKind::Keyword => "KEYWORD"@,
            CompletionKind::Snippet => "SNIPPET"@,
            CompletionKind::Color => "COLOR"@,
            CompletionKind::File => "FILE"@,
            CompletionKind::Reference => "REFERENCE"@,
            CompletionKind::Folder => "FOLDER"@,
            CompletionKind::EnumMember => "ENUM_MEMBER"@,
            CompletionKind::Constant => "CONSTANT"@,
            CompletionKind::Struct => "STRUCT"@,
            CompletionKind::Event => "EVENT"@,
            CompletionKind::Operator => "OPERATOR"@,
            CompletionKind::TypeParameter => "TYPE_PARAMETER"@,
            CompletionKind::Other => "Unknown"@,
        },
    }
}

/// The line reported for a completion item of the given kind.
pub open spec fn kind_message(kind: Option<CompletionKind>) -> Seq<char> {
    match kind {
        Some(CompletionKind::Other) => "Unknown CompletionItemKind"@,
        _ => "The kind is "@ + kind_name(kind),
    }
}

/// The line reported for a completion item of the given kind.
pub fn completion_kind_message(kind: Option<CompletionKind>) -> (msg: String)
    ensures
        msg@ == kind_message(kind),
{
    let name: &str = match kind {
        None => "None",
        Some(k) => match k {
            CompletionKind::Text => "TEXT",
            CompletionKind::Method => "METHOD",
            CompletionKind::Function => "FUNCTION",
            CompletionKind::Constructor => "CONSTRUCTOR",
            CompletionKind::Field => "FIELD",
            CompletionKind::Variable => "VARIABLE",
            CompletionKind::Class => "CLASS",
            CompletionKind::Interface => "INTERFACE",
            CompletionKind::Module => "MODULE",
            CompletionKind::Property => "PROPERTY",
            CompletionKind::Unit => "UNIT",
            CompletionKind::Value => "VALUE",
            CompletionKind::Enum => "ENUM",
            CompletionKind::Keyword => "KEYWORD",
            CompletionKind::Snippet => "SNIPPET",
            CompletionKind::Color => "COLOR",
            CompletionKind::File => "FILE",
            CompletionKind::Reference => "REFERENCE",
            CompletionKind::Folder => "FOLDER",
            CompletionKind::EnumMember => "ENUM_MEMBER",
            CompletionKind::Constant => "CONSTANT",
            CompletionKind::Struct => "STRUCT",
            CompletionKind::Event => "EVENT",
            CompletionKind::Operator => "OPERATOR",
            CompletionKind::TypeParameter => "TYPE_PARAMETER",
            CompletionKind::Other => {
                return String::from_str("Unknown CompletionItemKind");
            },
        },
    };
    String::from_str("The kind is ").concat(name)
}

/// The highlight style under which a completion item's label is drawn, if
/// the item gets a styled label at all: methods (only when they carry a
/// detail), functions, classes and constants.
pub open spec fn completion_highlight(item: CompletionItem) -> Option<Seq<char>> {
    match item.kind {
        Some(CompletionKind::Method) => if item.detail is Some {
            Some("function.method"@)
        } else {
            None
        },
        Some(CompletionKind::Function) => Some("function"@),
        Some(CompletionKind::Class) => Some("type"@),
        Some(CompletionKind::Constant) => Some("constant"@),
        _ => None,
    }
}

/// Functions are drawn as functions, classes as types and constants as
/// constants, whatever detail the item carries; a method is drawn as a
/// method exactly when it carries a detail.
pub proof fn lemma_highlight_by_kind(item: CompletionItem)
    ensures
        item.kind matches Some(CompletionKind::Function) ==> completion_highlight(item) == Some(
            "function"@,
        ),
        item.kind matches Some(CompletionKind::Class) ==> completion_highlight(item) == Some("type"@),
        item.kind matches Some(CompletionKind::Constant) ==> completion_highlight(item) == Some(
            "constant"@,
        ),
        item.kind matches Some(CompletionKind::Method) ==> (completion_highlight(item) is Some
            <==> item.detail is Some),
        ((item.kind matches Some(CompletionKind::Method)) && item.detail is Some)
            ==> completion_highlight(item) == Some("function.method"@),
        item.kind is None ==> completion_highlight(item) is None,
        completion_highlight(item) is Some ==> ((item.kind matches Some(CompletionKind::Method)) || (item.kind matches Some(
            CompletionKind::Function,
        )) || (item.kind matches Some(CompletionKind::Class)) || (item.kind matches Some(
            CompletionKind::Constant,
        ))),
{
}

/// Two items of one kind other than a method get the same style, whatever
/// their labels, details and sort texts: only a method's style depends on
/// anything but its kind.
pub proof fn lemma_highlight_depends_on_kind_only(a: CompletionItem, b: CompletionItem)
    requires
        a.kind == b.kind,
        !(a.kind matches Some(CompletionKind::Method)),
    ensures
        completion_highlight(a) == completion_highlight(b),
{
}

/// The name of the highlight style to look up in the grammar for `item`, or
/// `None` when the item gets no styled label.
pub fn completion_highlight_name(item: &CompletionItem) -> (name: Option<&'static str>)
    ensures
        match name {
            Some(n) => completion_highlight(*item) == Some(n@),
            None => completion_highlight(*item) is None,
        },
        item.kind matches Some(CompletionKind::Function) ==> name matches Some(n) && n@ == "function"@,
        item.kind matches Some(CompletionKind::Class) ==> name matches Some(n) && n@ == "type"@,
        item.kind matches Some(CompletionKind::Constant) ==> name matches Some(n) && n@ == "constant"@,
        item.kind matches Some(CompletionKind::Method) ==> (name is Some <==> item.detail is Some),
        ((item.kind matches Some(CompletionKind::Method)) && item.detail is Some) ==> (name matches Some(
            n) && n@ == "function.method"@),
        item.kind is None ==> name is None,
        name is Some ==> ((item.kind matches Some(CompletionKind::Method)) || (item.kind matches Some(
            CompletionKind::Function,
        )) || (item.kind matches Some(CompletionKind::Class)) || (item.kind matches Some(
            CompletionKind::Constant,
        ))),
{
    match item.kind {
        Some(CompletionKind::Method) => if item.detail.is_some() {
            Some("function.method")
        } else {
            None
        },
        Some(CompletionKind::Function) => Some("function"),
        Some(CompletionKind::Class) => Some("type"),
        Some(CompletionKind::Constant) => Some("constant"),
        _ => None,
    }
}

/// The label of a completion item: its whole text drawn in one style, all of
/// it open to fuzzy matching. `highlight` is the style that the grammar
/// gave for the name of `completion_highlight_name(item)`; `None` when the
/// language has no grammar or the grammar has no such style.
pub fn completion_label(item: &CompletionItem, highlight: Option<u32>) -> (label: Option<
    CodeLabel,
>)
    requires
        byte_len(item.label@) <= usize::MAX,
    ensures
        label is Some <==> completion_highlight(*item) is Some && highlight is Some,
        label matches Some(l) ==> {
            &&& l.text@ == item.label@
            &&& l.runs@.len() == 1
            &&& l.runs@[0].range == (Range { start: 0usize, end: byte_len(item.label@) as usize })
            &&& Some(l.runs@[0].highlight) == highlight
            &&& l.filter_range == (Range { start: 0usize, end: byte_len(item.label@) as usize })
        },
        (highlight is Some && ((item.kind matches Some(CompletionKind::Function)) || (item.kind matches Some(
            CompletionKind::Class,
        )) || (item.kind matches Some(CompletionKind::Constant)))) ==> label is Some,
        (highlight is Some && (item.kind matches Some(CompletionKind::Method))) ==> (label is Some
            <==> item.detail is Some),
        label is Some ==> highlight is Some && ((item.kind matches Some(CompletionKind::Method)) || (item.kind matches Some(
            CompletionKind::Function,
        )) || (item.kind matches Some(CompletionKind::Class)) || (item.kind matches Some(
            CompletionKind::Constant,
        ))),
{
    if completion_highlight_name(item).is_none() {
        return None;
    }
    match highlight {
        None => None,
        Some(h) => {
            let len = item.label.as_str().len();
            let mut runs: Vec<LabelRun> = Vec::new();
            runs.push(LabelRun { range: Range { start: 0, end: len }, highlight: h });
            Some(CodeLabel {
                text: item.label.clone(),
                runs,
                filter_range: Range { start: 0, end: len },
            })
        },
    }
}

/// Number of '.' characters in `s`.
pub open spec fn dot_count(s: Seq<char>) -> nat
    decreases s.len(),
{
    if s.len() == 0 {
        0
    } else {
        dot_count(s.drop_last()) + if s.last() == '.' { 1nat } else { 0nat }
    }
}

/// `k` is the position of the second '.' in `s`.
pub open spec fn is_second_dot(s: Seq<char>, k: int) -> bool {
    0 <= k < s.len() && s[k] == '.' && dot_count(s.take(k)) == 1
}

/// Pyright's sort text `XX.YYYY.name` cut back to `XX.YYYY`: everything
/// before the second '.', or the whole text when it holds fewer than two.
pub open spec fn trimmed_sort_text(s: Seq<char>) -> Seq<char> {
    if exists|k: int| is_second_dot(s, k) {
        s.take(choose|k: int| is_second_dot(s, k))
    } else {
        s
    }
}

/// `new` is what trimming makes of the optional sort text `old`.
pub open spec fn sort_text_trimmed(old: Option<String>, new: Option<String>) -> bool {
    match old {
        None => new is None,
        Some(t) => new matches Some(u) && u@ == trimmed_sort_text(t@),
    }
}

proof fn lemma_dot_count_step(s: Seq<char>, i: int)
    requires
        0 <= i < s.len(),
    ensures
        dot_count(s.take(i + 1)) == dot_count(s.take(i)) + if s[i] == '.' { 1nat } else { 0nat },
{
    assert(s.take(i + 1).drop_last() =~= s.take(i));
}

proof fn lemma_dot_count_monotone(s: Seq<char>, i: int, j: int)
    requires
        0 <= i <= j <= s.len(),
    ensures
        dot_count(s.take(i)) <= dot_count(s.take(j)),
    decreases j - i,
{
    if i < j {
        lemma_dot_count_step(s, j - 1);
        lemma_dot_count_monotone(s, i, j - 1);
    }
}

proof fn lemma_second_dot_unique(s: Seq<char>, k1: int, k2: int)
    requires
        is_second_dot(s, k1),
        is_second_dot(s, k2),
    ensures
        k1 == k2,
{
    if k1 < k2 {
        lemma_dot_count_step(s, k1);
        lemma_dot_count_monotone(s, k1 + 1, k2);
    } else if k2 < k1 {
        lemma_dot_count_step(s, k2);
        lemma_dot_count_monotone(s, k2 + 1, k1);
    }
}

proof fn lemma_second_dot_exists(s: Seq<char>)
    requires
        dot_count(s) >= 2,
    ensures
        exists|k: int| is_second_dot(s, k),
    decreases s.len(),
{
    let t = s.drop_last();
    if dot_count(t) >= 2 {
        lemma_second_dot_exists(t);
        let k = choose|k: int| is_second_dot(t, k);
        assert(t.take(k) =~= s.take(k));
        assert(is_second_dot(s, k));
    } else {
        assert(s.take(s.len() - 1) =~= t);
        assert(is_second_dot(s, s.len() - 1));
    }
}

proof fn lemma_no_second_dot(s: Seq<char>)
    requires
        dot_count(s) <= 1,
    ensures
        forall|k: int| !is_second_dot(s, k),
{
    assert forall|k: int| !is_second_dot(s, k) by {
        if is_second_dot(s, k) {
            lemma_dot_count_step(s, k);
            lemma_dot_count_monotone(s, k + 1, s.len() as int);
            assert(s.take(s.len() as int) =~= s);
        }
    }
}

/// A sort text with fewer than two '.' is left as it is.
pub proof fn lemma_trim_keeps_short_text(s: Seq<char>)
    requires
        dot_count(s) <= 1,
    ensures
        trimmed_sort_text(s) == s,
{
    lemma_no_second_dot(s);
}

/// Trimming keeps a prefix of the sort text that holds at most one '.'; when
/// the text held two or more, the prefix holds exactly one and is followed
/// in the text by a '.'.
pub proof fn lemma_trim_keeps_prefix(s: Seq<char>)
    ensures
        trimmed_sort_text(s).len() <= s.len(),
        trimmed_sort_text(s) == s.take(trimmed_sort_text(s).len() as int),
        dot_count(trimmed_sort_text(s)) <= 1,
        dot_count(s) >= 2 ==> {
            &&& dot_count(trimmed_sort_text(s)) == 1
            &&& trimmed_sort_text(s).len() < s.len()
            &&& s[trimmed_sort_text(s).len() as int] == '.'
        },
{
    if exists|k: int| is_second_dot(s, k) {
        let k = choose|k: int| is_second_dot(s, k);
        assert(s.take(k).len() == k);
        assert(s.take(k).take(k) =~= s.take(k));
    } else {
        assert(s.take(s.len() as int) =~= s);
        if dot_count(s) >= 2 {
            lemma_second_dot_exists(s);
        }
    }
}

/// Trimming a trimmed sort text changes nothing.
pub proof fn lemma_trim_idempotent(s: Seq<char>)
    ensures
        trimmed_sort_text(trimmed_sort_text(s)) == trimmed_sort_text(s),
{
    lemma_trim_keeps_prefix(s);
    lemma_trim_keeps_short_text(trimmed_sort_text(s));
}

fn second_dot_index(s: &str) -> (r: Option<usize>)
    ensures
        match r {
            Some(k) => is_second_dot(s@, k as int),
            None => forall|k: int| !is_second_dot(s@, k),
        },
{
    let n = s.unicode_len();
    let mut dots: usize = 0;
    let mut idx: usize = 0;
    for c in it: s.chars()
        invariant
            n == s@.len(),
            it.seq() == s@,
            idx == it.index(),
            dots == dot_count(s@.take(idx as int)),
            dots <= 1,
            forall|k: int| k < idx ==> !is_second_dot(s@, k),
    {
        assert(s@.take(idx + 1).drop_last() == s@.take(idx as int));
        if c == '.' {
            if dots == 1 {
                return Some(idx);
            }
            dots = dots + 1;
        }
        idx = idx + 1;
    }
    None
}

/// Cuts a Pyright sort text back to its category and recency parts, so that
/// the symbol name it ends with no longer decides ties between items.
pub fn trim_sort_text(sort_text: &mut Option<String>)
    ensures
        sort_text_trimmed(*old(sort_text), *final(sort_text)),
{
    let cut = match sort_text {
        Some(text) => match second_dot_index(text.as_str()) {
            Some(k) => {
                proof {
                    assert forall|j: int| is_second_dot(text@, j) implies j == k by {
                        lemma_second_dot_unique(text@, j, k as int);
                    }
                }
                Some(String::from_str(text.as_str().substring_char(0, k)))
            },
            None => None,
        },
        None => None,
    };
    if let Some(prefix) = cut {
        *sort_text = Some(prefix);
    }
}

/// `new` is `old` with its sort text trimmed and all else kept.
pub open spec fn completion_processed(old: CompletionItem, new: CompletionItem) -> bool {
    &&& new.label == old.label
    &&& new.kind == old.kind
    &&& new.detail == old.detail
    &&& sort_text_trimmed(old.sort_text, new.sort_text)
}

/// Trims the sort text of every completion item that Pyright sent, so that
/// the editor's own fuzzy score breaks ties between items of one category.
pub fn process_completions(items: &mut Vec<CompletionItem>)
    ensures
        final(items)@.len() == old(items)@.len(),
        forall|i: int|
            0 <= i < old(items)@.len() ==> completion_processed(
                #[trigger] old(items)@[i],
                final(items)@[i],
            ),
{
    let n = items.len();
    for i in 0..n
        invariant
            n == old(items)@.len(),
            items@.len() == n,
            forall|j: int| 0 <= j < i ==> completion_processed(#[trigger] old(items)@[j], items@[j]),
            forall|j: int| i <= j < n ==> #[trigger] items@[j] == old(items)@[j],
    {
        trim_sort_text(&mut items[i].sort_text);
    }
}

} // verus!
