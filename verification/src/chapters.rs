//! Chapters: which files of the source directory go into a book, in which
//! order, and what the book's source text is.

use crate::text::{ends_with, lex_le, lex_order, lemma_lex_connected, lemma_lex_total_ordering,
    lemma_lex_transitive, precedes, same_text, starts_with};
use vstd::prelude::*;
use vstd::relations::*;
use vstd::seq_lib::*;

verus! {

/// Which chapters a book is made of.
#[derive(Debug, Clone, Copy, PartialEq, Eq, Structural)]
pub enum ChapterRule {
    /// Every chapter.
    All,
    /// The chapters of the sample: those numbered `00` and `01`.
    Sample,
    /// Every chapter but the preface.
    WithoutPreface,
}

/// One entry of the source directory.
#[derive(Debug, Clone, PartialEq, Eq)]
pub struct ChapterEntry {
    /// The entry's file name, without the directory.
    pub name: String,
    /// Whether the entry is a regular file.
    pub is_file: bool,
}

/// A `ChapterEntry` with its name as a character sequence.
pub struct EntryView {
    pub name: Seq<char>,
    pub is_file: bool,
}

impl View for ChapterEntry {
    type V = EntryView;

    open spec fn view(&self) -> EntryView {
        EntryView { name: self.name@, is_file: self.is_file }
    }
}

impl DeepView for ChapterEntry {
    type V = EntryView;

    open spec fn deep_view(&self) -> EntryView {
        self@
    }
}

/// Whether `name` has the extension `md`: it ends in `.md`, and something stands
/// before that.
pub open spec fn has_markdown_extension(name: Seq<char>) -> bool {
    name.len() > 3 && ".md"@.is_suffix_of(name)
}

/// Whether a file called `name` is a chapter under `rule`.
pub open spec fn rule_accepts(rule: ChapterRule, name: Seq<char>) -> bool {
    match rule {
        ChapterRule::All => has_markdown_extension(name),
        ChapterRule::Sample => ("00"@.is_prefix_of(name) || "01"@.is_prefix_of(name))
            && has_markdown_extension(name),
        ChapterRule::WithoutPreface => name != "00_preface.md"@ && has_markdown_extension(name),
    }
}

/// Whether the entry `e` is a chapter under `rule`: a regular file whose name the
/// rule accepts.
pub open spec fn is_chapter(rule: ChapterRule, e: EntryView) -> bool {
    e.is_file && rule_accepts(rule, e.name)
}

/// The names of the chapters under `rule`, in the order of the listing.
pub open spec fn chapter_names(entries: Seq<EntryView>, rule: ChapterRule) -> Seq<Seq<char>> {
    entries.filter(|e: EntryView| is_chapter(rule, e)).map_values(|e: EntryView| e.name)
}

/// The names of the chapters under `rule`, in the order in which they are read:
/// ascending, lexicographic.
pub open spec fn selected(entries: Seq<EntryView>, rule: ChapterRule) -> Seq<Seq<char>> {
    chapter_names(entries, rule).sort_by(lex_order())
}

/// One chapter's text as it stands in a book's source: after an empty line, and
/// with an empty line after it.
pub open spec fn framed(content: Seq<char>) -> Seq<char> {
    "\n"@ + content + "\n\n"@
}

/// A book's source: the chapters' texts in order, each framed.
pub open spec fn combined(contents: Seq<Seq<char>>) -> Seq<char> {
    contents.map_values(|c: Seq<char>| framed(c)).flatten()
}

/// One more entry adds its name to the chapters' names, where it is a chapter.
proof fn lemma_chapter_names_push(entries: Seq<EntryView>, e: EntryView, rule: ChapterRule)
    ensures
        chapter_names(entries.push(e), rule) == if is_chapter(rule, e) {
            chapter_names(entries, rule).push(e.name)
        } else {
            chapter_names(entries, rule)
        },
{
    let pred = |e: EntryView| is_chapter(rule, e);
    entries.lemma_filter_push(e, pred);
    if is_chapter(rule, e) {
        assert(entries.filter(pred).push(e).map_values(|e: EntryView| e.name)
            =~= entries.filter(pred).map_values(|e: EntryView| e.name).push(e.name));
    }
}

/// How often a name stands among the chapters' names: as often as the listing
/// holds a regular file of that name, where the rule accepts the name, and not at
/// all where it does not.
pub proof fn lemma_chapter_names_count(entries: Seq<EntryView>, rule: ChapterRule, name: Seq<char>)
    ensures
        chapter_names(entries, rule).to_multiset().count(name) == if rule_accepts(rule, name) {
            entries.to_multiset().count((EntryView { name, is_file: true }))
        } else {
            0
        },
    decreases entries.len(),
{
    broadcast use vstd::multiset::group_multiset_axioms;

    let file = EntryView { name, is_file: true };
    if entries.len() == 0 {
        assert(chapter_names(entries, rule) =~= Seq::<Seq<char>>::empty()) by {
            reveal(Seq::filter);
        }
        entries.to_multiset_ensures();
        chapter_names(entries, rule).to_multiset_ensures();
    } else {
        let front = entries.drop_last();
        let last = entries.last();
        assert(front.push(last) =~= entries);
        lemma_chapter_names_count(front, rule, name);
        lemma_chapter_names_push(front, last, rule);
        front.to_multiset_ensures();
        chapter_names(front, rule).to_multiset_ensures();
    }
}

/// The chapters chosen are exactly the regular files that the rule accepts, no
/// more and no fewer, and they stand in ascending order.
pub proof fn lemma_selected_is_exact(entries: Seq<EntryView>, rule: ChapterRule, name: Seq<char>)
    ensures
        selected(entries, rule).contains(name) <==> rule_accepts(rule, name) && entries.contains(
            (EntryView { name, is_file: true }),
        ),
        sorted_by(selected(entries, rule), lex_order()),
{
    let listed = chapter_names(entries, rule);
    lemma_lex_total_ordering();
    listed.lemma_sort_by_ensures(lex_order());
    lemma_chapter_names_count(entries, rule, name);
    selected(entries, rule).to_multiset_ensures();
    entries.to_multiset_ensures();
}

/// The order in which the directory lists its entries plays no part: two
/// listings that hold the same entries give the same chapters in the same order,
/// and so, from the same texts, the same book.
pub proof fn lemma_listing_order_is_immaterial(
    a: Seq<EntryView>,
    b: Seq<EntryView>,
    rule: ChapterRule,
    text_of: spec_fn(Seq<char>) -> Seq<char>,
)
    requires
        a.to_multiset() == b.to_multiset(),
    ensures
        selected(a, rule) == selected(b, rule),
        combined(selected(a, rule).map_values(text_of)) == combined(
            selected(b, rule).map_values(text_of),
        ),
{
    let names_a = chapter_names(a, rule);
    let names_b = chapter_names(b, rule);
    assert forall|name: Seq<char>|
        names_a.to_multiset().count(name) == names_b.to_multiset().count(name) by {
        lemma_chapter_names_count(a, rule, name);
        lemma_chapter_names_count(b, rule, name);
    }
    assert(names_a.to_multiset() =~= names_b.to_multiset());
    lemma_lex_total_ordering();
    names_a.lemma_sort_by_ensures(lex_order());
    names_b.lemma_sort_by_ensures(lex_order());
    lemma_sorted_unique(selected(a, rule), selected(b, rule), lex_order());
}

/// The sample holds chapters of the book only, and the book without its preface
/// is the book less the one file `00_preface.md`.
pub proof fn lemma_rules_narrow(name: Seq<char>)
    ensures
        rule_accepts(ChapterRule::Sample, name) ==> rule_accepts(ChapterRule::All, name),
        rule_accepts(ChapterRule::WithoutPreface, name) <==> rule_accepts(ChapterRule::All, name)
            && name != "00_preface.md"@,
{
}

/// Whether `name` has the extension `md`.
pub fn is_markdown(name: &str) -> (r: bool)
    ensures
        r == has_markdown_extension(name@),
{
    let len = name.unicode_len();
    len > 3 && ends_with(name, ".md")
}

impl ChapterRule {
    /// Whether a file called `name` is a chapter under this rule.
    pub fn accepts(&self, name: &str) -> (r: bool)
        ensures
            r == rule_accepts(*self, name@),
    {
        match self {
            ChapterRule::All => is_markdown(name),
            ChapterRule::Sample => (starts_with(name, "00") || starts_with(name, "01"))
                && is_markdown(name),
            ChapterRule::WithoutPreface => !same_text(name, "00_preface.md") && is_markdown(name),
        }
    }
}

/// Puts `name` into the sorted list `names`, at its place.
fn insert_sorted(names: &mut Vec<String>, name: String)
    requires
        sorted_by(old(names).deep_view(), lex_order()),
    ensures
        sorted_by(final(names).deep_view(), lex_order()),
        final(names).deep_view().to_multiset() == old(names).deep_view().to_multiset().insert(
            name@,
        ),
{
    let ghost before = names.deep_view();
    let mut at: usize = 0;
    while at < names.len() && precedes(names[at].as_str(), name.as_str())
        invariant
            at <= names.len(),
            names.deep_view() == before,
            forall|k: int| 0 <= k < at ==> lex_le(#[trigger] before[k], name@),
        decreases names.len() - at,
    {
        at += 1;
    }
    names.insert(at, name);
    proof {
        let after = names.deep_view();
        assert(after =~= before.insert(at as int, name@));
        to_multiset_insert(before, at as int, name@);
        assert forall|i: int, j: int| 0 <= i < j < after.len() implies lex_le(
            after[i],
            after[j],
        ) by {
            if j == at {
            } else if i == at {
                lemma_lex_connected(before[at as int], name@);
                if j - 1 > at {
                    assert(lex_order()(before[at as int], before[j - 1]));
                    lemma_lex_transitive(name@, before[at as int], before[j - 1]);
                }
            } else {
                let bi = if i < at { i } else { i - 1 };
                let bj = if j < at { j } else { j - 1 };
                assert(lex_order()(before[bi], before[bj]));
            }
        }
    }
}

/// The chapters to read under `rule`, in reading order: the names of the regular
/// files among `entries` that the rule accepts, ascending. The order in which the
/// directory listed them plays no part.
pub fn select_chapters(entries: &Vec<ChapterEntry>, rule: ChapterRule) -> (names: Vec<String>)
    ensures
        names.deep_view() == selected(entries.deep_view(), rule),
        sorted_by(names.deep_view(), lex_order()),
        names.deep_view().to_multiset() == chapter_names(entries.deep_view(), rule).to_multiset(),
{
    let mut names: Vec<String> = Vec::new();
    let mut i: usize = 0;
    assert(entries.deep_view().take(0) =~= Seq::<EntryView>::empty());
    assert(names.deep_view() =~= Seq::<Seq<char>>::empty());
    assert(chapter_names(Seq::<EntryView>::empty(), rule) =~= Seq::<Seq<char>>::empty()) by {
        reveal(Seq::filter);
    }
    while i < entries.len()
        invariant
            i <= entries.len(),
            sorted_by(names.deep_view(), lex_order()),
            names.deep_view().to_multiset() == chapter_names(
                entries.deep_view().take(i as int),
                rule,
            ).to_multiset(),
        decreases entries.len() - i,
    {
        proof {
            let seen = entries.deep_view().take(i as int);
            assert(entries.deep_view().take(i + 1) =~= seen.push(entries[i as int]@));
            lemma_chapter_names_push(seen, entries[i as int]@, rule);
            chapter_names(seen, rule).to_multiset_ensures();
        }
        if entries[i].is_file && rule.accepts(entries[i].name.as_str()) {
            insert_sorted(&mut names, entries[i].name.clone());
        }
        i += 1;
    }
    proof {
        assert(entries.deep_view().take(i as int) =~= entries.deep_view());
        let listed = chapter_names(entries.deep_view(), rule);
        lemma_lex_total_ordering();
        listed.lemma_sort_by_ensures(lex_order());
        lemma_sorted_unique(names.deep_view(), listed.sort_by(lex_order()), lex_order());
    }
    names
}

/// A book's source text: the chapters' texts in the order given, each after an
/// empty line and with an empty line after it.
pub fn combine(contents: &Vec<String>) -> (out: String)
    ensures
        out@ == combined(contents.deep_view()),
{
    let mut out = String::new();
    let mut i: usize = 0;
    let ghost frame = |c: Seq<char>| framed(c);
    assert(contents.deep_view().take(0).map_values(frame) =~= Seq::<Seq<char>>::empty());
    while i < contents.len()
        invariant
            i <= contents.len(),
            frame == |c: Seq<char>| framed(c),
            out@ == contents.deep_view().take(i as int).map_values(frame).flatten(),
        decreases contents.len() - i,
    {
        let ghost before = contents.deep_view().take(i as int).map_values(frame);
        out.append("\n");
        out.append(contents[i].as_str());
        out.append("\n\n");
        proof {
            let next = contents.deep_view().take(i + 1).map_values(frame);
            assert(next =~= before.push(framed(contents[i as int]@)));
            before.lemma_flatten_push(framed(contents[i as int]@));
        }
        i += 1;
    }
    assert(contents.deep_view().take(i as int) =~= contents.deep_view());
    out
}

} // verus!
