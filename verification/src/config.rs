//! The build's settings: a flat text of `key = value` lines, read into a mapping
//! from keys to values.

use crate::error::{BuildError, BuildErrorView};
use crate::text::{chars_of, find, lemma_position_is, position, same_text, text_of, trim_bounds,
    trimmed};
use vstd::prelude::*;

verus! {

/// The lines of `text`: what stands between its line feeds. A line feed at the
/// very end closes the last line and opens no further one.
pub open spec fn lines(text: Seq<char>) -> Seq<Seq<char>>
    decreases text.len(),
{
    if text.len() == 0 {
        Seq::empty()
    } else {
        let n = position(text, '\n') as int;
        if n < text.len() {
            seq![text.take(n)] + lines(text.skip(n + 1))
        } else {
            seq![text]
        }
    }
}

/// Whether a line stands for an entry: whether it holds an `=`.
pub open spec fn has_entry(line: Seq<char>) -> bool {
    position(line, '=') < line.len()
}

/// The key of a line's entry: what stands before the first `=`, without the
/// white space around it.
pub open spec fn line_key(line: Seq<char>) -> Seq<char> {
    trimmed(line.take(position(line, '=') as int))
}

/// The value of a line's entry: what stands after the first `=`, without the
/// white space around it.
pub open spec fn line_value(line: Seq<char>) -> Seq<char> {
    trimmed(line.skip(position(line, '=') as int + 1))
}

/// The entry that a line stands for. The first `=` parts the key from the value,
/// and both lose the white space around them; a line without `=` stands for none.
pub open spec fn line_entry(line: Seq<char>) -> Option<(Seq<char>, Seq<char>)> {
    if has_entry(line) {
        Some((line_key(line), line_value(line)))
    } else {
        None
    }
}

/// `base` after one more line: with the line's entry, which takes the place of an
/// earlier one under the same key, or unchanged where the line stands for none.
pub open spec fn with_line(base: Map<Seq<char>, Seq<char>>, line: Seq<char>) -> Map<
    Seq<char>,
    Seq<char>,
> {
    match line_entry(line) {
        Some((key, value)) => base.insert(key, value),
        None => base,
    }
}

/// `base` after the lines `ls`, taken in order.
pub open spec fn with_lines(base: Map<Seq<char>, Seq<char>>, ls: Seq<Seq<char>>) -> Map<
    Seq<char>,
    Seq<char>,
>
    decreases ls.len(),
{
    if ls.len() == 0 {
        base
    } else {
        with_lines(with_line(base, ls[0]), ls.drop_first())
    }
}

/// The mapping that a configuration text stands for.
pub open spec fn config_of_text(text: Seq<char>) -> Map<Seq<char>, Seq<char>> {
    with_lines(Map::empty(), lines(text))
}

/// Whether a line stands for an entry, as a predicate on lines.
pub open spec fn stands_for_entry() -> spec_fn(Seq<char>) -> bool {
    |line: Seq<char>| has_entry(line)
}

/// The text that is made of the lines `ls`, each closed by a line feed.
pub open spec fn text_of_lines(ls: Seq<Seq<char>>) -> Seq<char> {
    ls.map_values(|line: Seq<char>| line.push('\n')).flatten()
}

/// A text is read line by line: the lines of the text made of `ls` are `ls`
/// again, so long as no line holds a line feed itself.
pub proof fn lemma_lines_of_text(ls: Seq<Seq<char>>)
    requires
        forall|i: int| 0 <= i < ls.len() ==> !(#[trigger] ls[i]).contains('\n'),
    ensures
        lines(text_of_lines(ls)) == ls,
    decreases ls.len(),
{
    let close = |line: Seq<char>| line.push('\n');
    let text = text_of_lines(ls);
    if ls.len() == 0 {
        assert(lines(text) =~= ls);
    } else {
        let rest = ls.drop_first();
        let n = ls[0].len() as int;
        assert(ls.map_values(close).drop_first() =~= rest.map_values(close));
        assert(text == ls[0].push('\n') + text_of_lines(rest));
        assert forall|i: int| 0 <= i < n implies #[trigger] text[i] != '\n' by {
            assert(ls[0].contains(ls[0][i]));
        }
        lemma_position_is(text, '\n', n);
        assert(text.take(n) =~= ls[0]);
        assert(text.skip(n + 1) =~= text_of_lines(rest));
        assert forall|i: int| 0 <= i < rest.len() implies !(#[trigger] rest[i]).contains(
            '\n',
        ) by {
            assert(rest[i] == ls[i + 1]);
        }
        lemma_lines_of_text(rest);
        assert(lines(text) =~= ls);
    }
}

/// Lines that give `key` no entry leave it as it was: in the mapping or not, and
/// with the same value.
pub proof fn lemma_key_untouched(base: Map<Seq<char>, Seq<char>>, ls: Seq<Seq<char>>, key: Seq<char>)
    requires
        forall|j: int| 0 <= j < ls.len() && has_entry(#[trigger] ls[j]) ==> line_key(ls[j]) != key,
    ensures
        with_lines(base, ls).contains_key(key) == base.contains_key(key),
        base.contains_key(key) ==> with_lines(base, ls)[key] == base[key],
    decreases ls.len(),
{
    if ls.len() > 0 {
        let rest = ls.drop_first();
        assert forall|j: int| 0 <= j < rest.len() && has_entry(#[trigger] rest[j]) implies line_key(
            rest[j],
        ) != key by {
            assert(rest[j] == ls[j + 1]);
        }
        lemma_key_untouched(with_line(base, ls[0]), rest, key);
    }
}

/// Every well-formed line counts: the key of line `i` is in the mapping, and
/// its value is that line's, unless a later line gives the same key a value
/// again.
pub proof fn lemma_entry_is_kept(base: Map<Seq<char>, Seq<char>>, ls: Seq<Seq<char>>, i: int)
    requires
        0 <= i < ls.len(),
        has_entry(ls[i]),
        forall|j: int|
            i < j < ls.len() && has_entry(#[trigger] ls[j]) ==> line_key(ls[j]) != line_key(ls[i]),
    ensures
        with_lines(base, ls).contains_key(line_key(ls[i])),
        with_lines(base, ls)[line_key(ls[i])] == line_value(ls[i]),
    decreases ls.len(),
{
    let rest = ls.drop_first();
    let key = line_key(ls[i]);
    if i == 0 {
        assert forall|j: int| 0 <= j < rest.len() && has_entry(#[trigger] rest[j]) implies line_key(
            rest[j],
        ) != key by {
            assert(rest[j] == ls[j + 1]);
        }
        lemma_key_untouched(with_line(base, ls[0]), rest, key);
    } else {
        assert(rest[i - 1] == ls[i]);
        assert forall|j: int|
            i - 1 < j < rest.len() && has_entry(#[trigger] rest[j]) implies line_key(rest[j])
            != key by {
            assert(rest[j] == ls[j + 1]);
        }
        lemma_entry_is_kept(with_line(base, ls[0]), rest, i - 1);
    }
}

/// Malformed lines add nothing: the lines without an `=` can be left out, and
/// the mapping is the same.
pub proof fn lemma_other_lines_add_nothing(base: Map<Seq<char>, Seq<char>>, ls: Seq<Seq<char>>)
    ensures
        with_lines(base, ls) == with_lines(base, ls.filter(stands_for_entry())),
    decreases ls.len(),
{
    let keep = stands_for_entry();
    if ls.len() == 0 {
        assert(ls.filter(keep) =~= ls) by {
            reveal(Seq::filter);
        }
    } else {
        let rest = ls.drop_first();
        rest.lemma_filter_prepend(ls[0], keep);
        assert(seq![ls[0]] + rest =~= ls);
        lemma_other_lines_add_nothing(with_line(base, ls[0]), rest);
        if keep(ls[0]) {
            let kept = seq![ls[0]] + rest.filter(keep);
            assert(kept[0] == ls[0]);
            assert(kept.drop_first() =~= rest.filter(keep));
        } else {
            assert(Seq::<Seq<char>>::empty() + rest.filter(keep) =~= rest.filter(keep));
        }
    }
}

/// One `key = value` pair.
#[derive(Debug, Clone, PartialEq, Eq)]
pub struct ConfigEntry {
    pub key: String,
    pub value: String,
}

/// The mapping that a list of entries stands for: of two entries under one key
/// the later one counts.
pub open spec fn map_of(entries: Seq<ConfigEntry>) -> Map<Seq<char>, Seq<char>>
    decreases entries.len(),
{
    if entries.len() == 0 {
        Map::empty()
    } else {
        map_of(entries.drop_last()).insert(entries.last().key@, entries.last().value@)
    }
}

/// The settings of one build.
#[derive(Debug, Clone, PartialEq, Eq)]
pub struct Config {
    entries: Vec<ConfigEntry>,
}

impl View for Config {
    type V = Map<Seq<char>, Seq<char>>;

    closed spec fn view(&self) -> Map<Seq<char>, Seq<char>> {
        map_of(self.entries@)
    }
}

/// A key that no entry from `from` on has is a key of the whole list exactly when
/// it is one of the part before `from`, and with the same value.
proof fn lemma_map_of_tail(entries: Seq<ConfigEntry>, from: int, key: Seq<char>)
    requires
        0 <= from <= entries.len(),
        forall|j: int| from <= j < entries.len() ==> (#[trigger] entries[j]).key@ != key,
    ensures
        map_of(entries).contains_key(key) == map_of(entries.take(from)).contains_key(key),
        map_of(entries).contains_key(key) ==> map_of(entries)[key] == map_of(
            entries.take(from),
        )[key],
    decreases entries.len(),
{
    if from < entries.len() {
        let front = entries.drop_last();
        lemma_map_of_tail(front, from, key);
        assert(front.take(from) =~= entries.take(from));
    } else {
        assert(entries.take(from) =~= entries);
    }
}

impl Config {
    /// The configuration without any entry.
    pub fn new() -> (config: Config)
        ensures
            config@ == Map::<Seq<char>, Seq<char>>::empty(),
    {
        Config { entries: Vec::new() }
    }

    /// Reads a configuration text. Every line with an `=` in it gives an entry:
    /// the key is what stands before the first `=`, the value what stands after
    /// it, each without the white space around it. Other lines are passed over,
    /// and of two entries under one key the later one counts. No text is refused.
    pub fn parse(content: &str) -> (config: Config)
        ensures
            config@ == config_of_text(content@),
    {
        let chars = chars_of(content);
        let len: usize = chars.len();
        let mut entries: Vec<ConfigEntry> = Vec::new();
        let mut pos: usize = 0;
        assert(chars@.skip(0) =~= chars@);
        while pos < len
            invariant
                pos <= len,
                len == chars.len(),
                chars@ == content@,
                with_lines(map_of(entries@), lines(chars@.skip(pos as int))) == config_of_text(
                    content@,
                ),
            decreases len - pos,
        {
            let end = find(&chars, pos, len, '\n');
            let eq = find(&chars, pos, end, '=');
            let ghost rest = chars@.skip(pos as int);
            let ghost line = chars@.subrange(pos as int, end as int);
            let ghost before = map_of(entries@);
            let ghost earlier = entries@;
            proof {
                assert(chars@.subrange(pos as int, len as int) =~= rest);
                assert(lines(rest)[0] =~= line);
                assert(lines(rest).drop_first() =~= if end < len {
                    lines(rest.skip(end - pos + 1))
                } else {
                    Seq::empty()
                });
                assert(line.take(eq - pos) =~= chars@.subrange(pos as int, eq as int));
                if eq < end {
                    assert(line.skip(eq - pos + 1) =~= chars@.subrange(eq + 1, end as int));
                }
            }
            if eq < end {
                let (key_from, key_to) = trim_bounds(&chars, pos, eq);
                let (value_from, value_to) = trim_bounds(&chars, eq + 1, end);
                let entry = ConfigEntry {
                    key: text_of(&chars, key_from, key_to),
                    value: text_of(&chars, value_from, value_to),
                };
                entries.push(entry);
                assert(entries@.drop_last() =~= earlier);
            }
            assert(map_of(entries@) == with_line(before, line));
            if end < len {
                assert(rest.skip(end - pos + 1) =~= chars@.skip(end + 1));
                pos = end + 1;
            } else {
                assert(chars@.skip(len as int) =~= Seq::<char>::empty());
                pos = end;
            }
        }
        assert(lines(chars@.skip(pos as int)) =~= Seq::<Seq<char>>::empty());
        Config { entries }
    }

    /// The value under `key`, or the error that names the key where the
    /// configuration has none.
    pub fn get(&self, key: &str) -> (r: Result<&String, BuildError>)
        ensures
            match r {
                Ok(value) => self@.contains_key(key@) && value@ == self@[key@],
                Err(e) => !self@.contains_key(key@) && e@ == BuildErrorView::MissingKey(key@),
            },
    {
        let mut i: usize = self.entries.len();
        while i > 0
            invariant
                i <= self.entries.len(),
                forall|j: int| i <= j < self.entries.len() ==> (#[trigger] self.entries[j]).key@
                    != key@,
            decreases i,
        {
            i -= 1;
            if same_text(self.entries[i].key.as_str(), key) {
                proof {
                    lemma_map_of_tail(self.entries@, i + 1, key@);
                    assert(self.entries@.take(i + 1).drop_last() =~= self.entries@.take(i as int));
                }
                return Ok(&self.entries[i].value);
            }
        }
        proof {
            lemma_map_of_tail(self.entries@, 0, key@);
            assert(self.entries@.take(0) =~= Seq::<ConfigEntry>::empty());
        }
        Err(BuildError::MissingKey(String::from_str(key)))
    }
}

} // verus!
