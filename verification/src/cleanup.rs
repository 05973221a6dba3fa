//! What is left of the build directory when the build is over.

use crate::text::same_text;
use vstd::prelude::*;

verus! {

/// Whether a file called `name` is one of the four results of a build: the book
/// and the sample, each as PDF and as EPUB 3.
pub open spec fn is_result_name(name: Seq<char>) -> bool {
    ||| name == "ebook.pdf"@
    ||| name == "sample_ebook.pdf"@
    ||| name == "ebook_epub3.epub"@
    ||| name == "sample_ebook_epub3.epub"@
}

/// The positions in `names` of the files that are no results, ascending.
pub open spec fn stale_positions(names: Seq<Seq<char>>) -> Seq<usize>
    decreases names.len(),
{
    if names.len() == 0 {
        Seq::empty()
    } else if is_result_name(names.last()) {
        stale_positions(names.drop_last())
    } else {
        stale_positions(names.drop_last()).push((names.len() - 1) as usize)
    }
}

/// The names of the four results of a build.
pub open spec fn result_names() -> Set<Seq<char>> {
    set!["ebook.pdf"@, "sample_ebook.pdf"@, "ebook_epub3.epub"@, "sample_ebook_epub3.epub"@]
}

/// The names of the files that the cleanup leaves: those at the positions that
/// are not stale.
pub open spec fn names_left(names: Seq<Seq<char>>) -> Set<Seq<char>> {
    Set::new(
        |name: Seq<char>|
            exists|i: int|
                0 <= i < names.len() && #[trigger] names[i] == name && !stale_positions(
                    names,
                ).contains(i as usize),
    )
}

/// A position is stale exactly when the file there is no result; the stale
/// positions ascend and lie within the list.
pub proof fn lemma_stale_positions(names: Seq<Seq<char>>)
    requires
        names.len() <= usize::MAX,
    ensures
        forall|i: int|
            0 <= i < names.len() ==> (stale_positions(names).contains(i as usize)
                <==> !is_result_name(#[trigger] names[i])),
        forall|k: int|
            0 <= k < stale_positions(names).len() ==> (#[trigger] stale_positions(names)[k])
                < names.len(),
        forall|k: int, l: int|
            0 <= k < l < stale_positions(names).len() ==> stale_positions(names)[k]
                < stale_positions(names)[l],
    decreases names.len(),
{
    if names.len() > 0 {
        let front = names.drop_last();
        let here = (names.len() - 1) as usize;
        lemma_stale_positions(front);
        let before = stale_positions(front);
        let now = stale_positions(names);
        assert forall|i: int| 0 <= i < names.len() implies (now.contains(i as usize)
            <==> !is_result_name(#[trigger] names[i])) by {
            if i < names.len() - 1 {
                assert(front[i] == names[i]);
                if before.contains(i as usize) {
                    let k = choose|k: int| 0 <= k < before.len() && before[k] == i as usize;
                    assert(now[k] == i as usize);
                }
                if now.contains(i as usize) {
                    let k = choose|k: int| 0 <= k < now.len() && now[k] == i as usize;
                    assert(k < before.len());
                    assert(before[k] == i as usize);
                }
            } else {
                if !is_result_name(names[i]) {
                    assert(now[now.len() - 1] == here);
                } else if now.contains(i as usize) {
                    let k = choose|k: int| 0 <= k < now.len() && now[k] == i as usize;
                    assert(before[k] < front.len());
                }
            }
        }
    }
}

/// After the cleanup only results are left, however many other files there
/// were; and where the build has made all four results, the files left are
/// exactly these four.
pub proof fn lemma_only_results_are_left(names: Seq<Seq<char>>)
    requires
        names.len() <= usize::MAX,
    ensures
        names_left(names).subset_of(result_names()),
        (forall|name: Seq<char>| result_names().contains(name) ==> names.contains(name))
            ==> names_left(names) == result_names(),
{
    lemma_stale_positions(names);
    assert forall|name: Seq<char>| names_left(names).contains(name) implies result_names().contains(
        name,
    ) by {
        let i = choose|i: int|
            0 <= i < names.len() && #[trigger] names[i] == name && !stale_positions(
                names,
            ).contains(i as usize);
        assert(is_result_name(names[i]));
    }
    if forall|name: Seq<char>| result_names().contains(name) ==> names.contains(name) {
        assert forall|name: Seq<char>| result_names().contains(name) implies names_left(
            names,
        ).contains(name) by {
            assert(names.contains(name));
            let i = choose|i: int| 0 <= i < names.len() && names[i] == name;
            assert(is_result_name(names[i]));
            assert(!stale_positions(names).contains(i as usize));
        }
        assert(names_left(names) =~= result_names());
    }
}

/// Whether a file called `name` is one of the four results of a build.
pub fn is_result(name: &str) -> (r: bool)
    ensures
        r == is_result_name(name@),
{
    same_text(name, "ebook.pdf") || same_text(name, "sample_ebook.pdf") || same_text(
        name,
        "ebook_epub3.epub",
    ) || same_text(name, "sample_ebook_epub3.epub")
}

/// The files to delete at the end of a build. `names` holds the file name of
/// each regular file found in the build directory; the result holds the
/// positions in `names` of those that are no results, ascending.
pub fn stale_files(names: &Vec<String>) -> (stale: Vec<usize>)
    ensures
        stale@ == stale_positions(names.deep_view()),
{
    let mut stale: Vec<usize> = Vec::new();
    let mut i: usize = 0;
    assert(names.deep_view().take(0) =~= Seq::<Seq<char>>::empty());
    while i < names.len()
        invariant
            i <= names.len(),
            stale@ == stale_positions(names.deep_view().take(i as int)),
        decreases names.len() - i,
    {
        proof {
            let next = names.deep_view().take(i + 1);
            assert(next.drop_last() =~= names.deep_view().take(i as int));
            assert(next.last() == names[i as int]@);
        }
        if !is_result(names[i].as_str()) {
            stale.push(i);
        }
        i += 1;
    }
    assert(names.deep_view().take(i as int) =~= names.deep_view());
    stale
}

} // verus!
