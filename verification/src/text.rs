use vstd::prelude::*;

verus! {

/// The concatenation, in order, of a sequence of text fragments.
pub open spec fn concat_frags(frags: Seq<Seq<char>>) -> Seq<char>
    decreases frags.len(),
{
    if frags.len() == 0 {
        Seq::<char>::empty()
    } else {
        concat_frags(frags.drop_last()) + frags.last()
    }
}

/// Appending one fragment extends the concatenation by exactly that fragment.
pub proof fn lemma_concat_frags_push(frags: Seq<Seq<char>>, f: Seq<char>)
    ensures
        concat_frags(frags.push(f)) == concat_frags(frags) + f,
{
    assert(frags.push(f).drop_last() =~= frags);
}

/// Extending a prefix by one fragment extends its concatenation by that fragment.
pub proof fn lemma_concat_frags_take_step(frags: Seq<Seq<char>>, i: int)
    requires
        0 <= i < frags.len(),
    ensures
        concat_frags(frags.take(i + 1)) == concat_frags(frags.take(i)) + frags[i],
{
    assert(frags.take(i + 1).drop_last() =~= frags.take(i));
    assert(frags.take(i + 1).last() == frags[i]);
}

/// Context snippets joined into one text, separated by single newlines.
pub open spec fn joined_snippets(snippets: Seq<Seq<char>>) -> Seq<char>
    decreases snippets.len(),
{
    if snippets.len() == 0 {
        Seq::<char>::empty()
    } else if snippets.len() == 1 {
        snippets.last()
    } else {
        joined_snippets(snippets.drop_last()) + seq!['\n'] + snippets.last()
    }
}

/// Joining one more snippet appends a newline separator (after the first) and
/// the snippet itself.
pub proof fn lemma_joined_snippets_take_step(snippets: Seq<Seq<char>>, i: int)
    requires
        0 <= i < snippets.len(),
    ensures
        i == 0 ==> joined_snippets(snippets.take(1)) == snippets[0],
        i > 0 ==> joined_snippets(snippets.take(i + 1)) == joined_snippets(snippets.take(i))
            + seq!['\n'] + snippets[i],
{
    assert(snippets.take(i + 1).drop_last() =~= snippets.take(i));
    assert(snippets.take(i + 1).last() == snippets[i]);
}

} // verus!
