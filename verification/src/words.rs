//! Small operations on lists of words: joining them, finding one, leaving
//! some out. The command grammar is stated over these.

use vstd::prelude::*;
use vstd::slice::slice_subrange;
use vstd::string::StringExecFns;

verus! {

/// The words written one after the other, with `sep` between each two.
pub open spec fn joined(words: Seq<Seq<char>>, sep: Seq<char>) -> Seq<char>
    decreases words.len(),
{
    if words.len() == 0 {
        Seq::empty()
    } else if words.len() == 1 {
        words[0]
    } else {
        joined(words.drop_last(), sep) + sep + words.last()
    }
}

/// The number of characters in all the words together.
pub open spec fn total_len(words: Seq<Seq<char>>) -> nat
    decreases words.len(),
{
    if words.len() == 0 {
        0
    } else {
        total_len(words.drop_last()) + words.last().len()
    }
}

/// The index of the first word equal to `word`, or the number of words where
/// none is.
pub open spec fn first_position(words: Seq<Seq<char>>, word: Seq<char>) -> int
    decreases words.len(),
{
    if words.len() == 0 || words[0] == word {
        0
    } else {
        1 + first_position(words.skip(1), word)
    }
}

/// `first_position` is the least index that holds the word.
pub proof fn lemma_first_position(words: Seq<Seq<char>>, word: Seq<char>)
    ensures
        0 <= first_position(words, word) <= words.len(),
        first_position(words, word) < words.len() ==> words[first_position(words, word)] == word,
        forall|j: int| 0 <= j < first_position(words, word) ==> words[j] != word,
        first_position(words, word) < words.len() <==> words.contains(word),
    decreases words.len(),
{
    if words.len() == 0 || words[0] == word {
    } else {
        let tail = words.skip(1);
        lemma_first_position(tail, word);
        let at: int = first_position(tail, word);
        assert forall|j: int| 0 <= j < at + 1 implies words[j] != word by {
            if j > 0 {
                assert(tail[j - 1] == words[j]);
            }
        }
        if at < tail.len() {
            assert(words[at + 1] == tail[at]);
        }
        if words.contains(word) {
            let k: int = choose|k: int| 0 <= k < words.len() && words[k] == word;
            assert(tail[k - 1] == word);
        }
    }
}

/// An index whose word is `word`, with no such word before it, is the first
/// position; so is the number of words where no word is `word`.
pub proof fn lemma_first_position_is(words: Seq<Seq<char>>, word: Seq<char>, at: int)
    requires
        0 <= at <= words.len(),
        at < words.len() ==> words[at] == word,
        forall|j: int| 0 <= j < at ==> words[j] != word,
    ensures
        first_position(words, word) == at,
{
    lemma_first_position(words, word);
}

/// Joining keeps every character of every word, and adds one separator
/// between each two words: nothing is lost and nothing else is added.
pub proof fn lemma_joined_len(words: Seq<Seq<char>>, sep: Seq<char>)
    ensures
        words.len() == 0 ==> joined(words, sep).len() == 0,
        words.len() > 0 ==> joined(words, sep).len() == total_len(words) + (words.len() - 1)
            * sep.len(),
    decreases words.len(),
{
    if words.len() == 0 {
    } else if words.len() == 1 {
        assert(total_len(words.drop_last()) == 0);
        assert((words.len() - 1) * sep.len() == 0) by (nonlinear_arith)
            requires
                words.len() == 1,
        ;
    } else {
        let front = words.drop_last();
        lemma_joined_len(front, sep);
        assert((words.len() - 1) * sep.len() == (front.len() - 1) * sep.len() + sep.len())
            by (nonlinear_arith)
            requires
                front.len() == words.len() - 1,
        ;
    }
}

/// Whether every word holds a character and none holds `sep`.
pub open spec fn plain_words(words: Seq<Seq<char>>, sep: char) -> bool {
    forall|i: int| 0 <= i < words.len() ==> (#[trigger] words[i]).len() > 0 && !words[i].contains(sep)
}

/// Where the separator `sep` stands in the joined text of plain words: there
/// is none for fewer than two words, and for two or more the last one stands
/// right before the last word.
pub proof fn lemma_joined_separators(words: Seq<Seq<char>>, sep: char)
    requires
        plain_words(words, sep),
    ensures
        words.len() == 0 <==> joined(words, seq![sep]).len() == 0,
        words.len() >= 2 <==> joined(words, seq![sep]).contains(sep),
        words.len() >= 2 ==> joined(words, seq![sep]) == joined(words.drop_last(), seq![sep]).push(
            sep,
        ) + words.last(),
    decreases words.len(),
{
    let text = joined(words, seq![sep]);
    if words.len() == 0 {
    } else if words.len() == 1 {
        assert(words[0].len() > 0);
    } else {
        let front = joined(words.drop_last(), seq![sep]);
        assert(words.last().len() > 0);
        assert(text == front + seq![sep] + words.last());
        assert(front + seq![sep] =~= front.push(sep));
        assert(text[front.len() as int] == sep);
    }
}

/// Plain words can be read back from their joined text: two lists of plain
/// words with the same joined text are the same list, of as many words and
/// with the same characters in each.
pub proof fn lemma_joined_is_injective(a: Seq<Seq<char>>, b: Seq<Seq<char>>, sep: char)
    requires
        plain_words(a, sep),
        plain_words(b, sep),
        joined(a, seq![sep]) == joined(b, seq![sep]),
    ensures
        a == b,
    decreases a.len(),
{
    let text = joined(a, seq![sep]);
    lemma_joined_separators(a, sep);
    lemma_joined_separators(b, sep);
    if a.len() == 0 {
        assert(a =~= b);
    } else if a.len() == 1 {
        assert(!a[0].contains(sep));
        assert(b.len() == 1);
        assert(a =~= b);
    } else {
        let front_a = joined(a.drop_last(), seq![sep]);
        let front_b = joined(b.drop_last(), seq![sep]);
        let last_a = a.last();
        let last_b = b.last();
        assert(text == front_a.push(sep) + last_a);
        assert(text == front_b.push(sep) + last_b);
        assert(text.len() == front_a.len() + 1 + last_a.len());
        assert(text.len() == front_b.len() + 1 + last_b.len());
        assert(text[front_a.len() as int] == sep);
        assert(text[front_b.len() as int] == sep);
        if last_a.len() < last_b.len() {
            let at: int = front_a.len() as int;
            assert(text[at] == last_b[at - front_b.len() - 1]);
            assert(last_b.contains(sep));
        }
        if last_b.len() < last_a.len() {
            let at: int = front_b.len() as int;
            assert(text[at] == last_a[at - front_a.len() - 1]);
            assert(last_a.contains(sep));
        }
        assert(front_a.len() == front_b.len());
        assert(last_a =~= last_b) by {
            assert forall|i: int| 0 <= i < last_a.len() implies last_a[i] == last_b[i] by {
                assert(text[front_a.len() + 1 + i] == last_a[i]);
                assert(text[front_b.len() + 1 + i] == last_b[i]);
            }
        }
        assert(front_a =~= front_b) by {
            assert forall|i: int| 0 <= i < front_a.len() implies front_a[i] == front_b[i] by {
                assert(text[i] == front_a[i]);
                assert(text[i] == front_b[i]);
            }
        }
        assert(plain_words(a.drop_last(), sep)) by {
            assert forall|i: int| 0 <= i < a.drop_last().len() implies (#[trigger] a.drop_last()[i]).len()
                > 0 && !a.drop_last()[i].contains(sep) by {
                assert(a.drop_last()[i] == a[i]);
            }
        }
        assert(plain_words(b.drop_last(), sep)) by {
            assert forall|i: int| 0 <= i < b.drop_last().len() implies (#[trigger] b.drop_last()[i]).len()
                > 0 && !b.drop_last()[i].contains(sep) by {
                assert(b.drop_last()[i] == b[i]);
            }
        }
        lemma_joined_is_injective(a.drop_last(), b.drop_last(), sep);
        assert(a =~= a.drop_last().push(last_a));
        assert(b =~= b.drop_last().push(last_b));
    }
}

/// Joins the words, with `sep` between each two.
pub fn join_words(words: &[String], sep: &str) -> (text: String)
    ensures
        text@ == joined(words.deep_view(), sep@),
{
    let mut text = String::new();
    let mut i: usize = 0;
    while i < words.len()
        invariant
            i <= words.len(),
            text@ == joined(words.deep_view().take(i as int), sep@),
        decreases words.len() - i,
    {
        if i > 0 {
            text.append(sep);
        }
        text.append(words[i].as_str());
        proof {
            let all = words.deep_view();
            assert(all.take(i + 1).drop_last() == all.take(i as int));
            assert(all.take(i + 1).last() == words[i as int]@);
        }
        i += 1;
    }
    proof {
        assert(words.deep_view().take(i as int) == words.deep_view());
    }
    text
}

/// Tells whether a word is the given text.
pub fn is_word(word: &String, text: &str) -> (same: bool)
    ensures
        same == (word@ == text@),
{
    *word == String::from_str(text)
}

/// Finds the first word equal to `word`.
pub fn find_word(words: &[String], word: &str) -> (at: usize)
    ensures
        at == first_position(words.deep_view(), word@),
        at <= words.len(),
{
    let mut i: usize = 0;
    while i < words.len()
        invariant
            i <= words.len(),
            forall|j: int| 0 <= j < i ==> words.deep_view()[j] != word@,
        decreases words.len() - i,
    {
        if is_word(&words[i], word) {
            proof {
                lemma_first_position_is(words.deep_view(), word@, i as int);
            }
            return i;
        }
        i += 1;
    }
    proof {
        lemma_first_position_is(words.deep_view(), word@, i as int);
    }
    i
}

/// The words from index `from` on.
pub fn words_from(words: &[String], from: usize) -> (rest: &[String])
    ensures
        from <= words.len() ==> rest.deep_view() == words.deep_view().skip(from as int),
        from > words.len() ==> rest.deep_view() == Seq::<Seq<char>>::empty(),
{
    let start = if from <= words.len() {
        from
    } else {
        words.len()
    };
    let rest = slice_subrange(words, start, words.len());
    proof {
        assert(rest.deep_view() =~= words.deep_view().skip(start as int));
    }
    rest
}

/// The words without the two at `at` and `at + 1`.
pub(crate) fn without_pair(words: &[String], at: usize) -> (kept: Vec<String>)
    requires
        at + 2 <= words.len(),
    ensures
        kept.deep_view() == words.deep_view().take(at as int) + words.deep_view().skip(at + 2),
{
    let mut kept: Vec<String> = Vec::new();
    let mut i: usize = 0;
    while i < words.len()
        invariant
            at + 2 <= words.len(),
            i <= words.len(),
            kept.len() == (if i <= at { i as int } else if i <= at + 2 { at as int } else { i - 2 }),
            forall|j: int| 0 <= j < kept.len() && j < at ==> kept[j]@ == words[j]@,
            forall|j: int| at <= j < kept.len() ==> kept[j]@ == words[j + 2]@,
        decreases words.len() - i,
    {
        if i < at || i >= at + 2 {
            kept.push(words[i].clone());
        }
        i += 1;
    }
    proof {
        assert(kept.deep_view() =~= words.deep_view().take(at as int) + words.deep_view().skip(
            at + 2,
        ));
    }
    kept
}

} // verus!
