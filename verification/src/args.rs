//! The words of a command: names that may be cut short, flags, and values.

use vstd::prelude::*;
use vstd::string::*;

use crate::text;

verus! {

/// The place of the first word that is the given one, or the number of words.
pub open spec fn word_place(words: Seq<Seq<char>>, word: Seq<char>) -> nat
    decreases words.len(),
{
    if words.len() == 0 {
        0
    } else if words[0] == word {
        0
    } else {
        1 + word_place(words.drop_first(), word)
    }
}

/// Where the first such word stands: none before it is the same.
pub proof fn lemma_word_place(words: Seq<Seq<char>>, word: Seq<char>)
    ensures
        word_place(words, word) <= words.len(),
        word_place(words, word) < words.len() ==> words[word_place(words, word) as int] == word,
        forall|i: int| 0 <= i < word_place(words, word) ==> #[trigger] words[i] != word,
    decreases words.len(),
{
    if words.len() > 0 && words[0] != word {
        let rest = words.drop_first();
        lemma_word_place(rest, word);
        assert forall|i: int| 0 <= i < word_place(words, word) implies #[trigger] words[i]
            != word by {
            if i > 0 {
                assert(rest[i - 1] == words[i]);
            }
        }
    }
}

proof fn lemma_word_place_is(words: Seq<Seq<char>>, word: Seq<char>, at: int)
    requires
        0 <= at <= words.len(),
        at < words.len() ==> words[at] == word,
        forall|i: int| 0 <= i < at ==> #[trigger] words[i] != word,
    ensures
        word_place(words, word) == at,
{
    lemma_word_place(words, word);
    let found = word_place(words, word) as int;
    if found < at {
        assert(words[found] != word);
    } else if at < found {
        assert(words[at] != word);
    }
}

/// The value that stands behind a word, if there is one.
pub open spec fn value_after(words: Seq<Seq<char>>, word: Seq<char>) -> Option<Seq<char>> {
    let at = word_place(words, word) as int;
    if at + 1 < words.len() {
        Some(words[at + 1])
    } else {
        None
    }
}

/// The words without a word and the value behind it, if there is one.
pub open spec fn without_value(words: Seq<Seq<char>>, word: Seq<char>) -> Seq<Seq<char>> {
    let at = word_place(words, word) as int;
    if at + 1 < words.len() {
        words.take(at) + words.skip(at + 2)
    } else {
        words
    }
}

/// The words without the first that is the given one.
pub open spec fn without_word(words: Seq<Seq<char>>, word: Seq<char>) -> Seq<Seq<char>> {
    let at = word_place(words, word) as int;
    if at < words.len() {
        words.remove(at)
    } else {
        words
    }
}

fn place_of(args: &Vec<String>, word: &str) -> (r: usize)
    ensures
        r == word_place(text::texts(args@), word@),
        r <= args.len(),
{
    let ghost all = text::texts(args@);
    let mut i: usize = 0;
    while i < args.len()
        invariant
            i <= args.len(),
            all == text::texts(args@),
            forall|k: int| 0 <= k < i ==> #[trigger] all[k] != word@,
        decreases args.len() - i,
    {
        assert(all[i as int] == args@[i as int]@);
        if text::str_eq(args[i].as_str(), word) {
            proof {
                lemma_word_place_is(all, word@, i as int);
            }
            return i;
        }
        i = i + 1;
    }
    proof {
        lemma_word_place_is(all, word@, i as int);
    }
    i
}

fn take_value(args: &mut Vec<String>, word: &str) -> (r: Option<String>)
    ensures
        text::opt_text(r) == value_after(text::texts(old(args)@), word@),
        text::texts(final(args)@) == without_value(text::texts(old(args)@), word@),
{
    let ghost all = text::texts(args@);
    let at: usize = place_of(args, word);
    if at >= args.len() || at + 1 >= args.len() {
        return None;
    }
    let _ = args.remove(at);
    let value: String = args.remove(at);
    assert(text::texts(args@) =~= all.take(at as int) + all.skip(at + 2));
    Some(value)
}

/// Takes a key and the value behind it out of the words.
pub fn take_kv(args: &mut Vec<String>, key: &str) -> (r: Option<String>)
    ensures
        text::opt_text(r) == value_after(text::texts(old(args)@), key@),
        text::texts(final(args)@) == without_value(text::texts(old(args)@), key@),
{
    take_value(args, key)
}

/// Takes a flag and the value behind it out of the words.
pub fn take_flag_value(args: &mut Vec<String>, flag: &str) -> (r: Option<String>)
    ensures
        text::opt_text(r) == value_after(text::texts(old(args)@), flag@),
        text::texts(final(args)@) == without_value(text::texts(old(args)@), flag@),
{
    take_value(args, flag)
}

/// Takes a flag out of the words, and says whether it was there.
pub fn has_flag(args: &mut Vec<String>, flag: &str) -> (r: bool)
    ensures
        r == text::texts(old(args)@).contains(flag@),
        text::texts(final(args)@) == without_word(text::texts(old(args)@), flag@),
{
    let ghost all = text::texts(args@);
    proof {
        lemma_word_place(all, flag@);
    }
    let at: usize = place_of(args, flag);
    if at < args.len() {
        assert(all[at as int] == flag@);
        let _ = args.remove(at);
        assert(text::texts(args@) =~= all.remove(at as int));
        true
    } else {
        false
    }
}

/// The value behind a flag, or else that behind a key.
pub open spec fn option_value(
    words: Seq<Seq<char>>,
    flag: Seq<char>,
    key: Seq<char>,
) -> Option<Seq<char>> {
    match value_after(words, flag) {
        Some(v) => Some(v),
        None => value_after(words, key),
    }
}

/// The words without a flag and its value, or else without a key and its value.
pub open spec fn without_option(
    words: Seq<Seq<char>>,
    flag: Seq<char>,
    key: Seq<char>,
) -> Seq<Seq<char>> {
    match value_after(words, flag) {
        Some(_) => without_value(words, flag),
        None => without_value(words, key),
    }
}

/// Takes a flag and its value, or else a key and its value, out of the words.
pub fn take_option(args: &mut Vec<String>, flag: &str, key: &str) -> (r: Option<String>)
    ensures
        text::opt_text(r) == option_value(text::texts(old(args)@), flag@, key@),
        text::texts(final(args)@) == without_option(text::texts(old(args)@), flag@, key@),
{
    match take_flag_value(args, flag) {
        Some(v) => Some(v),
        None => take_kv(args, key),
    }
}

/// Taking a value out takes out two words, or none where there is no value.
pub proof fn law_value_is_taken_out(words: Seq<Seq<char>>, word: Seq<char>)
    ensures
        value_after(words, word) is Some ==> without_value(words, word).len() == words.len() - 2,
        value_after(words, word) is None ==> without_value(words, word) == words,
        value_after(words, word) is Some ==> words.contains(word),
{
    lemma_word_place(words, word);
}

/// The options that begin with the input, in order.
pub open spec fn matching(options: Seq<Seq<char>>, input: Seq<char>) -> Seq<Seq<char>>
    decreases options.len(),
{
    if options.len() == 0 {
        Seq::empty()
    } else {
        let before = matching(options.drop_last(), input);
        if input.is_prefix_of(options.last()) {
            before.push(options.last())
        } else {
            before
        }
    }
}

/// The option that an input stands for, or why there is none.
pub open spec fn resolved(input: Seq<char>, options: Seq<Seq<char>>) -> Result<
    Seq<char>,
    Seq<char>,
> {
    let found = matching(options, input);
    if found.len() == 0 {
        Err("unknown command"@)
    } else if found.len() == 1 {
        Ok(found[0])
    } else {
        Err("ambiguous command: "@ + text::joined(found, ", "@))
    }
}

/// The views of a list of literals.
pub open spec fn names(options: Seq<&str>) -> Seq<Seq<char>> {
    options.map_values(|s: &str| s@)
}

/// A text or a complaint, as a mathematical value.
pub open spec fn text_outcome(r: Result<String, String>) -> Result<Seq<char>, Seq<char>> {
    match r {
        Ok(s) => Ok(s@),
        Err(e) => Err(e@),
    }
}

/// The one option that begins with the input, or why there is none.
pub fn resolve_prefix(input: &str, options: &[&str]) -> (r: Result<String, String>)
    ensures
        text_outcome(r) == resolved(input@, names(options@)),
{
    let ghost all = names(options@);
    let mut found: Vec<String> = Vec::new();
    let mut i: usize = 0;
    assert(text::texts(found@) =~= matching(all.take(0), input@));
    while i < options.len()
        invariant
            i <= options.len(),
            all == names(options@),
            text::texts(found@) == matching(all.take(i as int), input@),
        decreases options.len() - i,
    {
        assert(all.take(i + 1).drop_last() =~= all.take(i as int));
        assert(all.take(i + 1).last() == options@[i as int]@);
        let option: &str = options[i];
        let ghost before = found@;
        if text::starts_with(option, input) {
            found.push(option.to_owned());
            assert(text::texts(found@) =~= text::texts(before).push(option@));
        }
        i = i + 1;
    }
    assert(all.take(all.len() as int) =~= all);
    if found.len() == 0 {
        Err("unknown command".to_owned())
    } else if found.len() == 1 {
        assert(text::texts(found@)[0] == found@[0]@);
        Ok(found[0].clone())
    } else {
        let list: String = text::join_strings(&found, ", ");
        Err(text::concat2("ambiguous command: ", list.as_str()))
    }
}

proof fn lemma_matching(options: Seq<Seq<char>>, input: Seq<char>)
    ensures
        forall|i: int|
            0 <= i < matching(options, input).len() ==> input.is_prefix_of(
                #[trigger] matching(options, input)[i],
            ) && options.contains(matching(options, input)[i]),
        forall|i: int|
            0 <= i < options.len() && input.is_prefix_of(#[trigger] options[i]) ==> matching(
                options,
                input,
            ).contains(options[i]),
    decreases options.len(),
{
    if options.len() > 0 {
        let front = options.drop_last();
        lemma_matching(front, input);
        let before = matching(front, input);
        let all = matching(options, input);
        assert forall|i: int| 0 <= i < all.len() implies input.is_prefix_of(#[trigger] all[i])
            && options.contains(all[i]) by {
            if i < before.len() {
                assert(before[i] == all[i]);
                let k = choose|k: int| 0 <= k < front.len() && front[k] == before[i];
                assert(options[k] == before[i]);
            } else {
                assert(options[options.len() - 1] == all[i]);
            }
        }
        assert forall|i: int|
            0 <= i < options.len() && input.is_prefix_of(#[trigger] options[i]) implies all.contains(
            options[i],
        ) by {
            if i < front.len() {
                assert(front[i] == options[i]);
                let k = choose|k: int| 0 <= k < before.len() && before[k] == front[i];
                assert(all[k] == options[i]);
            } else {
                assert(all.last() == options[i]);
            }
        }
    }
}

/// What an input stands for is an option that begins with it, and the only one.
pub proof fn law_resolved_option(input: Seq<char>, options: Seq<Seq<char>>)
    ensures
        resolved(input, options) matches Ok(option) ==> {
            &&& options.contains(option)
            &&& input.is_prefix_of(option)
            &&& forall|i: int|
                0 <= i < options.len() && input.is_prefix_of(#[trigger] options[i]) ==> options[i]
                    == option
        },
        (forall|i: int| 0 <= i < options.len() ==> !input.is_prefix_of(#[trigger] options[i]))
            ==> resolved(input, options) == Err::<Seq<char>, Seq<char>>("unknown command"@),
{
    lemma_matching(options, input);
    let found = matching(options, input);
    if found.len() == 1 {
        assert(found[0] == found[0]);
        assert forall|i: int|
            0 <= i < options.len() && input.is_prefix_of(#[trigger] options[i]) implies options[i]
            == found[0] by {
            let k = choose|k: int| 0 <= k < found.len() && found[k] == options[i];
        }
    }
    if forall|i: int| 0 <= i < options.len() ==> !input.is_prefix_of(#[trigger] options[i]) {
        if found.len() > 0 {
            assert(options.contains(found[0]));
            let k = choose|k: int| 0 <= k < options.len() && options[k] == found[0];
        }
    }
}

} // verus!
