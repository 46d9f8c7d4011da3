//! What holds of the texts that go in and out: how words are split and joined, how numbers
//! are read and written, and what a command's words stand for.

use vstd::prelude::*;

use crate::args;
use crate::client_laws;
use crate::ctl;
use crate::ctl::{Parsed, ParsedView, Sub};
use crate::ctl_text;
use crate::rpc_laws;
use crate::text;

verus! {

/// Texts are joined one behind the other, with the separator between each two and nowhere
/// else.
pub proof fn law_texts_are_joined(list: Seq<Seq<char>>, last: Seq<char>, sep: Seq<char>)
    ensures
        text::joined(Seq::empty(), sep) == Seq::<char>::empty(),
        text::joined(seq![last], sep) == last,
        list.len() > 0 ==> text::joined(list.push(last), sep) == text::joined(list, sep) + sep
            + last,
{
    if list.len() > 0 {
        assert(list.push(last).drop_last() =~= list);
    }
}

/// The characters that a word may not hold are the blank, the tab and the ends of lines
/// among others, and none that prints.
pub proof fn law_white_space(c: char)
    ensures
        text::is_white(' ') && text::is_white('\t') && text::is_white('\n') && text::is_white('\r'),
        '!' as nat <= c as nat <= '~' as nat ==> !text::is_white(c),
{
}

/// A text is trimmed of the white space around it and of nothing else: what goes in front
/// and behind is white, and what is left neither begins nor ends with it.
pub proof fn law_texts_are_trimmed(line: &str, trimmed: &str, right: &str)
    requires
        call_ensures(text::trim, (line,), trimmed),
        call_ensures(text::trim_right, (line,), right),
    ensures
        exists|front: Seq<char>, back: Seq<char>|
            line@ == #[trigger] (front + trimmed@ + back) && all_white(front) && all_white(back),
        exists|back: Seq<char>| line@ == #[trigger] (right@ + back) && all_white(back),
        trimmed@.len() > 0 ==> !text::is_white(trimmed@[0]) && !text::is_white(trimmed@.last()),
        right@.len() > 0 ==> !text::is_white(right@.last()),
{
    let rest = text::trim_start(line@);
    rpc_laws::lemma_trim_start(line@);
    rpc_laws::lemma_trim_end(rest);
    rpc_laws::lemma_trim_end(line@);
    let n = line@.len() - rest.len();
    let front = line@.take(n);
    let back = rest.skip(trimmed@.len() as int);
    assert(line@ =~= front + trimmed@ + back);
    assert(all_white(front) && all_white(back));
    let behind = line@.skip(right@.len() as int);
    assert(line@ =~= right@ + behind);
    assert(all_white(behind));
    if trimmed@.len() > 0 {
        assert(trimmed@[0] == rest[0]);
    }
}

/// Whether a text is white space only.
pub open spec fn all_white(s: Seq<char>) -> bool {
    forall|i: int| 0 <= i < s.len() ==> text::is_white(#[trigger] s[i])
}

/// Whether a text is a word: there is something of it, and none of it is white.
pub open spec fn is_word(s: Seq<char>) -> bool {
    s.len() > 0 && forall|i: int| 0 <= i < s.len() ==> !text::is_white(#[trigger] s[i])
}

proof fn lemma_word_ends(word: Seq<char>, rest: Seq<char>)
    requires
        forall|i: int| 0 <= i < word.len() ==> !text::is_white(#[trigger] word[i]),
        rest.len() > 0 ==> text::is_white(rest[0]),
    ensures
        text::word_len(word + rest) == word.len(),
    decreases word.len(),
{
    if word.len() > 0 {
        assert forall|i: int| 0 <= i < word.drop_first().len() implies !text::is_white(
            #[trigger] word.drop_first()[i],
        ) by {
            assert(word.drop_first()[i] == word[i + 1]);
        }
        lemma_word_ends(word.drop_first(), rest);
        assert((word + rest).drop_first() =~= word.drop_first() + rest);
        assert((word + rest)[0] == word[0]);
    } else {
        assert(word + rest =~= rest);
    }
}

/// A line is split into its words at white space: a word and what follows it are split into
/// the word and the words of what follows, white space in front goes, and nothing else does.
pub proof fn law_lines_are_split(word: Seq<char>, c: char, rest: Seq<char>)
    requires
        is_word(word),
        text::is_white(c),
    ensures
        text::words(Seq::empty()) == Seq::<Seq<char>>::empty(),
        text::words(word) == seq![word],
        text::words(seq![c] + rest) == text::words(rest),
        text::words(word + seq![c] + rest) == seq![word] + text::words(rest),
{
    assert(text::words(Seq::empty()) =~= Seq::<Seq<char>>::empty());
    let none = Seq::<char>::empty();
    lemma_word_ends(word, none);
    assert(word + none =~= word);
    assert(!text::is_white(word[0]));
    assert(text::trim_start(word) == word);
    assert(word.take(word.len() as int) =~= word);
    assert(word.skip(word.len() as int) =~= none);
    assert(text::words(word) =~= seq![word]);
    let led = seq![c] + rest;
    assert(led.drop_first() =~= rest);
    assert(text::trim_start(led) == text::trim_start(rest));
    assert(text::words(led) =~= text::words(rest));
    let line = word + led;
    assert(line =~= word + seq![c] + rest);
    lemma_word_ends(word, led);
    assert(line[0] == word[0]);
    assert(text::trim_start(line) == line);
    assert(line.take(word.len() as int) =~= word);
    assert(line.skip(word.len() as int) =~= led);
}

/// The line that is typed is split into its words, and these are the words of the command;
/// what stands behind a beginning is what is left without it.
pub proof fn law_typed_lines(line: &str, typed: Vec<String>, start: &str, left: Option<&str>)
    requires
        call_ensures(text::split_words, (line,), typed),
        call_ensures(text::strip_prefix, (line, start), left),
    ensures
        text::texts(typed@) == text::words(line@),
        forall|i: int| 0 <= i < typed@.len() ==> is_word((#[trigger] typed@[i])@),
        left is Some ==> line@ == start@ + left->0@,
        left is None ==> forall|rest: Seq<char>| line@ != #[trigger] (start@ + rest),
{
    lemma_words_are_words(line@);
    assert forall|i: int| 0 <= i < typed@.len() implies is_word((#[trigger] typed@[i])@) by {
        assert(text::texts(typed@)[i] == typed@[i]@);
    }
    if left is Some {
        assert(line@ =~= line@.subrange(0, start@.len() as int) + line@.skip(
            start@.len() as int,
        ));
        assert(line@ =~= start@ + left->0@);
    } else {
        assert forall|rest: Seq<char>| line@ != #[trigger] (start@ + rest) by {
            assert(start@ =~= (start@ + rest).subrange(0, start@.len() as int));
        }
    }
}

proof fn lemma_words_are_words(s: Seq<char>)
    ensures
        forall|i: int| 0 <= i < text::words(s).len() ==> is_word(#[trigger] text::words(s)[i]),
    decreases s.len(),
{
    let t = text::trim_start(s);
    text::lemma_trim_start_len(s);
    text::lemma_word_len(t);
    if t.len() > 0 {
        let n = text::word_len(t) as int;
        lemma_words_are_words(t.skip(n));
        lemma_no_white(t);
        assert(is_word(t.take(n)));
        assert forall|i: int| 0 <= i < text::words(s).len() implies is_word(
            #[trigger] text::words(s)[i],
        ) by {
            if i > 0 {
                assert(text::words(s)[i] == text::words(t.skip(n))[i - 1]);
            }
        }
    }
}

proof fn lemma_no_white(s: Seq<char>)
    ensures
        forall|i: int| 0 <= i < text::word_len(s) ==> !text::is_white(#[trigger] s[i]),
    decreases s.len(),
{
    if s.len() > 0 && !text::is_white(s[0]) {
        let rest = s.drop_first();
        lemma_no_white(rest);
        assert(text::word_len(s) == 1 + text::word_len(rest));
        text::lemma_word_len(rest);
        assert forall|i: int| 0 <= i < text::word_len(s) implies !text::is_white(
            #[trigger] s[i],
        ) by {
            if i > 0 {
                assert(rest[i - 1] == s[i]);
            }
        }
    }
}

/// Whether a character is one of the ten digits.
pub open spec fn is_ten(c: char) -> bool {
    '0' as nat <= c as nat <= '9' as nat
}

/// A number is written with digits only, and read back as it was written; a digit more makes
/// a number tenfold and adds the digit. What holds anything else, or nothing, or a number
/// that is too large, is no number; a plus sign in front is taken for nothing.
pub proof fn law_numbers_are_read(n: nat, s: Seq<char>, c: char, max: nat)
    ensures
        text::parse_up_to(text::decimal(n), max) == (if n <= max {
            Some(n)
        } else {
            None
        }),
        forall|i: int|
            0 <= i < text::decimal(n).len() ==> is_ten(#[trigger] text::decimal(n)[i]),
        text::parse_up_to(Seq::empty(), max) is None,
        is_ten(c) && max >= 9 ==> text::parse_up_to(seq![c], max) == Some(
            (c as int - '0' as int) as nat,
        ),
        text::parse_up_to(s, max) is Some && is_ten(c) ==> text::parse_up_to(s.push(c), max)
            == (if text::parse_up_to(s, max)->0 * 10 + (c as int - '0' as int) <= max {
            Some((text::parse_up_to(s, max)->0 * 10 + (c as int - '0' as int)) as nat)
        } else {
            None
        }),
        !is_ten(c) && (c != '+' || s.len() > 0) ==> text::parse_up_to(
            s.push(c),
            max,
        ) is None,
        s.len() > 0 && s[0] != '+' ==> text::parse_up_to(seq!['+'] + s, max) == text::parse_up_to(
            s,
            max,
        ),
{
    text::lemma_decimal_value(n);
    text::lemma_parse_decimal(n);
    let written = text::decimal(n);
    assert forall|i: int| 0 <= i < written.len() implies is_ten(#[trigger] written[i]) by {
        assert(text::is_digit(written[i]));
    }
    if is_ten(c) {
        assert(text::all_digits(seq![c]));
        assert(seq![c].drop_last() =~= Seq::<char>::empty());
        assert(text::without_plus(seq![c]) == seq![c]);
        assert(text::digits_value(Seq::<char>::empty()) == 0);
    }
    let longer = s.push(c);
    if s.len() > 0 {
        assert(longer[0] == s[0]);
        assert(longer.drop_first() =~= s.drop_first().push(c));
        let bare = text::without_plus(s);
        assert(text::without_plus(longer) == bare.push(c));
        assert(bare.push(c).drop_last() =~= bare);
        if text::all_digits(bare) && is_ten(c) {
            assert(text::all_digits(bare.push(c)));
        }
        assert(bare.push(c)[bare.len() as int] == c);
        if s[0] != '+' {
            assert((seq!['+'] + s).drop_first() =~= s);
        }
    } else {
        assert(longer.drop_first() =~= Seq::<char>::empty());
        assert(longer[0] == c);
    }
}

/// A flag that is among the words is taken out of them, the first of its kind alone; a
/// value is taken out with the flag or the key in front of it.
pub proof fn law_options_are_taken(
    before: &mut Vec<String>,
    flag: &str,
    found: bool,
    words: &mut Vec<String>,
    named: &str,
    key: &str,
    value: Option<String>,
    at: int,
)
    requires
        call_ensures(args::has_flag, (before, flag), found),
        call_ensures(args::take_option, (words, named, key), value),
    ensures
        found == (exists|i: int|
            0 <= i < old(before)@.len() && (#[trigger] old(before)@[i])@ == flag@),
        !found ==> text::texts(final(before)@) == text::texts(old(before)@),
        0 <= at < old(before)@.len() && old(before)@[at]@ == flag@ && (forall|i: int|
            0 <= i < at ==> (#[trigger] old(before)@[i])@ != flag@) ==> text::texts(final(before)@)
            == text::texts(old(before)@).remove(at),
        client_laws::stands_behind(text::texts(old(words)@), named@, at) ==> text::opt_text(value)
            == Some(text::texts(old(words)@)[at + 1]) && text::texts(final(words)@) == text::texts(
            old(words)@,
        ).take(at) + text::texts(old(words)@).skip(at + 2),
{
    let all = text::texts(old(before)@);
    args::lemma_word_place(all, flag@);
    let place = args::word_place(all, flag@) as int;
    if place < all.len() {
        assert(all[place] == old(before)@[place]@);
    }
    assert forall|i: int| 0 <= i < all.len() && (#[trigger] old(before)@[i])@
        == flag@ implies all.contains(flag@) by {
        assert(all[i] == flag@);
    }
    if all.contains(flag@) {
        let i = choose|i: int| 0 <= i < all.len() && all[i] == flag@;
        assert(old(before)@[i]@ == flag@);
    }
    if 0 <= at < all.len() && old(before)@[at]@ == flag@ && (forall|i: int|
        0 <= i < at ==> (#[trigger] old(before)@[i])@ != flag@) {
        assert(all[at] == flag@);
        if place < at {
            assert(old(before)@[place]@ != flag@);
        }
    }
    client_laws::law_option_values(text::texts(old(words)@), named@, key@, at);
}

proof fn lemma_none_begins(options: Seq<Seq<char>>, input: Seq<char>)
    requires
        forall|i: int| 0 <= i < options.len() ==> !input.is_prefix_of(#[trigger] options[i]),
    ensures
        args::matching(options, input).len() == 0,
    decreases options.len(),
{
    if options.len() > 0 {
        let front = options.drop_last();
        assert forall|i: int| 0 <= i < front.len() implies !input.is_prefix_of(
            #[trigger] front[i],
        ) by {
            assert(front[i] == options[i]);
        }
        lemma_none_begins(front, input);
        assert(!input.is_prefix_of(options[options.len() - 1]));
    }
}

proof fn lemma_one_begins(options: Seq<Seq<char>>, input: Seq<char>, at: int)
    requires
        0 <= at < options.len(),
        input.is_prefix_of(options[at]),
        forall|i: int|
            0 <= i < options.len() && i != at ==> !input.is_prefix_of(#[trigger] options[i]),
    ensures
        args::matching(options, input) == seq![options[at]],
    decreases options.len(),
{
    let front = options.drop_last();
    if at == options.len() - 1 {
        assert forall|i: int| 0 <= i < front.len() implies !input.is_prefix_of(
            #[trigger] front[i],
        ) by {
            assert(front[i] == options[i]);
        }
        lemma_none_begins(front, input);
    } else {
        assert forall|i: int| 0 <= i < front.len() && i != at implies !input.is_prefix_of(
            #[trigger] front[i],
        ) by {
            assert(front[i] == options[i]);
        }
        lemma_one_begins(front, input, at);
        assert(!input.is_prefix_of(options[options.len() - 1]));
    }
    assert(args::matching(options, input) =~= seq![options[at]]);
}

/// The beginning of a name that no other name begins with stands for that name.
pub proof fn law_only_beginning(input: Seq<char>, options: Seq<Seq<char>>, at: int)
    requires
        0 <= at < options.len(),
        input.is_prefix_of(options[at]),
        forall|i: int|
            0 <= i < options.len() && i != at ==> !input.is_prefix_of(#[trigger] options[i]),
    ensures
        args::resolved(input, options) == Ok::<Seq<char>, Seq<char>>(options[at]),
{
    lemma_one_begins(options, input, at);
}

/// The beginning of two names stands for neither, and the complaint names all that it could
/// stand for.
pub proof fn law_shared_beginning(input: Seq<char>, options: Seq<Seq<char>>, a: int, b: int)
    requires
        0 <= a < b < options.len(),
        input.is_prefix_of(options[a]),
        input.is_prefix_of(options[b]),
    ensures
        args::resolved(input, options) == Err::<Seq<char>, Seq<char>>(
            "ambiguous command: "@ + text::joined(
                options.filter(|option: Seq<char>| input.is_prefix_of(option)),
                ", "@,
            ),
        ),
{
    lemma_filtered(options, input);
    lemma_two_begin(options, input, a, b);
}

proof fn lemma_filtered(options: Seq<Seq<char>>, input: Seq<char>)
    ensures
        args::matching(options, input) == options.filter(
            |option: Seq<char>| input.is_prefix_of(option),
        ),
    decreases options.len(),
{
    reveal(Seq::filter);
    if options.len() > 0 {
        lemma_filtered(options.drop_last(), input);
    } else {
        assert(args::matching(options, input) =~= options.filter(
            |option: Seq<char>| input.is_prefix_of(option),
        ));
    }
}

proof fn lemma_two_begin(options: Seq<Seq<char>>, input: Seq<char>, a: int, b: int)
    requires
        0 <= a < b < options.len(),
        input.is_prefix_of(options[a]),
        input.is_prefix_of(options[b]),
    ensures
        args::matching(options, input).len() >= 2,
    decreases options.len(),
{
    let front = options.drop_last();
    if b < front.len() {
        lemma_two_begin(front, input, a, b);
    } else {
        lemma_some_begins(front, input, a);
    }
}

proof fn lemma_some_begins(options: Seq<Seq<char>>, input: Seq<char>, a: int)
    requires
        0 <= a < options.len(),
        input.is_prefix_of(options[a]),
    ensures
        args::matching(options, input).len() >= 1,
    decreases options.len(),
{
    if a < options.len() - 1 {
        lemma_some_begins(options.drop_last(), input, a);
    }
}

proof fn lemma_differ(a: Seq<char>, b: Seq<char>, at: int)
    requires
        0 <= at < a.len(),
        at < b.len(),
        a[at] != b[at],
    ensures
        !a.is_prefix_of(b),
        !b.is_prefix_of(a),
{
    if a.is_prefix_of(b) {
        assert(b.subrange(0, a.len() as int)[at] == b[at]);
    }
    if b.is_prefix_of(a) {
        assert(a.subrange(0, b.len() as int)[at] == a[at]);
    }
}

/// Whether a name stands for itself among the names.
pub open spec fn stands_for_itself(name: Seq<char>, options: Seq<Seq<char>>) -> bool {
    args::resolved(name, options) == Ok::<Seq<char>, Seq<char>>(name)
}

proof fn lemma_commands_stand_for_themselves()
    ensures
        stands_for_itself("ping"@, ctl::commands()),
        stands_for_itself("version"@, ctl::commands()),
        stands_for_itself("account"@, ctl::commands()),
        stands_for_itself("events"@, ctl::commands()),
        stands_for_itself("matrix"@, ctl::commands()),
        stands_for_itself("room"@, ctl::commands()),
        stands_for_itself("verification"@, ctl::commands()),
        stands_for_itself("help"@, ctl::commands()),
        stands_for_itself("quit"@, ctl::commands()),
        stands_for_itself("exit"@, ctl::commands()),
{
    let all = ctl::commands();
    reveal_strlit("ping");
    reveal_strlit("version");
    reveal_strlit("account");
    reveal_strlit("events");
    reveal_strlit("matrix");
    reveal_strlit("room");
    reveal_strlit("verification");
    reveal_strlit("help");
    reveal_strlit("quit");
    reveal_strlit("exit");
    assert("ping"@.len() == 4);
    assert("ping"@[0] == 'p');
    assert("version"@.len() == 7);
    assert("version"@[0] == 'v');
    assert("version"@[3] == 's');
    assert("account"@.len() == 7);
    assert("account"@[0] == 'a');
    assert("events"@.len() == 6);
    assert("events"@[0] == 'e');
    assert("events"@[1] == 'v');
    assert("matrix"@.len() == 6);
    assert("matrix"@[0] == 'm');
    assert("room"@.len() == 4);
    assert("room"@[0] == 'r');
    assert("verification"@.len() == 12);
    assert("verification"@[0] == 'v');
    assert("verification"@[3] == 'i');
    assert("help"@.len() == 4);
    assert("help"@[0] == 'h');
    assert("quit"@.len() == 4);
    assert("quit"@[0] == 'q');
    assert("exit"@.len() == 4);
    assert("exit"@[0] == 'e');
    assert("exit"@[1] == 'x');
    lemma_differ("ping"@, "version"@, 0);
    lemma_differ("ping"@, "account"@, 0);
    lemma_differ("ping"@, "events"@, 0);
    lemma_differ("ping"@, "matrix"@, 0);
    lemma_differ("ping"@, "room"@, 0);
    lemma_differ("ping"@, "verification"@, 0);
    lemma_differ("ping"@, "help"@, 0);
    lemma_differ("ping"@, "quit"@, 0);
    lemma_differ("ping"@, "exit"@, 0);
    lemma_differ("version"@, "account"@, 0);
    lemma_differ("version"@, "events"@, 0);
    lemma_differ("version"@, "matrix"@, 0);
    lemma_differ("version"@, "room"@, 0);
    lemma_differ("version"@, "verification"@, 3);
    lemma_differ("version"@, "help"@, 0);
    lemma_differ("version"@, "quit"@, 0);
    lemma_differ("version"@, "exit"@, 0);
    lemma_differ("account"@, "events"@, 0);
    lemma_differ("account"@, "matrix"@, 0);
    lemma_differ("account"@, "room"@, 0);
    lemma_differ("account"@, "verification"@, 0);
    lemma_differ("account"@, "help"@, 0);
    lemma_differ("account"@, "quit"@, 0);
    lemma_differ("account"@, "exit"@, 0);
    lemma_differ("events"@, "matrix"@, 0);
    lemma_differ("events"@, "room"@, 0);
    lemma_differ("events"@, "verification"@, 0);
    lemma_differ("events"@, "help"@, 0);
    lemma_differ("events"@, "quit"@, 0);
    lemma_differ("events"@, "exit"@, 1);
    lemma_differ("matrix"@, "room"@, 0);
    lemma_differ("matrix"@, "verification"@, 0);
    lemma_differ("matrix"@, "help"@, 0);
    lemma_differ("matrix"@, "quit"@, 0);
    lemma_differ("matrix"@, "exit"@, 0);
    lemma_differ("room"@, "verification"@, 0);
    lemma_differ("room"@, "help"@, 0);
    lemma_differ("room"@, "quit"@, 0);
    lemma_differ("room"@, "exit"@, 0);
    lemma_differ("verification"@, "help"@, 0);
    lemma_differ("verification"@, "quit"@, 0);
    lemma_differ("verification"@, "exit"@, 0);
    lemma_differ("help"@, "quit"@, 0);
    lemma_differ("help"@, "exit"@, 0);
    lemma_differ("quit"@, "exit"@, 0);
    assert(all =~= seq![
        "ping"@,
        "version"@,
        "account"@,
        "events"@,
        "matrix"@,
        "room"@,
        "verification"@,
        "help"@,
        "quit"@,
        "exit"@,
    ]);
    law_only_beginning("ping"@, all, 0);
    law_only_beginning("version"@, all, 1);
    law_only_beginning("account"@, all, 2);
    law_only_beginning("events"@, all, 3);
    law_only_beginning("matrix"@, all, 4);
    law_only_beginning("room"@, all, 5);
    law_only_beginning("verification"@, all, 6);
    law_only_beginning("help"@, all, 7);
    law_only_beginning("quit"@, all, 8);
    law_only_beginning("exit"@, all, 9);
}

proof fn lemma_account_words_stand_for_themselves()
    ensures
        stands_for_itself("add"@, ctl::subcommands("account"@)),
        stands_for_itself("list"@, ctl::subcommands("account"@)),
        stands_for_itself("login-start"@, ctl::subcommands("account"@)),
        stands_for_itself("login-complete"@, ctl::subcommands("account"@)),
        stands_for_itself("login-password"@, ctl::subcommands("account"@)),
        stands_for_itself("session-restore"@, ctl::subcommands("account"@)),
{
    let all = ctl::subcommands("account"@);
    reveal_strlit("account");
    reveal_strlit("events");
    reveal_strlit("matrix");
    reveal_strlit("room");
    reveal_strlit("verification");
    assert("account"@.len() == 7 && "account"@[0] == 'a');
    assert("events"@.len() == 6 && "events"@[0] == 'e');
    assert("matrix"@.len() == 6 && "matrix"@[0] == 'm');
    assert("room"@.len() == 4 && "room"@[0] == 'r');
    assert("verification"@.len() == 12 && "verification"@[0] == 'v');
    reveal_strlit("add");
    reveal_strlit("list");
    reveal_strlit("login-start");
    reveal_strlit("login-complete");
    reveal_strlit("login-password");
    reveal_strlit("session-restore");
    assert("add"@.len() == 3);
    assert("add"@[0] == 'a');
    assert("list"@.len() == 4);
    assert("list"@[0] == 'l');
    assert("list"@[1] == 'i');
    assert("login-start"@.len() == 11);
    assert("login-start"@[0] == 'l');
    assert("login-start"@[1] == 'o');
    assert("login-start"@[6] == 's');
    assert("login-complete"@.len() == 14);
    assert("login-complete"@[0] == 'l');
    assert("login-complete"@[1] == 'o');
    assert("login-complete"@[6] == 'c');
    assert("login-password"@.len() == 14);
    assert("login-password"@[0] == 'l');
    assert("login-password"@[1] == 'o');
    assert("login-password"@[6] == 'p');
    assert("session-restore"@.len() == 15);
    assert("session-restore"@[0] == 's');
    lemma_differ("add"@, "list"@, 0);
    lemma_differ("add"@, "login-start"@, 0);
    lemma_differ("add"@, "login-complete"@, 0);
    lemma_differ("add"@, "login-password"@, 0);
    lemma_differ("add"@, "session-restore"@, 0);
    lemma_differ("list"@, "login-start"@, 1);
    lemma_differ("list"@, "login-complete"@, 1);
    lemma_differ("list"@, "login-password"@, 1);
    lemma_differ("list"@, "session-restore"@, 0);
    lemma_differ("login-start"@, "login-complete"@, 6);
    lemma_differ("login-start"@, "login-password"@, 6);
    lemma_differ("login-start"@, "session-restore"@, 0);
    lemma_differ("login-complete"@, "login-password"@, 6);
    lemma_differ("login-complete"@, "session-restore"@, 0);
    lemma_differ("login-password"@, "session-restore"@, 0);
    assert(all =~= seq![
        "add"@,
        "list"@,
        "login-start"@,
        "login-complete"@,
        "login-password"@,
        "session-restore"@,
    ]);
    law_only_beginning("add"@, all, 0);
    law_only_beginning("list"@, all, 1);
    law_only_beginning("login-start"@, all, 2);
    law_only_beginning("login-complete"@, all, 3);
    law_only_beginning("login-password"@, all, 4);
    law_only_beginning("session-restore"@, all, 5);
}

proof fn lemma_events_words_stand_for_themselves()
    ensures
        stands_for_itself("subscribe"@, ctl::subcommands("events"@)),
        stands_for_itself("unsubscribe"@, ctl::subcommands("events"@)),
{
    let all = ctl::subcommands("events"@);
    reveal_strlit("account");
    reveal_strlit("events");
    reveal_strlit("matrix");
    reveal_strlit("room");
    reveal_strlit("verification");
    assert("account"@.len() == 7 && "account"@[0] == 'a');
    assert("events"@.len() == 6 && "events"@[0] == 'e');
    assert("matrix"@.len() == 6 && "matrix"@[0] == 'm');
    assert("room"@.len() == 4 && "room"@[0] == 'r');
    assert("verification"@.len() == 12 && "verification"@[0] == 'v');
    reveal_strlit("subscribe");
    reveal_strlit("unsubscribe");
    assert("subscribe"@.len() == 9);
    assert("subscribe"@[0] == 's');
    assert("unsubscribe"@.len() == 11);
    assert("unsubscribe"@[0] == 'u');
    lemma_differ("subscribe"@, "unsubscribe"@, 0);
    assert(all =~= seq![
        "subscribe"@,
        "unsubscribe"@,
    ]);
    law_only_beginning("subscribe"@, all, 0);
    law_only_beginning("unsubscribe"@, all, 1);
}

proof fn lemma_matrix_words_stand_for_themselves()
    ensures
        stands_for_itself("login-flows"@, ctl::subcommands("matrix"@)),
        stands_for_itself("capabilities"@, ctl::subcommands("matrix"@)),
{
    let all = ctl::subcommands("matrix"@);
    reveal_strlit("account");
    reveal_strlit("events");
    reveal_strlit("matrix");
    reveal_strlit("room");
    reveal_strlit("verification");
    assert("account"@.len() == 7 && "account"@[0] == 'a');
    assert("events"@.len() == 6 && "events"@[0] == 'e');
    assert("matrix"@.len() == 6 && "matrix"@[0] == 'm');
    assert("room"@.len() == 4 && "room"@[0] == 'r');
    assert("verification"@.len() == 12 && "verification"@[0] == 'v');
    reveal_strlit("login-flows");
    reveal_strlit("capabilities");
    assert("login-flows"@.len() == 11);
    assert("login-flows"@[0] == 'l');
    assert("capabilities"@.len() == 12);
    assert("capabilities"@[0] == 'c');
    lemma_differ("login-flows"@, "capabilities"@, 0);
    assert(all =~= seq![
        "login-flows"@,
        "capabilities"@,
    ]);
    law_only_beginning("login-flows"@, all, 0);
    law_only_beginning("capabilities"@, all, 1);
}

proof fn lemma_room_words_stand_for_themselves()
    ensures
        stands_for_itself("list"@, ctl::subcommands("room"@)),
        stands_for_itself("messages"@, ctl::subcommands("room"@)),
        stands_for_itself("send"@, ctl::subcommands("room"@)),
{
    let all = ctl::subcommands("room"@);
    reveal_strlit("account");
    reveal_strlit("events");
    reveal_strlit("matrix");
    reveal_strlit("room");
    reveal_strlit("verification");
    assert("account"@.len() == 7 && "account"@[0] == 'a');
    assert("events"@.len() == 6 && "events"@[0] == 'e');
    assert("matrix"@.len() == 6 && "matrix"@[0] == 'm');
    assert("room"@.len() == 4 && "room"@[0] == 'r');
    assert("verification"@.len() == 12 && "verification"@[0] == 'v');
    reveal_strlit("list");
    reveal_strlit("messages");
    reveal_strlit("send");
    assert("list"@.len() == 4);
    assert("list"@[0] == 'l');
    assert("messages"@.len() == 8);
    assert("messages"@[0] == 'm');
    assert("send"@.len() == 4);
    assert("send"@[0] == 's');
    lemma_differ("list"@, "messages"@, 0);
    lemma_differ("list"@, "send"@, 0);
    lemma_differ("messages"@, "send"@, 0);
    assert(all =~= seq![
        "list"@,
        "messages"@,
        "send"@,
    ]);
    law_only_beginning("list"@, all, 0);
    law_only_beginning("messages"@, all, 1);
    law_only_beginning("send"@, all, 2);
}

proof fn lemma_verification_words_stand_for_themselves()
    ensures
        stands_for_itself("request"@, ctl::subcommands("verification"@)),
        stands_for_itself("accept"@, ctl::subcommands("verification"@)),
        stands_for_itself("confirm"@, ctl::subcommands("verification"@)),
        stands_for_itself("cancel"@, ctl::subcommands("verification"@)),
{
    let all = ctl::subcommands("verification"@);
    reveal_strlit("account");
    reveal_strlit("events");
    reveal_strlit("matrix");
    reveal_strlit("room");
    reveal_strlit("verification");
    assert("account"@.len() == 7 && "account"@[0] == 'a');
    assert("events"@.len() == 6 && "events"@[0] == 'e');
    assert("matrix"@.len() == 6 && "matrix"@[0] == 'm');
    assert("room"@.len() == 4 && "room"@[0] == 'r');
    assert("verification"@.len() == 12 && "verification"@[0] == 'v');
    reveal_strlit("request");
    reveal_strlit("accept");
    reveal_strlit("confirm");
    reveal_strlit("cancel");
    assert("request"@.len() == 7);
    assert("request"@[0] == 'r');
    assert("accept"@.len() == 6);
    assert("accept"@[0] == 'a');
    assert("confirm"@.len() == 7);
    assert("confirm"@[0] == 'c');
    assert("confirm"@[1] == 'o');
    assert("cancel"@.len() == 6);
    assert("cancel"@[0] == 'c');
    assert("cancel"@[1] == 'a');
    lemma_differ("request"@, "accept"@, 0);
    lemma_differ("request"@, "confirm"@, 0);
    lemma_differ("request"@, "cancel"@, 0);
    lemma_differ("accept"@, "confirm"@, 0);
    lemma_differ("accept"@, "cancel"@, 0);
    lemma_differ("confirm"@, "cancel"@, 1);
    assert(all =~= seq![
        "request"@,
        "accept"@,
        "confirm"@,
        "cancel"@,
    ]);
    law_only_beginning("request"@, all, 0);
    law_only_beginning("accept"@, all, 1);
    law_only_beginning("confirm"@, all, 2);
    law_only_beginning("cancel"@, all, 3);
}

/// Whether the words begin with these two.
pub open spec fn begins(words: Seq<Seq<char>>, first: Seq<char>, second: Seq<char>) -> bool {
    words.len() > 1 && words[0] == first && words[1] == second
}

/// Every command does what it is named for, with the words behind it: those without
/// subcommands take all words behind them, the others those behind the subcommand. A
/// command without its subcommand shows the help on it, and no words do nothing.
pub proof fn law_commands_are_known(words: Vec<String>, r: Parsed)
    requires
        call_ensures(ctl::parse_command, (words,), r),
    ensures
        ({
            let w = text::texts(words@);
            let behind = w.drop_first();
            let rest = behind.drop_first();
            &&& w.len() == 0 ==> r@ == ParsedView::Show(Seq::empty())
            &&& w.len() > 0 && w[0] == "ping"@ ==> r@ == ParsedView::Run(Sub::Ping, behind)
            &&& w.len() > 0 && w[0] == "version"@ ==> r@ == ParsedView::Run(Sub::Version, behind)
            &&& w.len() > 0 && (w[0] == "quit"@ || w[0] == "exit"@) ==> r@ == ParsedView::Quit
            &&& w.len() == 1 && w[0] == "help"@ ==> r@ == ParsedView::Show(
                ctl_text::help_lines(None),
            )
            &&& w.len() > 1 && w[0] == "help"@ ==> r@ == ParsedView::Show(
                ctl_text::help_lines(Some(w[1])),
            )
            &&& w.len() == 1 && (w[0] == "account"@ || w[0] == "events"@ || w[0] == "matrix"@
                || w[0] == "room"@ || w[0] == "verification"@) ==> r@ == ParsedView::Show(
                ctl_text::help_lines(Some(w[0])),
            )
            &&& begins(w, "account"@, "add"@) ==> r@ == ParsedView::Run(
                Sub::AccountAdd,
                rest,
            )
            &&& begins(w, "account"@, "list"@) ==> r@ == ParsedView::Run(
                Sub::AccountList,
                rest,
            )
            &&& begins(w, "account"@, "login-start"@) ==> r@ == ParsedView::Run(
                Sub::LoginStart,
                rest,
            )
            &&& begins(w, "account"@, "login-complete"@) ==> r@ == ParsedView::Run(
                Sub::LoginComplete,
                rest,
            )
            &&& begins(w, "account"@, "login-password"@) ==> r@ == ParsedView::Run(
                Sub::LoginPassword,
                rest,
            )
            &&& begins(w, "account"@, "session-restore"@) ==> r@ == ParsedView::Run(
                Sub::SessionRestore,
                rest,
            )
            &&& begins(w, "events"@, "subscribe"@) ==> r@ == ParsedView::Run(
                Sub::Subscribe,
                rest,
            )
            &&& begins(w, "events"@, "unsubscribe"@) ==> r@ == ParsedView::Run(
                Sub::Unsubscribe,
                rest,
            )
            &&& begins(w, "matrix"@, "login-flows"@) ==> r@ == ParsedView::Run(
                Sub::LoginFlows,
                rest,
            )
            &&& begins(w, "matrix"@, "capabilities"@) ==> r@ == ParsedView::Run(
                Sub::Capabilities,
                rest,
            )
            &&& begins(w, "room"@, "list"@) ==> r@ == ParsedView::Run(
                Sub::RoomList,
                rest,
            )
            &&& begins(w, "room"@, "messages"@) ==> r@ == ParsedView::Run(
                Sub::RoomMessages,
                rest,
            )
            &&& begins(w, "room"@, "send"@) ==> r@ == ParsedView::Run(
                Sub::RoomSend,
                rest,
            )
            &&& begins(w, "verification"@, "request"@) ==> r@ == ParsedView::Run(
                Sub::Request,
                rest,
            )
            &&& begins(w, "verification"@, "accept"@) ==> r@ == ParsedView::Run(
                Sub::Accept,
                rest,
            )
            &&& begins(w, "verification"@, "confirm"@) ==> r@ == ParsedView::Run(
                Sub::Confirm,
                rest,
            )
            &&& begins(w, "verification"@, "cancel"@) ==> r@ == ParsedView::Run(
                Sub::Cancel,
                rest,
            )
        }),
{
    lemma_commands_stand_for_themselves();
    lemma_account_words_stand_for_themselves();
    lemma_events_words_stand_for_themselves();
    lemma_matrix_words_stand_for_themselves();
    lemma_room_words_stand_for_themselves();
    lemma_verification_words_stand_for_themselves();
    reveal_strlit("ping");
    reveal_strlit("version");
    reveal_strlit("account");
    reveal_strlit("events");
    reveal_strlit("matrix");
    reveal_strlit("room");
    reveal_strlit("verification");
    reveal_strlit("help");
    reveal_strlit("quit");
    reveal_strlit("exit");
    reveal_strlit("add");
    reveal_strlit("list");
    reveal_strlit("login-start");
    reveal_strlit("login-complete");
    reveal_strlit("login-password");
    reveal_strlit("session-restore");
    reveal_strlit("subscribe");
    reveal_strlit("unsubscribe");
    reveal_strlit("login-flows");
    reveal_strlit("capabilities");
    reveal_strlit("messages");
    reveal_strlit("send");
    reveal_strlit("request");
    reveal_strlit("accept");
    reveal_strlit("confirm");
    reveal_strlit("cancel");
    assert("ping"@.len() == 4);
    assert("ping"@[0] == 'p');
    assert("version"@.len() == 7);
    assert("version"@[0] == 'v');
    assert("account"@.len() == 7);
    assert("account"@[0] == 'a');
    assert("events"@.len() == 6);
    assert("events"@[0] == 'e');
    assert("events"@[1] == 'v');
    assert("matrix"@.len() == 6);
    assert("matrix"@[0] == 'm');
    assert("room"@.len() == 4);
    assert("room"@[0] == 'r');
    assert("verification"@.len() == 12);
    assert("verification"@[0] == 'v');
    assert("help"@.len() == 4);
    assert("help"@[0] == 'h');
    assert("quit"@.len() == 4);
    assert("quit"@[0] == 'q');
    assert("exit"@.len() == 4);
    assert("exit"@[0] == 'e');
    assert("exit"@[1] == 'x');
    assert("add"@.len() == 3);
    assert("add"@[0] == 'a');
    assert("list"@.len() == 4);
    assert("list"@[0] == 'l');
    assert("login-start"@.len() == 11);
    assert("login-start"@[0] == 'l');
    assert("login-complete"@.len() == 14);
    assert("login-complete"@[0] == 'l');
    assert("login-complete"@[6] == 'c');
    assert("login-password"@.len() == 14);
    assert("login-password"@[0] == 'l');
    assert("login-password"@[6] == 'p');
    assert("session-restore"@.len() == 15);
    assert("session-restore"@[0] == 's');
    assert("subscribe"@.len() == 9);
    assert("subscribe"@[0] == 's');
    assert("unsubscribe"@.len() == 11);
    assert("unsubscribe"@[0] == 'u');
    assert("login-flows"@.len() == 11);
    assert("login-flows"@[0] == 'l');
    assert("capabilities"@.len() == 12);
    assert("capabilities"@[0] == 'c');
    assert("messages"@.len() == 8);
    assert("messages"@[0] == 'm');
    assert("send"@.len() == 4);
    assert("send"@[0] == 's');
    assert("request"@.len() == 7);
    assert("request"@[0] == 'r');
    assert("accept"@.len() == 6);
    assert("accept"@[0] == 'a');
    assert("confirm"@.len() == 7);
    assert("confirm"@[0] == 'c');
    assert("confirm"@[1] == 'o');
    assert("cancel"@.len() == 6);
    assert("cancel"@[0] == 'c');
    assert("cancel"@[1] == 'a');
}

/// A command that is cut short does what the whole one does, where no other begins so.
pub proof fn law_commands_may_be_cut_short(first: Seq<char>, rest: Seq<Seq<char>>, at: int)
    requires
        0 <= at < ctl::commands().len(),
        first.is_prefix_of(ctl::commands()[at]),
        forall|i: int|
            0 <= i < ctl::commands().len() && i != at ==> !first.is_prefix_of(
                #[trigger] ctl::commands()[i],
            ),
    ensures
        ctl::command_parsed(seq![first] + rest) == ctl::command_parsed(
            seq![ctl::commands()[at]] + rest,
        ),
{
    law_only_beginning(first, ctl::commands(), at);
    lemma_commands_stand_for_themselves();
    assert((seq![first] + rest).drop_first() =~= rest);
    assert((seq![ctl::commands()[at]] + rest).drop_first() =~= rest);
}

/// The help names every command, and that on a command every one of its subcommands, with
/// its words and options.
pub proof fn law_help(topic: Option<&str>, lines: Vec<String>)
    requires
        call_ensures(ctl_text::help, (topic,), lines),
    ensures
        topic is None ==> text::texts(lines@) == seq![
            "commands:"@,
            "  ping"@,
            "  version"@,
            "  account <subcommand>"@,
            "  events <subcommand>"@,
            "  matrix <subcommand>"@,
            "  room <subcommand>"@,
            "  verification <subcommand>"@,
            "  help [command]"@,
            "  quit"@,
        ],
        topic is Some && topic->0@ == "account"@ ==> text::texts(lines@) == seq![
            "account subcommands:"@,
            "  account add <homeserver> [--login-method sso|password]"@,
            "  account list"@,
            "  account login-start <account_id> [--login-method sso|password]"@,
            "  account login-complete <account_id> <token> [--device-name NAME]"@,
            "  account login-password <account_id> <username> <password> [--device-name NAME]"@,
            "  account session-restore <account_id>"@,
        ],
        topic is Some && topic->0@ == "events"@ ==> text::texts(lines@) == seq![
            "events subcommands:"@,
            "  events subscribe <account_id> [--since CURSOR] [--snapshot|--no-snapshot]"@,
            "  events unsubscribe"@,
        ],
        topic is Some && topic->0@ == "matrix"@ ==> text::texts(lines@) == seq![
            "matrix subcommands:"@,
            "  matrix login-flows <homeserver>"@,
            "  matrix capabilities <homeserver>"@,
        ],
        topic is Some && topic->0@ == "verification"@ ==> text::texts(lines@) == seq![
            "verification subcommands:"@,
            "  verification request <account_id> <user_id> [--device-id DEVICE]"@,
            "  verification accept <account_id> <user_id> <flow_id>"@,
            "  verification confirm <account_id> <user_id> <flow_id> [--match true|false]"@,
            "  verification cancel <account_id> <user_id> <flow_id>"@,
        ],
        topic is Some && topic->0@ == "room"@ ==> text::texts(lines@) == seq![
            "room subcommands:"@,
            "  room list <account_id>"@,
            "  room messages <account_id> <room_id> [--limit N] [--from TOKEN] [--debug]"@,
            "  room send <account_id> <room_id> <body...> [--txn-id ID]"@,
        ],
        topic is Some && topic->0@ != "account"@ && topic->0@ != "events"@ && topic->0@
            != "matrix"@ && topic->0@ != "verification"@ && topic->0@ != "room"@ ==> text::texts(
            lines@,
        ) == seq!["unknown help topic"@],
{
    reveal_strlit("account");
    reveal_strlit("events");
    reveal_strlit("matrix");
    reveal_strlit("verification");
    reveal_strlit("room");
    assert("account"@.len() == 7 && "verification"@.len() == 12 && "room"@.len() == 4);
    assert("events"@.len() == 6 && "events"@[0] == 'e');
    assert("matrix"@.len() == 6 && "matrix"@[0] == 'm');
}

} // verus!
