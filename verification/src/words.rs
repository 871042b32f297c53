//! Small operations on what the user types.
use vstd::prelude::*;
use vstd::string::{StrSliceExecFns, StringExecFns};

verus! {

/// Whether `char::is_whitespace` holds of a character: the Unicode property
/// White_Space.
pub uninterp spec fn unicode_whitespace(c: char) -> bool;

/// `char::is_whitespace`: whether the character has the Unicode property
/// White_Space. It depends on the character alone.
pub assume_specification[ char::is_whitespace ](c: char) -> (r: bool)
    ensures
        r == unicode_whitespace(c),
;

/// The characters of a string.
pub fn chars_of(text: &str) -> (r: Vec<char>)
    ensures
        r@ == text@,
{
    let mut r: Vec<char> = Vec::new();
    for c in iter: text.chars()
        invariant
            iter.seq() == text@,
            r@ == text@.take(iter.index() as int),
    {
        r.push(c);
        assert(text@.take(iter.index() as int + 1) =~= text@.take(iter.index() as int).push(c));
    }
    assert(text@.take(text@.len() as int) =~= text@);
    r
}

/// The length of the longest run of trailing characters that satisfy `drop`.
pub open spec fn trailing(text: Seq<char>, drop: spec_fn(char) -> bool) -> nat
    decreases text.len(),
{
    if text.len() > 0 && drop(text.last()) {
        trailing(text.drop_last(), drop) + 1
    } else {
        0
    }
}

/// The length of the longest run of leading characters that satisfy `drop`.
pub open spec fn leading(text: Seq<char>, drop: spec_fn(char) -> bool) -> nat
    decreases text.len(),
{
    if text.len() > 0 && drop(text[0]) {
        leading(text.drop_first(), drop) + 1
    } else {
        0
    }
}

/// A text without its trailing characters that satisfy `drop`.
pub open spec fn without_trailing(text: Seq<char>, drop: spec_fn(char) -> bool) -> Seq<char> {
    text.take(text.len() - trailing(text, drop))
}

/// A text without the white space around it.
pub open spec fn trimmed(text: Seq<char>) -> Seq<char> {
    without_trailing(text, |c: char| unicode_whitespace(c)).skip(
        leading(without_trailing(text, |c: char| unicode_whitespace(c)), |c: char| unicode_whitespace(c)) as int,
    )
}

/// Whether nothing but white space is in a text.
pub open spec fn blank(text: Seq<char>) -> bool {
    forall|i: int| 0 <= i < text.len() ==> unicode_whitespace(#[trigger] text[i])
}

proof fn lemma_trailing_step(text: Seq<char>, end: int, drop: spec_fn(char) -> bool)
    requires
        0 < end <= text.len(),
        drop(text[end - 1]),
    ensures
        trailing(text.take(end), drop) == trailing(text.take(end - 1), drop) + 1,
{
    assert(text.take(end).last() == text[end - 1]);
    assert(text.take(end).drop_last() =~= text.take(end - 1));
}

proof fn lemma_trailing_bound(text: Seq<char>, drop: spec_fn(char) -> bool)
    ensures
        trailing(text, drop) <= text.len(),
    decreases text.len(),
{
    if text.len() > 0 && drop(text.last()) {
        lemma_trailing_bound(text.drop_last(), drop);
    }
}

proof fn lemma_leading_bound(text: Seq<char>, drop: spec_fn(char) -> bool)
    ensures
        leading(text, drop) <= text.len(),
        leading(text, drop) < text.len() ==> !drop(text[leading(text, drop) as int]),
    decreases text.len(),
{
    if text.len() > 0 && drop(text[0]) {
        lemma_leading_bound(text.drop_first(), drop);
    }
}

/// The text without trailing full stops, ellipses and spaces.
pub open spec fn label_stem(text: Seq<char>) -> Seq<char> {
    without_trailing(text, |c: char| c == '.' || c == '…' || c == ' ')
}

/// Drop what a running task's label ends in, so that "Generating contours…" can
/// be followed by what became of it.
pub fn stem_of_label(text: &String) -> (r: String)
    ensures
        r@ == label_stem(text@),
{
    let chars = chars_of(text.as_str());
    let ghost drop = |c: char| c == '.' || c == '…' || c == ' ';
    let mut end: usize = chars.len();
    assert(text@.take(end as int) =~= text@);
    while end > 0 && (chars[end - 1] == '.' || chars[end - 1] == '…' || chars[end - 1] == ' ')
        invariant
            end <= chars@.len(),
            chars@ == text@,
            drop == (|c: char| c == '.' || c == '…' || c == ' '),
            trailing(text@, drop) == trailing(text@.take(end as int), drop) + (text@.len() - end),
        decreases end,
    {
        proof {
            lemma_trailing_step(text@, end as int, drop);
        }
        end = end - 1;
    }
    proof {
        if end > 0 {
            assert(text@.take(end as int).last() == text@[end - 1]);
        }
        assert(trailing(text@.take(end as int), drop) == 0);
        assert(text@.subrange(0, end as int) =~= text@.take(end as int));
    }
    text.as_str().substring_char(0, end).to_owned()
}

/// Drop the white space around a text.
pub fn trim(text: &str) -> (r: String)
    ensures
        r@ == trimmed(text@),
{
    let chars = chars_of(text);
    let ghost drop = |c: char| unicode_whitespace(c);
    let mut end: usize = chars.len();
    assert(text@.take(end as int) =~= text@);
    while end > 0 && chars[end - 1].is_whitespace()
        invariant
            end <= chars@.len(),
            chars@ == text@,
            drop == (|c: char| unicode_whitespace(c)),
            trailing(text@, drop) == trailing(text@.take(end as int), drop) + (text@.len() - end),
        decreases end,
    {
        proof {
            lemma_trailing_step(text@, end as int, drop);
        }
        end = end - 1;
    }
    let ghost kept = text@.take(end as int);
    proof {
        if end > 0 {
            assert(kept.last() == text@[end - 1]);
        }
        assert(trailing(kept, drop) == 0);
        assert(without_trailing(text@, drop) == kept);
    }
    let mut start: usize = 0;
    assert(kept.skip(0) =~= kept);
    while start < end && chars[start].is_whitespace()
        invariant
            start <= end <= chars@.len(),
            chars@ == text@,
            kept == text@.take(end as int),
            drop == (|c: char| unicode_whitespace(c)),
            leading(kept, drop) == leading(kept.skip(start as int), drop) + start,
        decreases end - start,
    {
        proof {
            assert(kept.skip(start as int)[0] == text@[start as int]);
            assert(kept.skip(start as int).drop_first() =~= kept.skip(start + 1));
        }
        start = start + 1;
    }
    proof {
        if start < end {
            assert(kept.skip(start as int)[0] == text@[start as int]);
        }
        assert(leading(kept.skip(start as int), drop) == 0);
        assert(text@.subrange(start as int, end as int) =~= kept.skip(start as int));
    }
    text.substring_char(start, end).to_owned()
}

/// A text is blank exactly where trimming leaves nothing of it.
pub proof fn blank_text_trims_to_nothing(text: Seq<char>)
    ensures
        trimmed(text).len() == 0 <==> blank(text),
{
    let drop = |c: char| unicode_whitespace(c);
    let kept = without_trailing(text, drop);
    lemma_trailing_bound(text, drop);
    lemma_leading_bound(kept, drop);
    lemma_trailing_all(text, drop);
    if blank(text) {
        assert forall|i: int| 0 <= i < kept.len() implies drop(#[trigger] kept[i]) by {
            assert(kept[i] == text[i]);
        }
    }
    if trimmed(text).len() == 0 && kept.len() > 0 {
        lemma_leading_all(kept, drop);
        assert(drop(kept[kept.len() - 1]));
        lemma_trailing_exact(text, drop);
    }
    if trimmed(text).len() == 0 {
        assert(kept.len() == 0);
        assert forall|i: int| 0 <= i < text.len() implies unicode_whitespace(#[trigger] text[i]) by {
            assert(drop(text[i]));
        }
    }
}

/// Every character of the trailing run satisfies `drop`.
proof fn lemma_trailing_all(text: Seq<char>, drop: spec_fn(char) -> bool)
    ensures
        trailing(text, drop) <= text.len(),
        forall|i: int| text.len() - trailing(text, drop) <= i < text.len() ==> drop(#[trigger] text[i]),
    decreases text.len(),
{
    if text.len() > 0 && drop(text.last()) {
        let rest = text.drop_last();
        lemma_trailing_all(rest, drop);
        assert forall|i: int| text.len() - trailing(text, drop) <= i < text.len() implies drop(#[trigger] text[i]) by {
            if i < text.len() - 1 {
                assert(text[i] == rest[i]);
            }
        }
    }
}

/// The character before the trailing run does not satisfy `drop`.
proof fn lemma_trailing_exact(text: Seq<char>, drop: spec_fn(char) -> bool)
    ensures
        trailing(text, drop) < text.len() ==> !drop(text[text.len() - trailing(text, drop) - 1]),
    decreases text.len(),
{
    if text.len() > 0 && drop(text.last()) {
        lemma_trailing_exact(text.drop_last(), drop);
        lemma_trailing_bound(text.drop_last(), drop);
    }
}

/// Every character of the leading run satisfies `drop`.
proof fn lemma_leading_all(text: Seq<char>, drop: spec_fn(char) -> bool)
    ensures
        forall|i: int| 0 <= i < leading(text, drop) ==> drop(#[trigger] text[i]),
    decreases text.len(),
{
    if text.len() > 0 && drop(text[0]) {
        let rest = text.drop_first();
        lemma_leading_all(rest, drop);
        lemma_leading_bound(text, drop);
        assert forall|i: int| 0 <= i < leading(text, drop) implies drop(#[trigger] text[i]) by {
            if i > 0 {
                assert(text[i] == rest[i - 1]);
            }
        }
    }
}

pub open spec fn decimal_digit(c: char) -> bool {
    '0' <= c && c <= '9'
}

/// Unsigned decimal notation: digits, at least one, and at most one point.
pub open spec fn unsigned_decimal(text: Seq<char>) -> bool {
    &&& exists|i: int| 0 <= i < text.len() && decimal_digit(#[trigger] text[i])
    &&& forall|i: int| 0 <= i < text.len() ==> decimal_digit(#[trigger] text[i]) || text[i] == '.'
    &&& forall|i: int, j: int| 0 <= i < j < text.len() ==> !(#[trigger] text[i] == '.' && #[trigger] text[j] == '.')
}

pub fn is_unsigned_decimal(text: &str) -> (r: bool)
    ensures
        r == unsigned_decimal(text@),
{
    let chars = chars_of(text);
    let mut digit_seen: bool = false;
    let mut point_seen: bool = false;
    let mut i: usize = 0;
    while i < chars.len()
        invariant
            i <= chars@.len(),
            chars@ == text@,
            digit_seen == (exists|k: int| 0 <= k < i && decimal_digit(#[trigger] text@[k])),
            point_seen == (exists|k: int| 0 <= k < i && #[trigger] text@[k] == '.'),
            forall|k: int| 0 <= k < i ==> decimal_digit(#[trigger] text@[k]) || text@[k] == '.',
            forall|k: int, l: int| 0 <= k < l < i ==> !(#[trigger] text@[k] == '.' && #[trigger] text@[l] == '.'),
        decreases chars@.len() - i,
    {
        let c = chars[i];
        if '0' <= c && c <= '9' {
            assert(decimal_digit(text@[i as int]));
            digit_seen = true;
        } else if c == '.' && !point_seen {
            assert(text@[i as int] == '.');
            point_seen = true;
        } else {
            proof {
                assert(text@[i as int] == c);
                if point_seen {
                    let k = choose|k: int| 0 <= k < i && #[trigger] text@[k] == '.';
                    assert(text@[k] == '.');
                }
            }
            return false;
        }
        i = i + 1;
    }
    digit_seen
}

/// A text with every carriage return that a line feed follows taken out.
pub open spec fn with_line_feeds(text: Seq<char>) -> Seq<char>
    decreases text.len(),
{
    if text.len() == 0 {
        text
    } else if text.len() >= 2 && text[0] == '\r' && text[1] == '\n' {
        with_line_feeds(text.skip(1))
    } else {
        seq![text[0]] + with_line_feeds(text.skip(1))
    }
}

proof fn lemma_with_line_feeds_run(text: Seq<char>, count: int)
    requires
        0 <= count <= text.len(),
        forall|k: int| 0 <= k < count ==> !(#[trigger] text[k] == '\r' && k + 1 < text.len() && text[k + 1] == '\n'),
    ensures
        with_line_feeds(text) == text.take(count) + with_line_feeds(text.skip(count)),
    decreases count,
{
    if count == 0 {
        assert(text.skip(0) =~= text);
        assert(text.take(0) + with_line_feeds(text) =~= with_line_feeds(text));
    } else {
        let rest = text.skip(1);
        assert forall|k: int| 0 <= k < count - 1 implies !(#[trigger] rest[k] == '\r' && k + 1 < rest.len() && rest[k + 1] == '\n') by {
            assert(rest[k] == text[k + 1]);
            if k + 1 < rest.len() {
                assert(rest[k + 1] == text[k + 2]);
            }
        }
        lemma_with_line_feeds_run(rest, count - 1);
        assert(!(text[0] == '\r' && text.len() >= 2 && text[1] == '\n'));
        assert(rest.skip(count - 1) =~= text.skip(count));
        assert(seq![text[0]] + (rest.take(count - 1) + with_line_feeds(rest.skip(count - 1))) =~= text.take(count) + with_line_feeds(
            text.skip(count),
        ));
    }
}

/// Turn the line ends of pasted text into line feeds.
pub fn normalise_line_ends(text: &str) -> (r: String)
    ensures
        r@ == with_line_feeds(text@),
{
    let chars = chars_of(text);
    let mut r = String::new();
    let mut start: usize = 0;
    assert(text@.skip(0) =~= text@);
    assert(r@ + with_line_feeds(text@.skip(0)) =~= with_line_feeds(text@));
    while start < chars.len()
        invariant
            start <= chars@.len(),
            chars@ == text@,
            r@ + with_line_feeds(text@.skip(start as int)) == with_line_feeds(text@),
        decreases chars@.len() - start,
    {
        let mut end: usize = start;
        while end < chars.len() && !(chars[end] == '\r' && end + 1 < chars.len() && chars[end + 1] == '\n')
            invariant
                start <= end <= chars@.len(),
                chars@ == text@,
                forall|k: int|
                    start <= k < end ==> !(#[trigger] text@[k] == '\r' && k + 1 < text@.len() && text@[k + 1] == '\n'),
            decreases chars@.len() - end,
        {
            end = end + 1;
        }
        let ghost tail = text@.skip(start as int);
        proof {
            assert forall|k: int| 0 <= k < end - start implies !(#[trigger] tail[k] == '\r' && k + 1 < tail.len() && tail[k + 1] == '\n') by {
                assert(tail[k] == text@[start + k]);
                if k + 1 < tail.len() {
                    assert(tail[k + 1] == text@[start + k + 1]);
                }
            }
            lemma_with_line_feeds_run(tail, end - start);
            assert(tail.take(end - start) =~= text@.subrange(start as int, end as int));
            assert(tail.skip(end - start) =~= text@.skip(end as int));
        }
        r.append(text.substring_char(start, end));
        assert(r@ + with_line_feeds(text@.skip(end as int)) =~= with_line_feeds(text@));
        if end < chars.len() {
            proof {
                let here = text@.skip(end as int);
                assert(here[0] == '\r' && here[1] == '\n');
                assert(here.skip(1) =~= text@.skip(end + 1));
            }
            start = end + 1;
        } else {
            start = end;
        }
    }
    assert(text@.skip(start as int) =~= Seq::<char>::empty());
    r
}

/// Pasted text waits as one entry with line feeds; an empty paste is dropped.
pub fn queue_paste(pending: &mut Vec<String>, text: &str)
    ensures
        with_line_feeds(text@).len() == 0 ==> final(pending)@ == old(pending)@,
        with_line_feeds(text@).len() > 0 ==> final(pending)@.len() == old(pending)@.len() + 1 && final(pending)@.drop_last()
            == old(pending)@ && final(pending)@.last()@ == with_line_feeds(text@),
{
    let normalised = normalise_line_ends(text);
    if !normalised.as_str().is_empty() {
        pending.push(normalised);
        assert(pending@.drop_last() =~= old(pending)@);
    }
}

/// Trimming takes white space off both ends and nothing else: what is left is a part of the
/// text with only white space before and after it, and neither begins nor ends with any.
pub proof fn trimming_takes_off_the_ends(text: Seq<char>)
    ensures
        ({
            let end = text.len() - trailing(text, |c: char| unicode_whitespace(c));
            let start = leading(without_trailing(text, |c: char| unicode_whitespace(c)), |c: char| unicode_whitespace(c));
            &&& 0 <= start <= end <= text.len()
            &&& trimmed(text) == text.subrange(start as int, end)
            &&& forall|i: int| 0 <= i < start ==> unicode_whitespace(#[trigger] text[i])
            &&& forall|i: int| end <= i < text.len() ==> unicode_whitespace(#[trigger] text[i])
        }),
        trimmed(text).len() > 0 ==> !unicode_whitespace(trimmed(text)[0]) && !unicode_whitespace(trimmed(text).last()),
{
    let drop = |c: char| unicode_whitespace(c);
    let kept = without_trailing(text, drop);
    lemma_trailing_bound(text, drop);
    lemma_trailing_all(text, drop);
    lemma_trailing_exact(text, drop);
    lemma_leading_bound(kept, drop);
    lemma_leading_all(kept, drop);
    let end = text.len() - trailing(text, drop);
    let start = leading(kept, drop);
    assert(trimmed(text) =~= text.subrange(start as int, end));
    assert forall|i: int| 0 <= i < start implies unicode_whitespace(#[trigger] text[i]) by {
        assert(kept[i] == text[i]);
        assert(drop(kept[i]));
    }
    assert forall|i: int| end <= i < text.len() implies unicode_whitespace(#[trigger] text[i]) by {
        assert(drop(text[i]));
    }
    if trimmed(text).len() > 0 {
        assert(!drop(kept[start as int]));
        assert(trimmed(text)[0] == kept[start as int]);
        assert(!drop(text[end - 1]));
        assert(trimmed(text).last() == text[end - 1]);
    }
}

/// A text that neither begins nor ends with white space is left as it is.
pub proof fn trimmed_texts_stay(text: Seq<char>)
    requires
        text.len() > 0,
        !unicode_whitespace(text[0]),
        !unicode_whitespace(text.last()),
    ensures
        trimmed(text) == text,
{
    let drop = |c: char| unicode_whitespace(c);
    assert(!drop(text.last()));
    assert(trailing(text, drop) == 0);
    assert(without_trailing(text, drop) =~= text);
    assert(!drop(text[0]));
    assert(leading(text, drop) == 0);
    assert(trimmed(text) =~= text);
}

/// The stem of a label is its beginning: what is dropped is full stops, ellipses and spaces,
/// and the stem does not end in any of them.
pub proof fn label_stems_drop_what_labels_end_in(text: Seq<char>)
    ensures
        label_stem(text).len() <= text.len(),
        label_stem(text) == text.take(label_stem(text).len() as int),
        forall|i: int| label_stem(text).len() <= i < text.len() ==> #[trigger] text[i] == '.' || text[i] == '…' || text[i] == ' ',
        label_stem(text).len() > 0 ==> label_stem(text).last() != '.' && label_stem(text).last() != '…' && label_stem(text).last() != ' ',
{
    let drop = |c: char| c == '.' || c == '…' || c == ' ';
    lemma_trailing_bound(text, drop);
    lemma_trailing_all(text, drop);
    lemma_trailing_exact(text, drop);
    let kept = text.len() - trailing(text, drop);
    assert(label_stem(text) =~= text.take(kept));
    assert forall|i: int| kept <= i < text.len() implies #[trigger] text[i] == '.' || text[i] == '…' || text[i] == ' ' by {
        assert(drop(text[i]));
    }
    if kept > 0 {
        assert(!drop(text[kept - 1]));
    }
}

/// A radius is written in digits with at most one point: no sign, no exponent, no space and
/// not a point alone.
pub proof fn decimals_are_digits_and_a_point(text: Seq<char>, place: int, other: int)
    ensures
        text.len() == 0 ==> !unsigned_decimal(text),
        unsigned_decimal(text) && 0 <= place < text.len() ==> ('0' <= text[place] && text[place] <= '9') || text[place] == '.',
        unsigned_decimal(text) && 0 <= place < other < text.len() ==> text[place] != '.' || text[other] != '.',
        text == seq!['.'] ==> !unsigned_decimal(text),
        text.len() > 0 && (forall|i: int| 0 <= i < text.len() ==> '0' <= #[trigger] text[i] && text[i] <= '9') ==> unsigned_decimal(text),
        0 <= place < text.len() && (text[place] == '-' || text[place] == '+' || text[place] == 'e' || text[place] == ' ')
            ==> !unsigned_decimal(text),
{
    if text.len() > 0 && (forall|i: int| 0 <= i < text.len() ==> '0' <= #[trigger] text[i] && text[i] <= '9') {
        assert(decimal_digit(text[0]));
        assert forall|i: int| 0 <= i < text.len() implies decimal_digit(#[trigger] text[i]) || text[i] == '.' by {}
        assert forall|i: int, j: int| 0 <= i < j < text.len() implies !(#[trigger] text[i] == '.' && #[trigger] text[j] == '.') by {
            assert('0' <= text[i]);
        }
    }
    if unsigned_decimal(text) && 0 <= place < text.len() {
        assert(decimal_digit(text[place]) || text[place] == '.');
    }
    if text == seq!['.'] && unsigned_decimal(text) {
        let k = choose|k: int| 0 <= k < text.len() && decimal_digit(#[trigger] text[k]);
        assert(text[k] == '.');
    }
}

/// Line ends are turned into line feeds and nothing else is touched: every character but a
/// carriage return stays, in its order, no character is added, and a text without a carriage
/// return stays as it is.
pub proof fn line_ends_become_line_feeds(text: Seq<char>)
    ensures
        with_line_feeds(text).filter(|c: char| c != '\r') == text.filter(|c: char| c != '\r'),
        with_line_feeds(text).len() <= text.len(),
        (forall|i: int| 0 <= i < text.len() ==> #[trigger] text[i] != '\r') ==> with_line_feeds(text) == text,
        with_line_feeds(seq!['\r', '\n'] + text) == seq!['\n'] + with_line_feeds(text),
    decreases text.len(),
{
    let keep = |c: char| c != '\r';
    let joined = seq!['\r', '\n'] + text;
    let tail = seq!['\n'] + text;
    assert(joined.skip(1) =~= tail);
    assert(tail.skip(1) =~= text);
    assert(joined[0] == '\r' && joined[1] == '\n');
    assert(with_line_feeds(joined) == with_line_feeds(tail));
    assert(tail[0] == '\n');
    assert(with_line_feeds(tail) == seq!['\n'] + with_line_feeds(text));
    if text.len() > 0 {
        let rest = text.skip(1);
        line_ends_become_line_feeds(rest);
        assert(text =~= seq![text[0]] + rest);
        Seq::filter_distributes_over_add(seq![text[0]], rest, keep);
        lemma_filter_one(text[0]);
        if text.len() >= 2 && text[0] == '\r' && text[1] == '\n' {
            assert(seq![text[0]].filter(keep) + rest.filter(keep) =~= rest.filter(keep));
        } else {
            Seq::filter_distributes_over_add(seq![text[0]], with_line_feeds(rest), keep);
        }
        if forall|i: int| 0 <= i < text.len() ==> #[trigger] text[i] != '\r' {
            assert forall|i: int| 0 <= i < rest.len() implies #[trigger] rest[i] != '\r' by {
                assert(text[i + 1] != '\r');
            }
            assert(text[0] != '\r');
            assert(with_line_feeds(text) =~= text);
        }
    }
}

proof fn lemma_filter_one(c: char)
    ensures
        seq![c].filter(|c: char| c != '\r') == (if c != '\r' {
            seq![c]
        } else {
            Seq::empty()
        }),
{
    let keep = |c: char| c != '\r';
    reveal(Seq::filter);
    assert(seq![c].drop_last() =~= Seq::<char>::empty());
    assert(Seq::<char>::empty().filter(keep) =~= Seq::<char>::empty());
    assert(seq![c].filter(keep) =~= (if c != '\r' {
        seq![c]
    } else {
        Seq::empty()
    }));
}

/// Digits with one point among them, or at either end of them, are a radius; with two points
/// they are none.
pub proof fn one_point_parts_a_decimal(whole: Seq<char>, part: Seq<char>, more: Seq<char>)
    requires
        whole.len() + part.len() > 0,
        forall|i: int| 0 <= i < whole.len() ==> '0' <= #[trigger] whole[i] && whole[i] <= '9',
        forall|i: int| 0 <= i < part.len() ==> '0' <= #[trigger] part[i] && part[i] <= '9',
    ensures
        unsigned_decimal(whole.push('.') + part),
        !unsigned_decimal((whole.push('.') + part).push('.') + more),
{
    let text = whole.push('.') + part;
    let point = whole.len() as int;
    assert forall|i: int| 0 <= i < text.len() && i != point implies decimal_digit(#[trigger] text[i]) by {
        if i < point {
            assert(text[i] == whole[i]);
        } else {
            assert(text[i] == part[i - point - 1]);
        }
    }
    assert(text[point] == '.');
    if whole.len() > 0 {
        assert(decimal_digit(text[0]));
    } else {
        assert(decimal_digit(text[1]));
    }
    let twice = text.push('.') + more;
    assert(twice[point] == '.' && twice[text.len() as int] == '.');
}

} // verus!
