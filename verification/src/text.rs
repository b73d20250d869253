//! Texts: decimal numbers, comparison and search.

use vstd::prelude::*;
use vstd::string::*;

verus! {

/// The decimal digit of `d`.
pub open spec fn digit(d: nat) -> char
    recommends
        d < 10,
{
    (48 + d) as u8 as char
}

/// The decimal numeral of `n`, with no leading zero.
pub open spec fn decimal(n: nat) -> Seq<char>
    decreases n,
{
    if n < 10 {
        seq![digit(n)]
    } else {
        decimal(n / 10).push(digit(n % 10))
    }
}

/// Whether `needle` occurs in `text`, as a run of consecutive characters.
pub open spec fn contains_text(text: Seq<char>, needle: Seq<char>) -> bool {
    exists|i: int| #[trigger] occurs_at(text, needle, i)
}

/// Whether `needle` occurs in `text` from position `i` on.
pub open spec fn occurs_at(text: Seq<char>, needle: Seq<char>, i: int) -> bool {
    &&& 0 <= i
    &&& i + needle.len() <= text.len()
    &&& forall|j: int| 0 <= j < needle.len() ==> text[i + j] == #[trigger] needle[j]
}

/// A text in lower case, as `str::to_lowercase` gives it.
pub uninterp spec fn lowercase(text: Seq<char>) -> Seq<char>;

/// A text as `Debug` of `str` writes it: in quotes, with escapes.
pub uninterp spec fn debug_text(text: Seq<char>) -> Seq<char>;

/// `str::to_lowercase`: the result depends on the text alone.
#[verifier::external_body]
pub(crate) fn to_lower(text: &str) -> (r: String)
    ensures
        r@ == lowercase(text@),
{
    text.to_lowercase()
}

/// `Debug` of `str`: the result depends on the text alone.
#[verifier::external_body]
pub(crate) fn quoted(text: &str) -> (r: String)
    ensures
        r@ == debug_text(text@),
{
    format!("{:?}", text)
}

fn digit_text(d: u64) -> (r: &'static str)
    requires
        d < 10,
    ensures
        r@ == seq![digit(d as nat)],
{
    proof {
        reveal_strlit("0");
        reveal_strlit("1");
        reveal_strlit("2");
        reveal_strlit("3");
        reveal_strlit("4");
        reveal_strlit("5");
        reveal_strlit("6");
        reveal_strlit("7");
        reveal_strlit("8");
        reveal_strlit("9");
    }
    if d == 0 {
        "0"
    } else if d == 1 {
        "1"
    } else if d == 2 {
        "2"
    } else if d == 3 {
        "3"
    } else if d == 4 {
        "4"
    } else if d == 5 {
        "5"
    } else if d == 6 {
        "6"
    } else if d == 7 {
        "7"
    } else if d == 8 {
        "8"
    } else {
        "9"
    }
}

/// Writes a number in decimal.
pub fn number(n: u64) -> (r: String)
    ensures
        r@ == decimal(n as nat),
    decreases n,
{
    if n < 10 {
        digit_text(n).to_owned()
    } else {
        let head = number(n / 10);
        head.concat(digit_text(n % 10))
    }
}

/// Whether two texts are the same.
pub fn same(a: &str, b: &str) -> (r: bool)
    ensures
        r == (a@ == b@),
{
    a.to_owned() == b.to_owned()
}

/// The characters of a text.
fn characters(s: &str) -> (r: Vec<char>)
    ensures
        r@ == s@,
{
    let mut out: Vec<char> = Vec::new();
    for c in it: s.chars()
        invariant
            out@ == it.seq().take(it.index() as int),
            it.seq() == s@,
    {
        out.push(c);
    }
    out
}

fn matches_at(text: &Vec<char>, needle: &Vec<char>, i: usize) -> (r: bool)
    requires
        i + needle@.len() <= text@.len(),
    ensures
        r == occurs_at(text@, needle@, i as int),
{
    let len: usize = text.len();
    let mut j: usize = 0;
    while j < needle.len()
        invariant
            i + needle@.len() <= text@.len(),
            text@.len() == len,
            j <= needle@.len(),
            forall|k: int| 0 <= k < j ==> text@[i + k] == #[trigger] needle@[k],
        decreases needle@.len() - j,
    {
        if text[i + j] != needle[j] {
            return false;
        }
        j = j + 1;
    }
    true
}

/// Whether a text contains another.
pub fn contains(text: &str, needle: &str) -> (r: bool)
    ensures
        r == contains_text(text@, needle@),
{
    let text_chars = characters(text);
    let needle_chars = characters(needle);
    if needle_chars.len() > text_chars.len() {
        return false;
    }
    let last: usize = text_chars.len() - needle_chars.len();
    let mut i: usize = 0;
    while !matches_at(&text_chars, &needle_chars, i)
        invariant
            text_chars@ == text@,
            needle_chars@ == needle@,
            last + needle@.len() == text@.len(),
            i <= last,
            forall|k: int| 0 <= k < i ==> !#[trigger] occurs_at(text@, needle@, k),
        decreases last - i,
    {
        if i == last {
            return false;
        }
        i = i + 1;
    }
    true
}

/// Texts in quotes, with commas between them.
pub open spec fn comma_separated(items: Seq<Seq<char>>) -> Seq<char>
    decreases items.len(),
{
    if items.len() == 0 {
        Seq::empty()
    } else if items.len() == 1 {
        debug_text(items[0])
    } else {
        comma_separated(items.drop_last()) + ", "@ + debug_text(items.last())
    }
}

/// A list of texts as `Debug` writes it.
pub open spec fn debug_list(items: Seq<Seq<char>>) -> Seq<char> {
    "["@ + comma_separated(items) + "]"@
}

/// The texts of a list.
pub open spec fn texts(items: Seq<String>) -> Seq<Seq<char>> {
    Seq::new(items.len(), |i: int| items[i]@)
}

/// Writes a list of texts as `Debug` does.
pub fn quoted_list(items: &Vec<String>) -> (r: String)
    ensures
        r@ == debug_list(texts(items@)),
{
    let mut inner = String::new();
    let mut i: usize = 0;
    while i < items.len()
        invariant
            i <= items@.len(),
            inner@ == comma_separated(texts(items@).take(i as int)),
        decreases items@.len() - i,
    {
        let ghost before = texts(items@).take(i as int);
        let ghost after = texts(items@).take(i + 1);
        proof {
            assert(after.drop_last() =~= before);
            assert(after.last() == items@[i as int]@);
        }
        let item = quoted(items[i].as_str());
        if i == 0 {
            inner = item;
        } else {
            inner = inner.concat(", ").concat(item.as_str());
        }
        i = i + 1;
    }
    proof {
        assert(texts(items@).take(i as int) =~= texts(items@));
    }
    "[".to_owned().concat(inner.as_str()).concat("]")
}

/// A text of these lines, each ended by a newline.
pub open spec fn joined(items: Seq<Seq<char>>) -> Seq<char>
    decreases items.len(),
{
    if items.len() == 0 {
        Seq::empty()
    } else {
        joined(items.drop_last()) + items.last() + "\n"@
    }
}

/// Writes a text of these lines, each ended by a newline.
pub fn join_lines(items: &Vec<String>) -> (r: String)
    ensures
        r@ == joined(texts(items@)),
{
    let mut out = String::new();
    let mut i: usize = 0;
    while i < items.len()
        invariant
            i <= items@.len(),
            out@ == joined(texts(items@).take(i as int)),
        decreases items@.len() - i,
    {
        proof {
            let after = texts(items@).take(i + 1);
            assert(after.drop_last() =~= texts(items@).take(i as int));
            assert(after.last() == items@[i as int]@);
        }
        out = out.concat(items[i].as_str()).concat("\n");
        i = i + 1;
    }
    proof {
        assert(texts(items@).take(i as int) =~= texts(items@));
    }
    out
}

/// The lines of a text: what stands before, between and after its newlines.
pub open spec fn lines(text: Seq<char>) -> Seq<Seq<char>>
    decreases text.len(),
{
    if text.len() == 0 {
        seq![Seq::empty()]
    } else {
        let rest = lines(text.drop_last());
        if text.last() == '\n' {
            rest.push(Seq::empty())
        } else {
            rest.drop_last().push(rest.last().push(text.last()))
        }
    }
}

/// Whether a text has no newline in it.
pub open spec fn one_line(text: Seq<char>) -> bool {
    forall|i: int| 0 <= i < text.len() ==> #[trigger] text[i] != '\n'
}

proof fn lemma_has_lines(text: Seq<char>)
    ensures
        lines(text).len() > 0,
    decreases text.len(),
{
    if text.len() > 0 {
        lemma_has_lines(text.drop_last());
    }
}

/// What has no newline lengthens the last line.
proof fn lemma_lines_lengthened(text: Seq<char>, more: Seq<char>)
    requires
        one_line(more),
    ensures
        lines(text + more) == lines(text).drop_last().push(lines(text).last() + more),
    decreases more.len(),
{
    lemma_has_lines(text);
    if more.len() == 0 {
        assert(text + more =~= text);
        assert(lines(text).last() + more =~= lines(text).last());
        assert(lines(text).drop_last().push(lines(text).last()) =~= lines(text));
    } else {
        let less = more.drop_last();
        assert(one_line(less));
        lemma_lines_lengthened(text, less);
        assert((text + more).drop_last() =~= text + less);
        assert((text + more).last() == more.last());
        assert(more[more.len() - 1] != '\n');
        let rest = lines(text + less);
        assert(rest.drop_last() =~= lines(text).drop_last());
        assert(rest.last().push(more.last()) =~= lines(text).last() + more);
    }
}

/// A text that a whole line is added to has one line more.
proof fn lemma_line_added(text: Seq<char>, line: Seq<char>)
    requires
        one_line(line),
        lines(text).last().len() == 0,
    ensures
        lines(text + line + "\n"@) == lines(text).drop_last().push(line).push(Seq::empty()),
{
    reveal_strlit("\n");
    lemma_has_lines(text);
    lemma_lines_lengthened(text, line);
    assert(lines(text).last() + line =~= line);
    let whole = text + line + "\n"@;
    assert(whole.drop_last() =~= text + line);
    assert(whole.last() == '\n');
}

/// A text that is made of lines has those lines, and nothing after the last newline.
pub proof fn law_lines_of_joined(items: Seq<Seq<char>>)
    requires
        forall|i: int| 0 <= i < items.len() ==> one_line(#[trigger] items[i]),
    ensures
        lines(joined(items)) == items.push(Seq::empty()),
    decreases items.len(),
{
    if items.len() == 0 {
        assert(lines(joined(items)) =~= items.push(Seq::empty()));
    } else {
        let rest = items.drop_last();
        assert forall|i: int| 0 <= i < rest.len() implies one_line(#[trigger] rest[i]) by {
            assert(one_line(items[i]));
        }
        law_lines_of_joined(rest);
        assert(one_line(items[items.len() - 1]));
        lemma_line_added(joined(rest), items.last());
        assert(lines(joined(rest)).drop_last() =~= rest);
        assert(rest.push(items.last()) =~= items);
    }
}

/// A numeral is a run of digits.
pub(crate) proof fn lemma_decimal_digits(n: nat)
    ensures
        decimal(n).len() > 0,
        one_line(decimal(n)),
    decreases n,
{
    if n >= 10 {
        lemma_decimal_digits(n / 10);
        assert forall|i: int| 0 <= i < decimal(n).len() implies #[trigger] decimal(n)[i]
            != '\n' by {
            if i < decimal(n / 10).len() {
                assert(decimal(n)[i] == decimal(n / 10)[i]);
            }
        }
    }
}

/// Different numbers have different numerals.
pub proof fn law_decimal_injective(a: nat, b: nat)
    requires
        decimal(a) == decimal(b),
    ensures
        a == b,
    decreases a,
{
    lemma_decimal_digits(a / 10);
    lemma_decimal_digits(b / 10);
    assert(decimal(a).len() == decimal(b).len());
    assert(decimal(a).last() == digit(a % 10));
    assert(decimal(b).last() == digit(b % 10));
    assert(a % 10 == b % 10);
    if a >= 10 {
        assert(decimal(a).drop_last() =~= decimal(a / 10));
        assert(decimal(b).drop_last() =~= decimal(b / 10));
        law_decimal_injective(a / 10, b / 10);
    }
}

/// The number that a run of decimal digits spells.
pub open spec fn spelled(digits: Seq<char>) -> int
    decreases digits.len(),
{
    if digits.len() == 0 {
        0
    } else {
        10 * spelled(digits.drop_last()) + (digits.last() as int - '0' as int)
    }
}

/// A numeral spells its number: it is made of digits alone, read as a decimal it gives the
/// number back, and it has no leading zero.
pub proof fn law_decimal_spells_its_number(n: nat)
    ensures
        decimal(n).len() > 0,
        forall|i: int| 0 <= i < decimal(n).len() ==> '0' <= #[trigger] decimal(n)[i] <= '9',
        spelled(decimal(n)) == n,
        n > 0 ==> decimal(n)[0] != '0',
    decreases n,
{
    reveal_with_fuel(spelled, 2);
    if n < 10 {
        assert(decimal(n).drop_last() =~= Seq::empty());
    } else {
        law_decimal_spells_its_number(n / 10);
        assert(decimal(n).drop_last() =~= decimal(n / 10));
        assert(decimal(n).last() == digit(n % 10));
        assert forall|i: int| 0 <= i < decimal(n).len() implies '0' <= #[trigger] decimal(n)[i]
            <= '9' by {
            if i < decimal(n / 10).len() {
                assert(decimal(n)[i] == decimal(n / 10)[i]);
            }
        }
        assert(decimal(n)[0] == decimal(n / 10)[0]);
    }
}

/// A text contains another where it is made of something, the other, and something; and only
/// there.
pub proof fn law_contained_is_between(text: Seq<char>, needle: Seq<char>)
    ensures
        contains_text(text, needle) <==> exists|head: Seq<char>, tail: Seq<char>|
            text == #[trigger] ((head + needle) + tail),
{
    if contains_text(text, needle) {
        let i = choose|i: int| #[trigger] occurs_at(text, needle, i);
        let head = text.take(i);
        let tail = text.skip(i + needle.len());
        assert forall|k: int| 0 <= k < text.len() implies #[trigger] text[k] == ((head + needle)
            + tail)[k] by {
            if i <= k < i + needle.len() {
                assert(needle[k - i] == text[i + (k - i)]);
            }
        }
        assert(text =~= (head + needle) + tail);
    }
    if exists|head: Seq<char>, tail: Seq<char>| text == #[trigger] ((head + needle) + tail) {
        let (head, tail) = choose|head: Seq<char>, tail: Seq<char>|
            text == #[trigger] ((head + needle) + tail);
        assert(occurs_at(text, needle, head.len() as int));
    }
}

/// A list as `Debug` writes it: in brackets, each text as `Debug` writes it, and between two
/// of them a comma and a space.
pub proof fn law_debug_list(items: Seq<Seq<char>>, one: Seq<char>)
    ensures
        debug_list(Seq::empty()) == seq!['[', ']'],
        debug_list(seq![one]) == seq!['['] + debug_text(one) + seq![']'],
        items.len() > 0 ==> debug_list(items.push(one)) == debug_list(items).drop_last() + seq![
            ',',
            ' ',
        ] + debug_text(one) + seq![']'],
{
    reveal_strlit("[");
    reveal_strlit("]");
    reveal_strlit(", ");
    assert(debug_list(Seq::empty()) =~= seq!['[', ']']);
    assert(debug_list(seq![one]) =~= seq!['['] + debug_text(one) + seq![']']);
    if items.len() > 0 {
        let more = items.push(one);
        assert(more.drop_last() =~= items);
        assert(comma_separated(more) == comma_separated(items) + ", "@ + debug_text(one));
        assert(debug_list(more) =~= debug_list(items).drop_last() + seq![',', ' '] + debug_text(one)
            + seq![']']);
    }
}

/// A text of lines: none gives the empty text, and each line more adds itself and a newline.
pub proof fn law_joined_line_by_line(items: Seq<Seq<char>>, line: Seq<char>)
    ensures
        joined(Seq::empty()) == Seq::<char>::empty(),
        joined(items.push(line)) == joined(items) + line + seq!['\n'],
{
    reveal_strlit("\n");
    assert(items.push(line).drop_last() =~= items);
    assert("\n"@ =~= seq!['\n']);
}

/// The texts of a list are those of its items, one for one.
pub proof fn law_texts_one_for_one(items: Seq<String>)
    ensures
        texts(items).len() == items.len(),
        forall|i: int| 0 <= i < items.len() ==> #[trigger] texts(items)[i] == items[i]@,
{
}

/// What is written, compared and found: a number reads back from its text, two texts are the
/// same where they are, and one is found in another where it stands in it.
pub proof fn law_texts_written_and_found(
    n: u64,
    numeral: String,
    a: &str,
    b: &str,
    equal: bool,
    found: bool,
)
    requires
        call_ensures(number, (n,), numeral),
        call_ensures(same, (a, b), equal),
        call_ensures(contains, (a, b), found),
    ensures
        spelled(numeral@) == n,
        forall|i: int| 0 <= i < numeral@.len() ==> '0' <= #[trigger] numeral@[i] <= '9',
        n > 0 ==> numeral@[0] != '0',
        equal <==> a@ == b@,
        found <==> exists|head: Seq<char>, tail: Seq<char>| a@ == #[trigger] ((head + b@) + tail),
{
    law_decimal_spells_its_number(n as nat);
    law_contained_is_between(a@, b@);
}

/// Lists of texts are written as `Debug` writes them, and lines with a newline each.
pub proof fn law_lists_and_lines_written(items: &Vec<String>, list: String, text: String)
    requires
        call_ensures(quoted_list, (items,), list),
        call_ensures(join_lines, (items,), text),
    ensures
        list@ == debug_list(texts(items@)),
        text@ == joined(texts(items@)),
        (forall|i: int| 0 <= i < items@.len() ==> one_line((#[trigger] items@[i])@)) ==> lines(text@)
            == texts(items@).push(Seq::empty()),
{
    if forall|i: int| 0 <= i < items@.len() ==> one_line((#[trigger] items@[i])@) {
        assert forall|i: int| 0 <= i < texts(items@).len() implies one_line(
            #[trigger] texts(items@)[i],
        ) by {
            assert(one_line(items@[i]@));
        }
        law_lines_of_joined(texts(items@));
    }
}

}
