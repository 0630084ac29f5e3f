//! Strings: decimal numbers, the order of strings, and joining.

use vstd::prelude::*;
use vstd::string::*;

verus! {

/// The character of a decimal digit.
pub open spec fn digit_char(d: nat) -> char {
    if d == 0 {
        '0'
    } else if d == 1 {
        '1'
    } else if d == 2 {
        '2'
    } else if d == 3 {
        '3'
    } else if d == 4 {
        '4'
    } else if d == 5 {
        '5'
    } else if d == 6 {
        '6'
    } else if d == 7 {
        '7'
    } else if d == 8 {
        '8'
    } else {
        '9'
    }
}

/// A number in decimal, without leading zeros.
pub open spec fn decimal_digits(n: nat) -> Seq<char>
    decreases n,
{
    if n < 10 {
        seq![digit_char(n)]
    } else {
        decimal_digits(n / 10).push(digit_char(n % 10))
    }
}

/// Whether `a` comes before `b`, or equals it, in the order of strings:
/// by the first character in which they differ, a prefix before what it
/// is a prefix of.
pub open spec fn lex_le(a: Seq<char>, b: Seq<char>) -> bool
    decreases a.len(),
{
    if a.len() == 0 {
        true
    } else if b.len() == 0 {
        false
    } else if a[0] != b[0] {
        (a[0] as int) < (b[0] as int)
    } else {
        lex_le(a.drop_first(), b.drop_first())
    }
}

/// `usize::to_string`: the number in decimal.
#[verifier::external_body]
pub(crate) fn decimal(n: usize) -> (digits: String)
    ensures
        digits@ == decimal_digits(n as nat),
{
    n.to_string()
}

/// `<=` on `String`, which std documents as the lexicographic order of the
/// bytes, the same as the order of the characters.
#[verifier::external_body]
pub(crate) fn string_le(a: &String, b: &String) -> (le: bool)
    ensures
        le == lex_le(a@, b@),
{
    a <= b
}

/// The views of a list of strings, in order.
pub open spec fn string_views(items: Seq<String>) -> Seq<Seq<char>> {
    items.map_values(|item: String| item@)
}

/// A sorted list with one more string, put before the first that is not
/// smaller than it.
pub open spec fn insert_sorted(sorted: Seq<Seq<char>>, item: Seq<char>) -> Seq<Seq<char>>
    decreases sorted.len(),
{
    if sorted.len() == 0 {
        seq![item]
    } else if lex_le(item, sorted[0]) {
        seq![item] + sorted
    } else {
        seq![sorted[0]] + insert_sorted(sorted.drop_first(), item)
    }
}

/// The strings of a list in ascending order.
pub open spec fn sort_strings(items: Seq<Seq<char>>) -> Seq<Seq<char>>
    decreases items.len(),
{
    if items.len() == 0 {
        Seq::empty()
    } else {
        insert_sorted(sort_strings(items.drop_last()), items.last())
    }
}

/// The strings of a list, one after the other, with `separator` between
/// each two.
pub open spec fn joined(parts: Seq<Seq<char>>, separator: Seq<char>) -> Seq<char>
    decreases parts.len(),
{
    if parts.len() == 0 {
        Seq::empty()
    } else if parts.len() == 1 {
        parts[0]
    } else {
        joined(parts.drop_last(), separator) + separator + parts.last()
    }
}

proof fn lemma_insert_position(sorted: Seq<Seq<char>>, item: Seq<char>, position: int)
    requires
        0 <= position <= sorted.len(),
        forall|k: int| 0 <= k < position ==> !lex_le(item, #[trigger] sorted[k]),
        position == sorted.len() || lex_le(item, sorted[position]),
    ensures
        insert_sorted(sorted, item) == sorted.insert(position, item),
    decreases sorted.len(),
{
    if sorted.len() == 0 {
        assert(sorted.insert(position, item) =~= seq![item]);
    } else if position == 0 {
        assert(sorted.insert(0, item) =~= seq![item] + sorted);
    } else {
        let rest = sorted.drop_first();
        assert(!lex_le(item, sorted[0]));
        assert forall|k: int| 0 <= k < position - 1 implies !lex_le(item, #[trigger] rest[k]) by {
            assert(rest[k] == sorted[k + 1]);
        }
        lemma_insert_position(rest, item, position - 1);
        assert(sorted.insert(position, item) =~= seq![sorted[0]] + rest.insert(
            position - 1,
            item,
        ));
    }
}

/// Sorts strings into ascending order.
pub fn sort(items: &Vec<String>) -> (sorted: Vec<String>)
    ensures
        string_views(sorted@) == sort_strings(string_views(items@)),
{
    let mut sorted: Vec<String> = Vec::new();
    let mut done: usize = 0;
    assert(string_views(items@).take(0) =~= Seq::<Seq<char>>::empty());
    assert(string_views(sorted@) =~= Seq::<Seq<char>>::empty());
    while done < items.len()
        invariant
            done <= items@.len(),
            string_views(sorted@) == sort_strings(string_views(items@).take(done as int)),
        decreases items@.len() - done,
    {
        let item = items[done].clone();
        let mut position: usize = 0;
        while position < sorted.len() && !string_le(&item, &sorted[position])
            invariant
                position <= sorted@.len(),
                forall|k: int| 0 <= k < position ==> !lex_le(item@, #[trigger] sorted@[k]@),
            decreases sorted@.len() - position,
        {
            position += 1;
        }
        proof {
            let before = string_views(sorted@);
            assert forall|k: int| 0 <= k < position implies !lex_le(item@, #[trigger] before[k]) by {
                assert(before[k] == sorted@[k]@);
            }
            lemma_insert_position(before, item@, position as int);
            let taken = string_views(items@).take(done + 1);
            assert(taken.drop_last() =~= string_views(items@).take(done as int));
            assert(taken.last() == item@);
            assert(string_views(sorted@.insert(position as int, item)) =~= before.insert(
                position as int,
                item@,
            ));
        }
        sorted.insert(position, item);
        done += 1;
    }
    assert(string_views(items@).take(items@.len() as int) =~= string_views(items@));
    sorted
}

/// Joins strings with `separator` between each two.
pub fn join(parts: &Vec<String>, separator: &str) -> (text: String)
    ensures
        text@ == joined(string_views(parts@), separator@),
{
    let mut text = String::new();
    let mut done: usize = 0;
    assert(string_views(parts@).take(0) =~= Seq::<Seq<char>>::empty());
    while done < parts.len()
        invariant
            done <= parts@.len(),
            text@ == joined(string_views(parts@).take(done as int), separator@),
        decreases parts@.len() - done,
    {
        proof {
            let taken = string_views(parts@).take(done + 1);
            assert(taken.drop_last() =~= string_views(parts@).take(done as int));
            assert(taken.last() == parts@[done as int]@);
            if done == 0 {
                assert(text@ =~= Seq::<char>::empty());
                assert(Seq::<char>::empty() + parts@[0]@ =~= parts@[0]@);
            }
        }
        if done > 0 {
            text.append(separator);
        }
        text.append(parts[done].as_str());
        done += 1;
    }
    assert(string_views(parts@).take(parts@.len() as int) =~= string_views(parts@));
    text
}

/// Whether the strings of a list stand in ascending order.
pub open spec fn ascending(items: Seq<Seq<char>>) -> bool {
    forall|i: int, j: int| 0 <= i < j < items.len() ==> lex_le(items[i], items[j])
}

/// Of two strings, one comes before the other or equals it.
pub proof fn lemma_order_is_total(a: Seq<char>, b: Seq<char>)
    ensures
        lex_le(a, b) || lex_le(b, a),
    decreases a.len(),
{
    if a.len() > 0 && b.len() > 0 {
        if a[0] == b[0] {
            lemma_order_is_total(a.drop_first(), b.drop_first());
        }
    }
}

/// What comes before a string comes before all that the string comes before.
pub proof fn lemma_order_is_transitive(a: Seq<char>, b: Seq<char>, c: Seq<char>)
    requires
        lex_le(a, b),
        lex_le(b, c),
    ensures
        lex_le(a, c),
    decreases a.len(),
{
    if a.len() > 0 {
        if a[0] == b[0] && b[0] == c[0] {
            lemma_order_is_transitive(a.drop_first(), b.drop_first(), c.drop_first());
        }
    }
}

/// The place at which a string goes into a sorted list.
pub open spec fn insert_position(sorted: Seq<Seq<char>>, item: Seq<char>) -> int
    decreases sorted.len(),
{
    if sorted.len() == 0 || lex_le(item, sorted[0]) {
        0
    } else {
        1 + insert_position(sorted.drop_first(), item)
    }
}

proof fn lemma_insert_position_is_first(sorted: Seq<Seq<char>>, item: Seq<char>)
    ensures
        0 <= insert_position(sorted, item) <= sorted.len(),
        forall|k: int|
            0 <= k < insert_position(sorted, item) ==> !lex_le(item, #[trigger] sorted[k]),
        insert_position(sorted, item) == sorted.len() || lex_le(
            item,
            sorted[insert_position(sorted, item)],
        ),
    decreases sorted.len(),
{
    if !(sorted.len() == 0 || lex_le(item, sorted[0])) {
        let rest = sorted.drop_first();
        lemma_insert_position_is_first(rest, item);
        let place = insert_position(rest, item);
        assert forall|k: int| 0 <= k < place + 1 implies !lex_le(item, #[trigger] sorted[k]) by {
            if k > 0 {
                assert(sorted[k] == rest[k - 1]);
            }
        }
        if place < rest.len() {
            assert(sorted[place + 1] == rest[place]);
        }
    }
}

proof fn lemma_insert_keeps_ascending(sorted: Seq<Seq<char>>, item: Seq<char>)
    requires
        ascending(sorted),
    ensures
        ascending(insert_sorted(sorted, item)),
        insert_sorted(sorted, item).to_multiset() == sorted.to_multiset().insert(item),
{
    let place = insert_position(sorted, item);
    lemma_insert_position_is_first(sorted, item);
    lemma_insert_position(sorted, item, place);
    let grown = sorted.insert(place, item);
    vstd::seq_lib::to_multiset_insert(sorted, place, item);
    assert forall|i: int, j: int| 0 <= i < j < grown.len() implies lex_le(grown[i], grown[j]) by {
        if j < place {
            assert(grown[i] == sorted[i] && grown[j] == sorted[j]);
        } else if j == place {
            assert(grown[i] == sorted[i]);
            lemma_order_is_total(item, sorted[i]);
        } else if i < place {
            assert(grown[i] == sorted[i] && grown[j] == sorted[j - 1]);
        } else if i == place {
            assert(grown[j] == sorted[j - 1]);
            if j - 1 > place {
                lemma_order_is_transitive(item, sorted[place], sorted[j - 1]);
            }
        } else {
            assert(grown[i] == sorted[i - 1] && grown[j] == sorted[j - 1]);
        }
    }
}

/// Sorting gives the same strings, as often as they were there, in
/// ascending order.
pub proof fn lemma_sort_strings_sorts(items: Seq<Seq<char>>)
    ensures
        ascending(sort_strings(items)),
        sort_strings(items).to_multiset() == items.to_multiset(),
    decreases items.len(),
{
    if items.len() == 0 {
        assert(items =~= Seq::<Seq<char>>::empty());
    } else {
        let rest = items.drop_last();
        lemma_sort_strings_sorts(rest);
        lemma_insert_keeps_ascending(sort_strings(rest), items.last());
        vstd::seq_lib::to_multiset_build(rest, items.last());
        assert(rest.push(items.last()) =~= items);
    }
}

} // verus!
