//! The lookup table: every trigram key mapped to its category label, in the
//! order f0 outer, f1 middle, f2 inner.
use crate::finger::{combo_name, get_finger_combo_str, is_finger, lemma_combo_name_injective};
use crate::trigram::{classify, is_label, label_name, lemma_classification_total, trigram_type};
use fxhash::{FxBuildHasher, FxHasher};
use indexmap::IndexMap;
use std::hash::BuildHasherDefault;
use vstd::prelude::*;

verus! {

#[verifier::external_type_specification]
#[verifier::external_body]
#[verifier::reject_recursive_types(K)]
#[verifier::reject_recursive_types(V)]
#[verifier::reject_recursive_types(S)]
pub struct ExIndexMap<K, V, S>(IndexMap<K, V, S>);

#[verifier::external_type_specification]
#[verifier::external_body]
pub struct ExFxHasher(FxHasher);

#[verifier::external_type_specification]
#[verifier::external_body]
#[verifier::reject_recursive_types(H)]
pub struct ExBuildHasherDefault<H>(BuildHasherDefault<H>);

#[verifier::external_type_specification]
#[verifier::external_body]
pub struct ExJsonError(serde_json::Error);

/// An insertion-ordered map from trigram key to label.
pub type TrigramMap = IndexMap<String, String, FxBuildHasher>;

/// The entries of a map, in insertion order.
pub uninterp spec fn map_entries(m: TrigramMap) -> Seq<(Seq<char>, Seq<char>)>;

/// The pretty-printed JSON object with the given entries, in that order.
pub uninterp spec fn pretty_json(entries: Seq<(Seq<char>, Seq<char>)>) -> Seq<char>;

/// Relies on `IndexMap::default`: an empty map.
#[verifier::external_body]
fn new_map() -> (m: TrigramMap)
    ensures
        map_entries(m) == Seq::<(Seq<char>, Seq<char>)>::empty(),
{
    IndexMap::default()
}

/// Relies on `IndexMap::insert`: a new key goes last in order and `None`
/// comes back; an existing key keeps its place, takes the new value, and its
/// old value comes back.
#[verifier::external_body]
fn map_insert(m: &mut TrigramMap, key: String, value: String) -> (r: Option<String>)
    ensures
        (forall|i: int| 0 <= i < map_entries(*old(m)).len() ==> map_entries(*old(m))[i].0 != key@)
            ==> r is None && map_entries(*final(m)) == map_entries(*old(m)).push((key@, value@)),
        forall|i: int|
            0 <= i < map_entries(*old(m)).len() && map_entries(*old(m))[i].0 == key@ ==> r is Some
                && r->Some_0@ == map_entries(*old(m))[i].1 && map_entries(*final(m)) == map_entries(
                *old(m),
            ).update(i, (key@, value@)),
{
    m.insert(key, value)
}

/// Relies on `serde_json::to_string_pretty`: the JSON text of the map,
/// whose entries it writes in insertion order. With string keys and values,
/// written into memory, encoding does not fail.
#[verifier::external_body]
fn encode_pretty(m: &TrigramMap) -> (r: Result<String, serde_json::Error>)
    ensures
        r is Ok,
        r is Ok ==> r->Ok_0@ == pretty_json(map_entries(*m)),
{
    serde_json::to_string_pretty(m)
}

/// The entry of the trigram `(f0, f1, f2)`: its key and its label.
pub open spec fn table_entry(f0: int, f1: int, f2: int) -> (Seq<char>, Seq<char>) {
    (combo_name(f0, f1, f2), label_name(trigram_type(f0, f1, f2)))
}

/// The entry at position `i` of the table: that of the trigram whose
/// fingers are the decimal digits of `i`.
pub open spec fn table_entry_at(i: int) -> (Seq<char>, Seq<char>) {
    table_entry(i / 100, (i / 10) % 10, i % 10)
}

/// The complete table: one entry for each of the 1000 trigrams, in
/// enumeration order.
pub open spec fn is_trigram_table(e: Seq<(Seq<char>, Seq<char>)>) -> bool {
    &&& e.len() == 1000
    &&& forall|i: int| 0 <= i < 1000 ==> #[trigger] e[i] == table_entry_at(i)
}

/// The complete table.
pub open spec fn trigram_table() -> Seq<(Seq<char>, Seq<char>)> {
    Seq::new(1000, |i: int| table_entry_at(i))
}

/// The trigram at a position of the table is made of its decimal digits.
pub proof fn lemma_position_digits(i: int)
    requires
        0 <= i < 1000,
    ensures
        i == 100 * (i / 100) + 10 * ((i / 10) % 10) + i % 10,
        is_finger(i / 100),
        is_finger((i / 10) % 10),
        is_finger(i % 10),
{
}

/// The position of a trigram in the table.
pub proof fn lemma_trigram_position(f0: int, f1: int, f2: int)
    requires
        is_finger(f0),
        is_finger(f1),
        is_finger(f2),
    ensures
        table_entry_at(100 * f0 + 10 * f1 + f2) == table_entry(f0, f1, f2),
{
    let i = 100 * f0 + 10 * f1 + f2;
    assert(i / 100 == f0);
    assert((i / 10) % 10 == f1);
    assert(i % 10 == f2);
}

/// Builds the table, enumerating f0, then f1, then f2 from the leftmost
/// finger.
pub fn build_trigram_table() -> (r: TrigramMap)
    ensures
        map_entries(r) == trigram_table(),
        is_trigram_table(map_entries(r)),
{
    let mut table = new_map();
    let mut finger0: usize = 0;
    while finger0 < 10
        invariant
            finger0 <= 10,
            map_entries(table).len() == 100 * finger0,
            forall|i: int|
                0 <= i < map_entries(table).len() ==> #[trigger] map_entries(table)[i]
                    == table_entry_at(i),
        decreases 10 - finger0,
    {
        let mut finger1: usize = 0;
        while finger1 < 10
            invariant
                finger0 < 10,
                finger1 <= 10,
                map_entries(table).len() == 100 * finger0 + 10 * finger1,
                forall|i: int|
                    0 <= i < map_entries(table).len() ==> #[trigger] map_entries(table)[i]
                        == table_entry_at(i),
            decreases 10 - finger1,
        {
            let mut finger2: usize = 0;
            while finger2 < 10
                invariant
                    finger0 < 10,
                    finger1 < 10,
                    finger2 <= 10,
                    map_entries(table).len() == 100 * finger0 + 10 * finger1 + finger2,
                    forall|i: int|
                        0 <= i < map_entries(table).len() ==> #[trigger] map_entries(table)[i]
                            == table_entry_at(i),
                decreases 10 - finger2,
            {
                let key = get_finger_combo_str(finger0, finger1, finger2);
                let label = String::from_str(classify(finger0, finger1, finger2).name());
                let ghost before = map_entries(table);
                let ghost n = 100 * finger0 + 10 * finger1 + finger2;
                proof {
                    lemma_trigram_position(finger0 as int, finger1 as int, finger2 as int);
                    assert forall|i: int| 0 <= i < before.len() implies before[i].0 != key@ by {
                        lemma_position_digits(i);
                        if before[i].0 == key@ {
                            lemma_combo_name_injective(
                                i / 100,
                                (i / 10) % 10,
                                i % 10,
                                finger0 as int,
                                finger1 as int,
                                finger2 as int,
                            );
                        }
                    }
                }
                map_insert(&mut table, key, label);
                proof {
                    assert(map_entries(table) == before.push(table_entry_at(n)));
                }
                finger2 = finger2 + 1;
            }
            finger1 = finger1 + 1;
        }
        finger0 = finger0 + 1;
    }
    assert(map_entries(table) =~= trigram_table());
    table
}

/// Why the table could not be produced.
#[derive(Clone, Copy, Debug, PartialEq, Eq, Structural)]
pub enum TableError {
    /// The JSON encoder failed.
    Encode,
}

/// The table as pretty-printed JSON.
pub fn trigram_table_json() -> (r: Result<String, TableError>)
    ensures
        r matches Ok(s) && s@ == pretty_json(trigram_table()),
{
    let table = build_trigram_table();
    match encode_pretty(&table) {
        Ok(s) => Ok(s),
        Err(_) => Err(TableError::Encode),
    }
}

/// Building the table is deterministic: any two complete tables hold the
/// same keys and labels in the same order.
pub proof fn lemma_table_deterministic(e1: Seq<(Seq<char>, Seq<char>)>, e2: Seq<(Seq<char>, Seq<char>)>)
    requires
        is_trigram_table(e1),
        is_trigram_table(e2),
    ensures
        e1 == e2,
{
    assert(e1 =~= e2);
}

/// A key made of the identifiers of three fingers.
pub open spec fn is_trigram_key(k: Seq<char>) -> bool {
    exists|f0: int, f1: int, f2: int|
        is_finger(f0) && is_finger(f1) && is_finger(f2) && k == #[trigger] combo_name(f0, f1, f2)
}

/// The table is complete: 1000 entries whose keys are pairwise distinct,
/// each the six-character key of a triple of valid fingers, each labelled
/// with one of the twelve labels.
pub proof fn lemma_table_complete(e: Seq<(Seq<char>, Seq<char>)>)
    requires
        is_trigram_table(e),
    ensures
        e.len() == 1000,
        forall|i: int, j: int| 0 <= i < j < 1000 ==> #[trigger] e[i].0 != #[trigger] e[j].0,
        forall|i: int| 0 <= i < 1000 ==> is_trigram_key(#[trigger] e[i].0),
        forall|i: int| 0 <= i < 1000 ==> (#[trigger] e[i].0).len() == 6,
        forall|i: int| 0 <= i < 1000 ==> is_label(#[trigger] e[i].1),
{
    assert forall|i: int, j: int| 0 <= i < j < 1000 implies #[trigger] e[i].0 != #[trigger] e[j].0 by {
        lemma_position_digits(i);
        lemma_position_digits(j);
        if e[i].0 == e[j].0 {
            lemma_combo_name_injective(i / 100, (i / 10) % 10, i % 10, j / 100, (j / 10) % 10, j % 10);
        }
    }
    assert forall|i: int| 0 <= i < 1000 implies {
        &&& is_trigram_key(e[i].0)
        &&& (#[trigger] e[i].0).len() == 6
        &&& is_label(e[i].1)
    } by {
        lemma_position_digits(i);
        let (f0, f1, f2) = (i / 100, (i / 10) % 10, i % 10);
        assert(e[i] == table_entry(f0, f1, f2));
        lemma_combo_name_injective(f0, f1, f2, f0, f1, f2);
        lemma_classification_total(f0, f1, f2);
        assert(is_finger(f0) && is_finger(f1) && is_finger(f2) && e[i].0 == combo_name(f0, f1, f2));
    }
}

} // verus!
