use std::collections::HashSet;
use trigram_table::table::{build_trigram_table, trigram_table_json};
use trigram_table::trigram::classify;

const NAMES: [&str; 10] = ["LP", "LR", "LM", "LI", "LT", "RT", "RI", "RM", "RR", "RP"];

#[test]
fn table_has_one_entry_per_trigram_in_order() {
    let table = build_trigram_table();
    assert_eq!(table.len(), 1000);
    let mut i = 0;
    for f0 in 0..10 {
        for f1 in 0..10 {
            for f2 in 0..10 {
                let (k, v) = table.get_index(i).unwrap();
                assert_eq!(k, &format!("{}{}{}", NAMES[f0], NAMES[f1], NAMES[f2]));
                assert_eq!(v, classify(f0, f1, f2).name());
                i += 1;
            }
        }
    }
}

#[test]
fn table_keys_are_unique_six_character_keys() {
    let table = build_trigram_table();
    let keys: HashSet<&String> = table.keys().collect();
    assert_eq!(keys.len(), 1000);
    for k in table.keys() {
        assert_eq!(k.len(), 6);
        for part in [&k[0..2], &k[2..4], &k[4..6]] {
            assert!(NAMES.contains(&part));
        }
    }
}

#[test]
fn table_first_and_last_entries() {
    let table = build_trigram_table();
    assert_eq!(table.get_index(0).unwrap(), (&"LPLPLP".to_string(), &"sft".to_string()));
    assert_eq!(table.get_index(999).unwrap(), (&"RPRPRP".to_string(), &"sft".to_string()));
    assert_eq!(table.get("LPLMLT").unwrap(), "inoneh");
    assert_eq!(table.get("LPRMRI").unwrap(), "inroll");
}

#[test]
fn building_twice_gives_the_same_table() {
    let a = build_trigram_table();
    let b = build_trigram_table();
    let ea: Vec<(&String, &String)> = a.iter().collect();
    let eb: Vec<(&String, &String)> = b.iter().collect();
    assert_eq!(ea, eb);
}

#[test]
fn json_is_byte_identical_across_runs() {
    let a = trigram_table_json().unwrap();
    let b = trigram_table_json().unwrap();
    assert_eq!(a, b);
}

#[test]
fn json_holds_entries_in_order() {
    let json = trigram_table_json().unwrap();
    assert!(json.starts_with("{\n  \"LPLPLP\": \"sft\",\n  \"LPLPLR\": \"sfb\","));
    assert!(json.ends_with("  \"RPRPRP\": \"sft\"\n}"));
    assert!(json.contains("\"LPRPLP\": \"alt-sfs\""));
    assert_eq!(json.matches(": ").count(), 1000);
}
