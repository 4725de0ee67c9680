use trigram_table::finger::{finger_str, get_finger_combo_str, is_bad_for_redirect, is_right_hand};
use trigram_table::trigram::{classify, TrigramType};

// Finger indices, left to right.
const LP: usize = 0;
const LR: usize = 1;
const LM: usize = 2;
const LI: usize = 3;
const LT: usize = 4;
const RT: usize = 5;
const RI: usize = 6;
const RM: usize = 7;
const RR: usize = 8;
const RP: usize = 9;

#[test]
fn all_same_finger_is_sft() {
    assert_eq!(classify(LP, LP, LP), TrigramType::Sft);
    assert_eq!(classify(LP, LP, LP).name(), "sft");
}

#[test]
fn adjacent_repeat_is_sfb() {
    assert_eq!(classify(LP, LP, LM), TrigramType::Sfb);
    assert_eq!(classify(RI, RM, RM), TrigramType::Sfb);
}

#[test]
fn outer_repeat_without_adjacent_repeat_is_not_same_finger() {
    let t = classify(LP, LM, LP);
    assert_ne!(t, TrigramType::Sft);
    assert_ne!(t, TrigramType::Sfb);
    assert_eq!(t, TrigramType::BadRedSfs);
}

#[test]
fn alternation_with_outer_repeat_is_alt_sfs() {
    assert_eq!(classify(LP, RP, LP), TrigramType::AltSfs);
}

#[test]
fn alternation_is_alt() {
    assert_eq!(classify(LP, RP, LM), TrigramType::Alt);
    assert_eq!(classify(RT, LT, RI), TrigramType::Alt);
}

#[test]
fn roll_toward_thumb_on_right_hand_is_inroll() {
    assert_eq!(classify(LP, RM, RI), TrigramType::InRoll);
}

#[test]
fn roll_pair_first_on_either_hand() {
    assert_eq!(classify(RP, RR, LP), TrigramType::InRoll);
    assert_eq!(classify(LP, LR, RP), TrigramType::InRoll);
    assert_eq!(classify(LR, LP, RP), TrigramType::OutRoll);
    assert_eq!(classify(LP, RI, RM), TrigramType::OutRoll);
}

// An increasing run on the left hand moves toward the thumb.
#[test]
fn increasing_run_on_left_hand_is_inoneh() {
    assert_eq!(classify(LP, LM, LT), TrigramType::InOneH);
    assert_eq!(classify(LT, LM, LP), TrigramType::OutOneH);
}

#[test]
fn runs_on_right_hand() {
    assert_eq!(classify(RP, RR, RM), TrigramType::InOneH);
    assert_eq!(classify(RT, RI, RM), TrigramType::OutOneH);
}

#[test]
fn redirect_through_thumb_is_red() {
    assert_eq!(classify(LP, LT, LM), TrigramType::Red);
    assert_eq!(classify(LI, LR, LI), TrigramType::RedSfs);
}

#[test]
fn redirect_on_weak_fingers_is_bad() {
    assert_eq!(classify(LM, LP, LR), TrigramType::BadRed);
    assert_eq!(classify(RM, RP, RM), TrigramType::BadRedSfs);
}

#[test]
fn classification_is_deterministic() {
    for f0 in 0..10 {
        for f1 in 0..10 {
            for f2 in 0..10 {
                assert_eq!(classify(f0, f1, f2), classify(f0, f1, f2));
            }
        }
    }
}

#[test]
fn every_triple_gets_one_of_the_twelve_labels() {
    let labels = [
        "sft", "sfb", "alt-sfs", "alt", "inoneh", "outoneh", "bad-red-sfs", "red-sfs", "bad-red",
        "red", "inroll", "outroll",
    ];
    let mut counts = [0usize; 12];
    for f0 in 0..10 {
        for f1 in 0..10 {
            for f2 in 0..10 {
                let name = classify(f0, f1, f2).name();
                let k = labels.iter().position(|l| *l == name).unwrap();
                counts[k] += 1;
            }
        }
    }
    assert_eq!(counts, [10, 180, 50, 200, 20, 20, 12, 28, 8, 72, 200, 200]);
}

#[test]
fn same_hand_non_runs_turn_at_the_middle() {
    for f0 in 0..5 {
        for f1 in 0..5 {
            for f2 in 0..5 {
                if f0 == f1 || f1 == f2 {
                    continue;
                }
                let run = (f0 < f1 && f1 < f2) || (f0 > f1 && f1 > f2);
                let turn = (f1 > f0 && f1 > f2) || (f1 < f0 && f1 < f2);
                assert!(run != turn);
            }
        }
    }
}

#[test]
fn finger_identifiers_and_hands() {
    let names = ["LP", "LR", "LM", "LI", "LT", "RT", "RI", "RM", "RR", "RP"];
    for f in 0..10 {
        assert_eq!(finger_str(f), names[f]);
        assert_eq!(is_right_hand(f), f >= 5);
    }
    let bad: Vec<bool> = (0..10).map(is_bad_for_redirect).collect();
    assert_eq!(bad, vec![true, true, true, false, false, false, false, true, true, true]);
}

#[test]
fn combo_key_concatenates_identifiers() {
    assert_eq!(get_finger_combo_str(LP, LR, LM), "LPLRLM");
    assert_eq!(get_finger_combo_str(RP, RP, RP), "RPRPRP");
    assert_eq!(get_finger_combo_str(LT, RT, RI), "LTRTRI");
}
