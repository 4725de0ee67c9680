//! The trigram categories and the rules that assign one to every triple of
//! fingers.
use crate::finger::{is_bad_for_redirect, is_bad_redirect_finger, is_finger, is_right, is_right_hand};
use vstd::prelude::*;

verus! {

/// The ergonomic category of a trigram.
#[derive(Clone, Copy, Debug, PartialEq, Eq, Structural)]
pub enum TrigramType {
    /// Same-finger triple: all three strokes on one finger.
    Sft,
    /// Same-finger bigram: two adjacent strokes on one finger.
    Sfb,
    /// Alternation whose outer strokes share a finger.
    AltSfs,
    /// The hand switches on every stroke.
    Alt,
    /// One-hand run moving toward the thumb.
    InOneH,
    /// One-hand run moving away from the thumb.
    OutOneH,
    /// Bad redirect whose outer strokes share a finger.
    BadRedSfs,
    /// Redirect whose outer strokes share a finger.
    RedSfs,
    /// Redirect confined to the weaker fingers.
    BadRed,
    /// Redirect: one hand, change of direction.
    Red,
    /// Roll toward the thumb.
    InRoll,
    /// Roll away from the thumb.
    OutRoll,
}

/// The label of a category, as written in the table.
pub open spec fn label_name(t: TrigramType) -> Seq<char> {
    match t {
        TrigramType::Sft => seq!['s', 'f', 't'],
        TrigramType::Sfb => seq!['s', 'f', 'b'],
        TrigramType::AltSfs => seq!['a', 'l', 't', '-', 's', 'f', 's'],
        TrigramType::Alt => seq!['a', 'l', 't'],
        TrigramType::InOneH => seq!['i', 'n', 'o', 'n', 'e', 'h'],
        TrigramType::OutOneH => seq!['o', 'u', 't', 'o', 'n', 'e', 'h'],
        TrigramType::BadRedSfs => seq!['b', 'a', 'd', '-', 'r', 'e', 'd', '-', 's', 'f', 's'],
        TrigramType::RedSfs => seq!['r', 'e', 'd', '-', 's', 'f', 's'],
        TrigramType::BadRed => seq!['b', 'a', 'd', '-', 'r', 'e', 'd'],
        TrigramType::Red => seq!['r', 'e', 'd'],
        TrigramType::InRoll => seq!['i', 'n', 'r', 'o', 'l', 'l'],
        TrigramType::OutRoll => seq!['o', 'u', 't', 'r', 'o', 'l', 'l'],
    }
}

/// A move from finger `a` to finger `b` of the same hand goes toward that
/// hand's thumb: rightward on the left hand, leftward on the right hand.
pub open spec fn toward_thumb(a: int, b: int) -> bool {
    if is_right(a) {
        b < a
    } else {
        a < b
    }
}

/// Two adjacent strokes land on the same finger.
pub open spec fn is_same_finger(f0: int, f1: int, f2: int) -> bool {
    f0 == f1 || f1 == f2
}

/// No adjacent repeat, and the hand switches on every stroke.
pub open spec fn is_alternation(f0: int, f1: int, f2: int) -> bool {
    !is_same_finger(f0, f1, f2) && is_right(f0) != is_right(f1) && is_right(f1) != is_right(f2)
}

/// No adjacent repeat, and all three strokes on one hand.
pub open spec fn is_same_hand(f0: int, f1: int, f2: int) -> bool {
    !is_same_finger(f0, f1, f2) && is_right(f0) == is_right(f1) && is_right(f1) == is_right(f2)
}

/// No adjacent repeat, and the hand switches exactly once.
pub open spec fn is_roll(f0: int, f1: int, f2: int) -> bool {
    !is_same_finger(f0, f1, f2) && (is_right(f0) == is_right(f1)) != (is_right(f1) == is_right(f2))
}

/// The finger positions strictly increase or strictly decrease.
pub open spec fn is_monotonic(f0: int, f1: int, f2: int) -> bool {
    (f0 < f1 && f1 < f2) || (f0 > f1 && f1 > f2)
}

/// The category of a redirect, from whether its outer strokes share a
/// finger and whether all its fingers are weak ones.
pub open spec fn redirect_type(f0: int, f1: int, f2: int) -> TrigramType {
    let bad = is_bad_redirect_finger(f0) && is_bad_redirect_finger(f1) && is_bad_redirect_finger(f2);
    if f0 == f2 {
        if bad {
            TrigramType::BadRedSfs
        } else {
            TrigramType::RedSfs
        }
    } else if bad {
        TrigramType::BadRed
    } else {
        TrigramType::Red
    }
}

/// The category of the trigram `(f0, f1, f2)`.
pub open spec fn trigram_type(f0: int, f1: int, f2: int) -> TrigramType {
    if is_same_finger(f0, f1, f2) {
        if f0 == f2 {
            TrigramType::Sft
        } else {
            TrigramType::Sfb
        }
    } else if is_alternation(f0, f1, f2) {
        if f0 == f2 {
            TrigramType::AltSfs
        } else {
            TrigramType::Alt
        }
    } else if is_same_hand(f0, f1, f2) {
        if is_monotonic(f0, f1, f2) {
            if toward_thumb(f0, f1) {
                TrigramType::InOneH
            } else {
                TrigramType::OutOneH
            }
        } else {
            redirect_type(f0, f1, f2)
        }
    } else {
        // the two adjacent strokes on one hand
        let (a, b) = if is_right(f0) == is_right(f1) {
            (f0, f1)
        } else {
            (f1, f2)
        };
        if toward_thumb(a, b) {
            TrigramType::InRoll
        } else {
            TrigramType::OutRoll
        }
    }
}

/// The twelve labels.
pub open spec fn is_label(s: Seq<char>) -> bool {
    exists|t: TrigramType| label_name(t) == s
}

impl TrigramType {
    /// The label of this category.
    pub fn name(&self) -> (r: &'static str)
        ensures
            r@ == label_name(*self),
    {
        let r = match self {
            TrigramType::Sft => "sft",
            TrigramType::Sfb => "sfb",
            TrigramType::AltSfs => "alt-sfs",
            TrigramType::Alt => "alt",
            TrigramType::InOneH => "inoneh",
            TrigramType::OutOneH => "outoneh",
            TrigramType::BadRedSfs => "bad-red-sfs",
            TrigramType::RedSfs => "red-sfs",
            TrigramType::BadRed => "bad-red",
            TrigramType::Red => "red",
            TrigramType::InRoll => "inroll",
            TrigramType::OutRoll => "outroll",
        };
        proof {
            reveal_strlit("sft");
            reveal_strlit("sfb");
            reveal_strlit("alt-sfs");
            reveal_strlit("alt");
            reveal_strlit("inoneh");
            reveal_strlit("outoneh");
            reveal_strlit("bad-red-sfs");
            reveal_strlit("red-sfs");
            reveal_strlit("bad-red");
            reveal_strlit("red");
            reveal_strlit("inroll");
            reveal_strlit("outroll");
        }
        assert(r@ =~= label_name(*self));
        r
    }
}

/// Classifies a trigram, applying the rules in order: same finger,
/// alternation, one hand (run or redirect), roll.
pub fn classify(finger0: usize, finger1: usize, finger2: usize) -> (r: TrigramType)
    requires
        is_finger(finger0 as int),
        is_finger(finger1 as int),
        is_finger(finger2 as int),
    ensures
        r == trigram_type(finger0 as int, finger1 as int, finger2 as int),
{
    let hand0 = is_right_hand(finger0);
    let hand1 = is_right_hand(finger1);
    let hand2 = is_right_hand(finger2);

    if finger0 == finger1 || finger1 == finger2 {
        return if finger0 == finger2 {
            TrigramType::Sft
        } else {
            TrigramType::Sfb
        };
    }
    if hand0 != hand1 && hand1 != hand2 {
        return if finger0 == finger2 {
            TrigramType::AltSfs
        } else {
            TrigramType::Alt
        };
    }
    if hand0 == hand1 && hand1 == hand2 {
        let towards_left = finger0 > finger1 && finger1 > finger2;
        if towards_left || finger0 < finger1 && finger1 < finger2 {
            return if towards_left == hand0 {
                TrigramType::InOneH
            } else {
                TrigramType::OutOneH
            };
        }
        let is_bad = is_bad_for_redirect(finger0) && is_bad_for_redirect(finger1)
            && is_bad_for_redirect(finger2);
        let is_sfs = finger0 == finger2;
        return if is_sfs {
            if is_bad {
                TrigramType::BadRedSfs
            } else {
                TrigramType::RedSfs
            }
        } else if is_bad {
            TrigramType::BadRed
        } else {
            TrigramType::Red
        };
    }
    let (roll0, roll1) = if hand0 == hand1 {
        (finger0, finger1)
    } else {
        (finger1, finger2)
    };
    if (roll0 > roll1) == hand1 {
        TrigramType::InRoll
    } else {
        TrigramType::OutRoll
    }
}

/// Every triple of fingers falls under exactly one of the four rules
/// (same finger, alternation, same hand, roll).
pub proof fn lemma_branches_exclusive(f0: int, f1: int, f2: int)
    requires
        is_finger(f0),
        is_finger(f1),
        is_finger(f2),
    ensures
        is_same_finger(f0, f1, f2) || is_alternation(f0, f1, f2) || is_same_hand(f0, f1, f2)
            || is_roll(f0, f1, f2),
        !(is_same_finger(f0, f1, f2) && is_alternation(f0, f1, f2)),
        !(is_same_finger(f0, f1, f2) && is_same_hand(f0, f1, f2)),
        !(is_same_finger(f0, f1, f2) && is_roll(f0, f1, f2)),
        !(is_alternation(f0, f1, f2) && is_same_hand(f0, f1, f2)),
        !(is_alternation(f0, f1, f2) && is_roll(f0, f1, f2)),
        !(is_same_hand(f0, f1, f2) && is_roll(f0, f1, f2)),
{
}

/// A same-hand trigram that is not a run changes direction at its middle
/// stroke: the middle finger lies strictly beyond both outer fingers.
pub proof fn lemma_redirect_turns(f0: int, f1: int, f2: int)
    requires
        is_finger(f0),
        is_finger(f1),
        is_finger(f2),
        is_same_hand(f0, f1, f2),
        !is_monotonic(f0, f1, f2),
    ensures
        (f1 > f0 && f1 > f2) || (f1 < f0 && f1 < f2),
{
}

/// Classification is total: every triple of fingers gets one of the twelve
/// labels.
pub proof fn lemma_classification_total(f0: int, f1: int, f2: int)
    requires
        is_finger(f0),
        is_finger(f1),
        is_finger(f2),
    ensures
        is_label(label_name(trigram_type(f0, f1, f2))),
{
    let t = trigram_type(f0, f1, f2);
    assert(label_name(t) == label_name(t));
}

} // verus!
