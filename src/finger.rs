//! Fingers, identified by their left-to-right position 0..10.
use vstd::prelude::*;

verus! {

/// Number of fingers; a finger is an index below this bound.
pub const NUM_FINGERS: usize = 10;

/// A finger index is valid when it names one of the ten fingers.
pub open spec fn is_finger(f: int) -> bool {
    0 <= f < NUM_FINGERS as int
}

/// The hand of a finger: `true` for the right hand (positions 5..10).
pub open spec fn is_right(f: int) -> bool {
    f >= 5
}

/// The fingers on which a redirect counts as bad: every finger but the
/// index fingers and thumbs (LP, LR, LM, RM, RR, RP).
pub open spec fn is_bad_redirect_finger(f: int) -> bool {
    f <= 2 || f >= 7
}

/// The two-letter identifier of each finger, in left-to-right order.
pub open spec fn finger_name(f: int) -> Seq<char> {
    if f == 0 {
        seq!['L', 'P']
    } else if f == 1 {
        seq!['L', 'R']
    } else if f == 2 {
        seq!['L', 'M']
    } else if f == 3 {
        seq!['L', 'I']
    } else if f == 4 {
        seq!['L', 'T']
    } else if f == 5 {
        seq!['R', 'T']
    } else if f == 6 {
        seq!['R', 'I']
    } else if f == 7 {
        seq!['R', 'M']
    } else if f == 8 {
        seq!['R', 'R']
    } else {
        seq!['R', 'P']
    }
}

/// The key of a trigram: the three finger identifiers, concatenated.
pub open spec fn combo_name(f0: int, f1: int, f2: int) -> Seq<char> {
    finger_name(f0) + finger_name(f1) + finger_name(f2)
}

/// Distinct fingers have distinct identifiers.
pub proof fn lemma_finger_name_injective(a: int, b: int)
    requires
        is_finger(a),
        is_finger(b),
        finger_name(a) == finger_name(b),
    ensures
        a == b,
{
    assert(finger_name(a)[0] == finger_name(b)[0]);
    assert(finger_name(a)[1] == finger_name(b)[1]);
}

/// Every trigram key is six characters long, and distinct trigrams have
/// distinct keys.
pub proof fn lemma_combo_name_injective(a0: int, a1: int, a2: int, b0: int, b1: int, b2: int)
    requires
        is_finger(a0),
        is_finger(a1),
        is_finger(a2),
        is_finger(b0),
        is_finger(b1),
        is_finger(b2),
        combo_name(a0, a1, a2) == combo_name(b0, b1, b2),
    ensures
        combo_name(a0, a1, a2).len() == 6,
        a0 == b0 && a1 == b1 && a2 == b2,
{
    let ka = combo_name(a0, a1, a2);
    let kb = combo_name(b0, b1, b2);
    assert(ka.subrange(0, 2) =~= finger_name(a0));
    assert(kb.subrange(0, 2) =~= finger_name(b0));
    assert(ka.subrange(2, 4) =~= finger_name(a1));
    assert(kb.subrange(2, 4) =~= finger_name(b1));
    assert(ka.subrange(4, 6) =~= finger_name(a2));
    assert(kb.subrange(4, 6) =~= finger_name(b2));
    lemma_finger_name_injective(a0, b0);
    lemma_finger_name_injective(a1, b1);
    lemma_finger_name_injective(a2, b2);
}

/// The identifier of a finger.
pub fn finger_str(f: usize) -> (r: &'static str)
    requires
        is_finger(f as int),
    ensures
        r@ == finger_name(f as int),
{
    let r = if f == 0 {
        "LP"
    } else if f == 1 {
        "LR"
    } else if f == 2 {
        "LM"
    } else if f == 3 {
        "LI"
    } else if f == 4 {
        "LT"
    } else if f == 5 {
        "RT"
    } else if f == 6 {
        "RI"
    } else if f == 7 {
        "RM"
    } else if f == 8 {
        "RR"
    } else {
        "RP"
    };
    proof {
        reveal_strlit("LP");
        reveal_strlit("LR");
        reveal_strlit("LM");
        reveal_strlit("LI");
        reveal_strlit("LT");
        reveal_strlit("RT");
        reveal_strlit("RI");
        reveal_strlit("RM");
        reveal_strlit("RR");
        reveal_strlit("RP");
    }
    assert(r@ =~= finger_name(f as int));
    r
}

/// Whether a finger belongs to the right hand.
pub fn is_right_hand(f: usize) -> (r: bool)
    ensures
        r == is_right(f as int),
{
    f >= 5
}

/// Whether a finger belongs to the set on which redirects are bad.
pub fn is_bad_for_redirect(f: usize) -> (r: bool)
    requires
        is_finger(f as int),
    ensures
        r == is_bad_redirect_finger(f as int),
{
    f <= 2 || f >= 7
}

/// The key of a trigram: its three finger identifiers, concatenated.
pub fn get_finger_combo_str(finger0: usize, finger1: usize, finger2: usize) -> (r: String)
    requires
        is_finger(finger0 as int),
        is_finger(finger1 as int),
        is_finger(finger2 as int),
    ensures
        r@ == combo_name(finger0 as int, finger1 as int, finger2 as int),
{
    let mut s = String::new();
    s.append(finger_str(finger0));
    s.append(finger_str(finger1));
    s.append(finger_str(finger2));
    s
}

} // verus!
