//! The sixteen-key pad and the keyboard keys that stand for it.

use vstd::prelude::*;

verus! {

/// The keyboard symbol of each key of the pad, by key number. On a
/// keyboard the sixteen symbols form the block
///
/// ```text
/// 1 2 3 4        1 2 3 C
/// q w e r   for  4 5 6 D
/// a s d f        7 8 9 E
/// z x c v        A 0 B F
/// ```
pub const KEYPAD: [char; 16] = [
    'x', '1', '2', '3', 'q', 'w', 'e', 'a', 's', 'd', 'z', 'c', '4', 'r', 'f', 'v',
];

/// The number of the pad key that keyboard symbol `symbol` stands for, or
/// `None` if it stands for none.
pub fn convert_key(symbol: char) -> (key: Option<usize>)
    ensures
        match key {
            Some(k) => k < 16 && KEYPAD[k as int] == symbol,
            None => forall|k: int| 0 <= k < 16 ==> KEYPAD[k] != symbol,
        },
{
    proof {
        assert(KEYPAD[0] == 'x' && KEYPAD[1] == '1' && KEYPAD[2] == '2' && KEYPAD[3] == '3');
        assert(KEYPAD[4] == 'q' && KEYPAD[5] == 'w' && KEYPAD[6] == 'e' && KEYPAD[7] == 'a');
        assert(KEYPAD[8] == 's' && KEYPAD[9] == 'd' && KEYPAD[10] == 'z' && KEYPAD[11] == 'c');
        assert(KEYPAD[12] == '4' && KEYPAD[13] == 'r' && KEYPAD[14] == 'f' && KEYPAD[15] == 'v');
    }
    match symbol {
        '1' => Some(0x1),
        '2' => Some(0x2),
        '3' => Some(0x3),
        '4' => Some(0xC),
        'q' => Some(0x4),
        'w' => Some(0x5),
        'e' => Some(0x6),
        'r' => Some(0xD),
        'a' => Some(0x7),
        's' => Some(0x8),
        'd' => Some(0x9),
        'f' => Some(0xE),
        'z' => Some(0xA),
        'x' => Some(0x0),
        'c' => Some(0xB),
        'v' => Some(0xF),
        _ => None,
    }
}

/// No two keys of the pad share a symbol, so a symbol stands for at most
/// one key.
pub proof fn lemma_keypad_symbols_differ(first: int, second: int)
    requires
        0 <= first < 16,
        0 <= second < 16,
        KEYPAD[first] == KEYPAD[second],
    ensures
        first == second,
{
    assert(KEYPAD[0] == 'x' && KEYPAD[1] == '1' && KEYPAD[2] == '2' && KEYPAD[3] == '3');
    assert(KEYPAD[4] == 'q' && KEYPAD[5] == 'w' && KEYPAD[6] == 'e' && KEYPAD[7] == 'a');
    assert(KEYPAD[8] == 's' && KEYPAD[9] == 'd' && KEYPAD[10] == 'z' && KEYPAD[11] == 'c');
    assert(KEYPAD[12] == '4' && KEYPAD[13] == 'r' && KEYPAD[14] == 'f' && KEYPAD[15] == 'v');
}

} // verus!
