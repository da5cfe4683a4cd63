//! Resolving the keycode of the escape key.
//!
//! The caller fetches the keyboard mapping from the X server; the search
//! through it is verified here.

use crate::errors::KeyboardError;
use vstd::prelude::*;

verus! {

/// The keysym of the escape key.
pub const ESC_KEYSYM: u32 = 0xff1b;

/// The index of the first escape keysym in the mapping, if any.
pub open spec fn spec_first_esc(s: Seq<u32>) -> Option<int>
    decreases s.len(),
{
    if s.len() == 0 {
        None
    } else if s[0] == ESC_KEYSYM {
        Some(0)
    } else {
        match spec_first_esc(s.drop_first()) {
            Some(i) => Some(i + 1),
            None => None,
        }
    }
}

/// A prefix without the escape keysym only shifts the first index.
proof fn lemma_first_esc_skip(s: Seq<u32>, i: int)
    requires
        0 <= i <= s.len(),
        forall|k: int| 0 <= k < i ==> s[k] != ESC_KEYSYM,
    ensures
        spec_first_esc(s) == match spec_first_esc(s.subrange(i, s.len() as int)) {
            Some(j) => Some(i + j),
            None => None::<int>,
        },
    decreases i,
{
    if i == 0 {
        assert(s.subrange(0, s.len() as int) =~= s);
    } else {
        assert(s.drop_first() =~= s.subrange(1, s.len() as int));
        assert(forall|k: int|
            0 <= k < i - 1 ==> s.drop_first()[k] == s[k + 1] && s[k + 1] != ESC_KEYSYM);
        lemma_first_esc_skip(s.drop_first(), i - 1);
        assert(s.drop_first().subrange(i - 1, s.drop_first().len() as int) =~= s.subrange(
            i,
            s.len() as int,
        ));
    }
}

/// Finds the keycode that carries the escape keysym.
///
/// `keysyms` is the server's keyboard mapping starting at `min_keycode`,
/// with `keysyms_per_keycode` entries per keycode.  The first escape entry
/// names the keycode; when no entry is escape, or the keycode would not fit
/// in eight bits, nothing is found.
pub fn find_escape_keycode(keysyms: &Vec<u32>, keysyms_per_keycode: u8, min_keycode: u8) -> (r:
    Result<u8, KeyboardError>)
    requires
        keysyms_per_keycode > 0,
    ensures
        match spec_first_esc(keysyms@) {
            None => r == Err::<u8, KeyboardError>(KeyboardError::NotFound),
            Some(i) => {
                let k = i / (keysyms_per_keycode as int);
                if k + min_keycode <= u8::MAX {
                    r == Ok::<u8, KeyboardError>((k + min_keycode) as u8)
                } else {
                    r == Err::<u8, KeyboardError>(KeyboardError::NotFound)
                }
            },
        },
{
    let ghost s: Seq<u32> = keysyms@;
    let n: usize = keysyms.len();
    let mut i: usize = 0;
    while i < n
        invariant_except_break
            i <= n,
            n == s.len(),
            s == keysyms@,
            forall|k: int| 0 <= k < i ==> s[k] != ESC_KEYSYM,
        ensures
            i <= n,
            n == s.len(),
            s == keysyms@,
            forall|k: int| 0 <= k < i ==> s[k] != ESC_KEYSYM,
            i < n ==> s[i as int] == ESC_KEYSYM,
        decreases n - i,
    {
        if keysyms[i] == ESC_KEYSYM {
            break ;
        }
        i += 1;
    }
    proof {
        lemma_first_esc_skip(s, i as int);
        if i < n {
            assert(s.subrange(i as int, n as int)[0] == ESC_KEYSYM);
            assert(spec_first_esc(s.subrange(i as int, n as int)) == Some(0int));
            assert(spec_first_esc(s) == Some(i as int));
        } else {
            assert(s.subrange(i as int, n as int).len() == 0);
            assert(spec_first_esc(s) is None);
        }
    }
    if i == n {
        return Err(KeyboardError::NotFound);
    }
    let keycode_offset: usize = i / (keysyms_per_keycode as usize);
    if keycode_offset > (u8::MAX - min_keycode) as usize {
        return Err(KeyboardError::NotFound);
    }
    Ok(keycode_offset as u8 + min_keycode)
}

} // verus!
