//! What the tool makes of the answers of the operating system.

use vstd::prelude::*;

verus! {

/// How the tool leaves once it has restarted itself with administrator
/// rights.
pub enum ElevationExitMethod<'a> {
    /// Ask the window to close: the flag is set and the event loop ends in
    /// its own time.
    Gentle(&'a mut bool),
    /// End the process at once.
    Forced,
}

/// Carries out the exit after the elevated copy was started. Returns whether
/// the process is to end at once; for a gentle exit the closing flag is set
/// instead.
pub fn elevate(closing: ElevationExitMethod) -> (exit: bool)
    ensures
        match closing {
            ElevationExitMethod::Gentle(flag) => !exit && *final(flag),
            ElevationExitMethod::Forced => exit,
        },
{
    match closing {
        ElevationExitMethod::Gentle(flag) => {
            *flag = true;
            false
        },
        ElevationExitMethod::Forced => true,
    }
}

/// Whether the system is set to a dark theme, from the registry value that
/// says whether applications use the light theme: dark unless that value is
/// there and is 1.
pub fn is_system_theme_dark(apps_use_light_theme: Option<u32>) -> (dark: bool)
    ensures
        dark == (apps_use_light_theme != Some(1u32)),
{
    match apps_use_light_theme {
        Some(dword) => dword != 1,
        None => true,
    }
}

/// Whether a key is held down, from its asynchronous key state: the state's
/// highest bit says so.
pub fn is_key_pressed(key_state: i16) -> (pressed: bool)
    ensures
        pressed == (key_state < 0),
{
    assert((key_state & i16::MIN != 0) == (key_state < 0)) by (bit_vector);
    key_state & i16::MIN != 0
}

/// Whether any of the given key states is that of a key held down.
pub fn is_any_key_pressed(key_states: &Vec<i16>) -> (pressed: bool)
    ensures
        pressed == exists|i: int| 0 <= i < key_states@.len() && key_states@[i] < 0,
{
    let mut index: usize = 0;
    while index < key_states.len()
        invariant
            index <= key_states.len(),
            forall|i: int| 0 <= i < index ==> key_states@[i] >= 0,
        decreases key_states.len() - index,
    {
        if is_key_pressed(key_states[index]) {
            return true;
        }
        index += 1;
    }
    false
}

/// The length of the text in a buffer of UTF-16 units: the text ends before
/// the first zero unit, or at the end of the buffer where there is none.
pub fn wide_len(wide: &Vec<u16>) -> (len: usize)
    ensures
        len <= wide@.len(),
        forall|i: int| 0 <= i < len ==> wide@[i] != 0,
        len < wide@.len() ==> wide@[len as int] == 0,
{
    let mut index: usize = 0;
    while index < wide.len() && wide[index] != 0
        invariant
            index <= wide.len(),
            forall|i: int| 0 <= i < index ==> wide@[i] != 0,
        decreases wide.len() - index,
    {
        index += 1;
    }
    index
}

} // verus!
