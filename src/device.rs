//! Selection of the microphone and of a loopback input among the input
//! devices a host reports, and the presence checks the device watchdog makes.

use vstd::prelude::*;
use crate::error::AudioError;
use crate::text::{seq_contains, text_contains};

verus! {

/// Whether a device name carries one of the markers of a loopback input.
pub open spec fn is_loopback_spec(name: Seq<char>) -> bool {
    ||| seq_contains(name, "Stereo Mix"@)
    ||| seq_contains(name, "Wave Out Mix"@)
    ||| seq_contains(name, "What U Hear"@)
    ||| seq_contains(name, "Loopback"@)
    ||| seq_contains(name, "Monitor of"@)
}

/// Whether a device name marks a loopback input ("Stereo Mix", "Wave Out Mix",
/// "What U Hear", "Loopback", "Monitor of").
pub fn is_loopback_name(name: &str) -> (r: bool)
    ensures
        r == is_loopback_spec(name@),
{
    text_contains(name, "Stereo Mix") || text_contains(name, "Wave Out Mix") || text_contains(
        name,
        "What U Hear",
    ) || text_contains(name, "Loopback") || text_contains(name, "Monitor of")
}

/// `i` is the first index of `names` whose name marks a loopback input.
pub open spec fn first_loopback(names: Seq<String>, i: int) -> bool {
    &&& 0 <= i < names.len()
    &&& is_loopback_spec(names[i]@)
    &&& forall|j: int| 0 <= j < i ==> !is_loopback_spec(#[trigger] names[j]@)
}

/// No name of `names` marks a loopback input.
pub open spec fn no_loopback(names: Seq<String>) -> bool {
    forall|j: int| 0 <= j < names.len() ==> !is_loopback_spec(#[trigger] names[j]@)
}

/// Index of the first device whose name marks a loopback input.
pub fn find_loopback(names: &Vec<String>) -> (r: Option<usize>)
    ensures
        match r {
            Some(i) => first_loopback(names@, i as int),
            None => no_loopback(names@),
        },
{
    let mut i: usize = 0;
    while i < names.len()
        invariant
            i <= names@.len(),
            forall|j: int| 0 <= j < i ==> !is_loopback_spec(#[trigger] names@[j]@),
        decreases names@.len() - i,
    {
        if is_loopback_name(names[i].as_str()) {
            return Some(i);
        }
        i = i + 1;
    }
    None
}

/// The devices a recording binds: the microphone, and a loopback input if one
/// was found. The names identify the devices to the watchdog.
#[derive(Clone, Debug)]
pub struct DeviceChoice {
    pub microphone: String,
    pub loopback: Option<String>,
}

/// Outcome of device resolution: the microphone's name and the index, among
/// the names given, of the loopback input if one was found.
#[derive(Clone, Debug)]
pub struct Resolved {
    pub microphone: String,
    pub loopback: Option<usize>,
}

/// Resolves the devices of a recording from the names of the input devices the
/// host reports and the name of its default input device. Fails with
/// `NoInputDevice` when there is no input device, then with
/// `NoDefaultMicrophone` when there is no default input. The loopback is the
/// first device whose name carries a loopback marker, looked for only where
/// `scan_loopback` says the platform exposes loopback as an ordinary input; its
/// absence is no error.
pub fn resolve_devices(names: &Vec<String>, default_input: Option<String>, scan_loopback: bool) -> (r: Result<Resolved, AudioError>)
    ensures
        names@.len() == 0 ==> r == Err::<Resolved, AudioError>(AudioError::NoInputDevice),
        names@.len() > 0 && default_input is None ==> r == Err::<Resolved, AudioError>(
            AudioError::NoDefaultMicrophone,
        ),
        names@.len() > 0 && default_input is Some ==> r is Ok,
        r matches Ok(c) ==> {
            &&& c.microphone@ == default_input->0@
            &&& !scan_loopback ==> c.loopback is None
            &&& scan_loopback ==> match c.loopback {
                Some(i) => first_loopback(names@, i as int),
                None => no_loopback(names@),
            }
        },
{
    if names.len() == 0 {
        return Err(AudioError::NoInputDevice);
    }
    let microphone = match default_input {
        Some(m) => m,
        None => {
            return Err(AudioError::NoDefaultMicrophone);
        },
    };
    let loopback = if scan_loopback {
        find_loopback(names)
    } else {
        None
    };
    Ok(Resolved { microphone, loopback })
}

/// Whether `name` is among `names`.
pub open spec fn name_listed(names: Seq<String>, name: Seq<char>) -> bool {
    exists|i: int| 0 <= i < names.len() && (#[trigger] names[i])@ == name
}

/// Whether `name` is among the names of the devices present now.
pub fn is_present(names: &Vec<String>, name: &String) -> (r: bool)
    ensures
        r == name_listed(names@, name@),
{
    let mut i: usize = 0;
    while i < names.len()
        invariant
            i <= names@.len(),
            forall|j: int| 0 <= j < i ==> (#[trigger] names@[j])@ != name@,
        decreases names@.len() - i,
    {
        if names[i] == *name {
            return true;
        }
        i = i + 1;
    }
    false
}

/// Two device lists name the same devices in the same order.
pub open spec fn same_names_spec(a: Seq<String>, b: Seq<String>) -> bool {
    a.len() == b.len() && forall|i: int| 0 <= i < a.len() ==> (#[trigger] a[i])@ == b[i]@
}

/// Whether the device list is unchanged since the last look; a change is what
/// makes the watchdog check the active recordings.
pub fn same_names(a: &Vec<String>, b: &Vec<String>) -> (r: bool)
    ensures
        r == same_names_spec(a@, b@),
{
    if a.len() != b.len() {
        return false;
    }
    let mut i: usize = 0;
    while i < a.len()
        invariant
            a@.len() == b@.len(),
            i <= a@.len(),
            forall|j: int| 0 <= j < i ==> (#[trigger] a@[j])@ == b@[j]@,
        decreases a@.len() - i,
    {
        if a[i] != b[i] {
            return false;
        }
        i = i + 1;
    }
    true
}

/// A bound device set is lost when the microphone, or the loopback input it
/// used, is no longer among the present devices.
pub open spec fn devices_lost(names: Seq<String>, microphone: Seq<char>, loopback: Option<String>) -> bool {
    ||| !name_listed(names, microphone)
    ||| (loopback matches Some(l) && !name_listed(names, l@))
}

/// Whether the devices a recording is bound to have gone.
pub fn bound_devices_lost(names: &Vec<String>, choice: &DeviceChoice) -> (r: bool)
    ensures
        r == devices_lost(names@, choice.microphone@, choice.loopback),
{
    if !is_present(names, &choice.microphone) {
        return true;
    }
    match &choice.loopback {
        Some(l) => !is_present(names, l),
        None => false,
    }
}

} // verus!
