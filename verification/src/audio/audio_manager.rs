//! Which sound file goes with which sound name.

use crate::text::same_text;
use vstd::prelude::*;
use vstd::string::*;

verus! {

/// The sound that is played when none is named.
pub const DEFAULT_SOUND: &'static str = "Background";

/// A sound name that is not in the list.
#[derive(Debug, PartialEq, Eq)]
pub struct UnknownSound {
    pub name: String,
}

/// The file that holds the sound of the given name; `None` for a name that
/// is not in the list. Names are matched exactly.
pub open spec fn sound_path(sound: Seq<char>) -> Option<Seq<char>> {
    if sound == "Background"@ {
        Some(r"C:\Windows\Media\Windows Background.wav"@)
    } else if sound == "Foreground"@ {
        Some(r"C:\Windows\Media\Windows Foreground.wav"@)
    } else if sound == "Logon"@ {
        Some(r"C:\Windows\Media\Windows Logon.wav"@)
    } else if sound == "Alarm"@ {
        Some(r"C:\Windows\Media\Windows Notify System Generic.wav"@)
    } else {
        None
    }
}

/// The file that holds the sound of the given name.
pub fn get_sound_path(sound: &str) -> (path: Option<&'static str>)
    ensures
        match path {
            Some(path) => sound_path(sound@) == Some(path@),
            None => sound_path(sound@) is None,
        },
{
    if same_text(sound, "Background") {
        Some(r"C:\Windows\Media\Windows Background.wav")
    } else if same_text(sound, "Foreground") {
        Some(r"C:\Windows\Media\Windows Foreground.wav")
    } else if same_text(sound, "Logon") {
        Some(r"C:\Windows\Media\Windows Logon.wav")
    } else if same_text(sound, "Alarm") {
        Some(r"C:\Windows\Media\Windows Notify System Generic.wav")
    } else {
        None
    }
}

/// The file to play for a request: that of the named sound, or of
/// [`DEFAULT_SOUND`] when the request names none. A name that is not in the
/// list is handed back as the error.
pub fn select_sound(sound: Option<&str>) -> (selected: Result<&'static str, UnknownSound>)
    ensures
        match selected {
            Ok(path) => sound_path(requested_sound(sound)) == Some(path@),
            Err(unknown) => sound_path(requested_sound(sound)) is None && unknown.name@
                == requested_sound(sound),
        },
{
    let name = match sound {
        Some(name) => name,
        None => DEFAULT_SOUND,
    };
    match get_sound_path(name) {
        Some(path) => Ok(path),
        None => Err(UnknownSound { name: name.to_owned() }),
    }
}

/// The name a request asks for.
pub open spec fn requested_sound(sound: Option<&str>) -> Seq<char> {
    match sound {
        Some(name) => name@,
        None => DEFAULT_SOUND@,
    }
}

impl UnknownSound {
    /// The message shown for the error.
    pub fn message(&self) -> (text: String)
        ensures
            text@ == "Sound '"@ + self.name@ + "' not found in predefined list"@,
    {
        let mut text = "Sound '".to_owned();
        text.append(self.name.as_str());
        text.append("' not found in predefined list");
        text
    }
}

} // verus!
