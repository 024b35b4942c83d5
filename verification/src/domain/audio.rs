use crate::domain::constants::AUDIO_FOLDER;
use vstd::prelude::*;
use vstd::string::StringExecFns;

verus! {

/// The sounds played when a smart action starts and stops.
#[derive(Debug, Clone, Copy, PartialEq, Eq, Structural)]
pub enum Audio {
    START,
    STOP,
}

/// The file of a sound: the audio folder, a slash and the file name.
pub open spec fn audio_file(audio: Audio) -> Seq<char> {
    match audio {
        Audio::START => AUDIO_FOLDER@ + "/"@ + "start.mp3"@,
        Audio::STOP => AUDIO_FOLDER@ + "/"@ + "stop.mp3"@,
    }
}

impl Audio {
    /// The path of the sound's file.
    pub fn file(&self) -> (r: String)
        ensures
            r@ == audio_file(*self),
    {
        let folder = String::from_str(AUDIO_FOLDER);
        match self {
            Audio::START => folder.concat("/").concat("start.mp3"),
            Audio::STOP => folder.concat("/").concat("stop.mp3"),
        }
    }
}

} // verus!
