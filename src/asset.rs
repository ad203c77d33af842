use vstd::prelude::*;

verus! {

/// The name of the alarm sound file.
pub const SOUND_FILE_NAME: &'static str = "sound.mp3";

/// A place where the alarm sound is looked for.
#[derive(Clone, Copy, Debug, PartialEq, Eq, Structural)]
pub enum SoundLocation {
    /// The current working directory.
    WorkingDir,
    /// The application's own data directory of the platform.
    DataDir,
    /// The directory that holds the running executable.
    ExeDir,
}

/// The first place, in the order working directory, data directory, executable
/// directory, that holds the sound file.
pub open spec fn first_holding(in_working_dir: bool, in_data_dir: bool, in_exe_dir: bool) -> Option<
    SoundLocation,
> {
    if in_working_dir {
        Some(SoundLocation::WorkingDir)
    } else if in_data_dir {
        Some(SoundLocation::DataDir)
    } else if in_exe_dir {
        Some(SoundLocation::ExeDir)
    } else {
        None
    }
}

/// Picks where to take the sound file from, given which places hold it (a place
/// that cannot be named on this system holds nothing).
pub fn choose_sound_location(in_working_dir: bool, in_data_dir: bool, in_exe_dir: bool) -> (r:
    Option<SoundLocation>)
    ensures
        r == first_holding(in_working_dir, in_data_dir, in_exe_dir),
        r.is_none() <==> !in_working_dir && !in_data_dir && !in_exe_dir,
        in_working_dir ==> r == Some(SoundLocation::WorkingDir),
{
    if in_working_dir {
        Some(SoundLocation::WorkingDir)
    } else if in_data_dir {
        Some(SoundLocation::DataDir)
    } else if in_exe_dir {
        Some(SoundLocation::ExeDir)
    } else {
        None
    }
}

} // verus!
