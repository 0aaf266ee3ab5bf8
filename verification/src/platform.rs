//! The operating systems that Bardic Chord tells apart.
use vstd::prelude::*;

verus! {

#[derive(Clone, Copy, Debug, PartialEq, Eq, Structural)]
pub enum Platform {
    Linux,
    Windows,
    MacOs,
    Other,
}

impl Platform {
    /// Whether desktop audio can be captured here.
    pub open spec fn captures(self) -> bool {
        self == Platform::Linux || self == Platform::Windows
    }

    pub open spec fn name(self) -> Seq<char> {
        match self {
            Platform::Linux => "Linux"@,
            Platform::Windows => "Windows"@,
            Platform::MacOs => "macOS"@,
            Platform::Other => "this platform"@,
        }
    }

    pub open spec fn idle_message(self) -> Seq<char> {
        match self {
            Platform::Linux =>
                "Desktop audio output is idle. Prepare it from Bardic Chord, route your selected app into it, then start the party."@,
            Platform::Windows =>
                "Desktop audio is idle. Prepare it from Bardic Chord and it will capture the selected app directly through Windows loopback."@,
            _ =>
                "This platform still needs a native loopback backend. The shared UX is ready, but the local capture runtime is not implemented here yet."@,
        }
    }

    /// Whether desktop audio can be captured here.
    pub fn captures_audio(self) -> (r: bool)
        ensures
            r == self.captures(),
    {
        match self {
            Platform::Linux => true,
            Platform::Windows => true,
            _ => false,
        }
    }

    pub fn is_windows(self) -> (r: bool)
        ensures
            r == (self == Platform::Windows),
    {
        match self {
            Platform::Windows => true,
            _ => false,
        }
    }
}

pub fn platform_name(platform: Platform) -> (r: &'static str)
    ensures
        r@ == platform.name(),
{
    match platform {
        Platform::Linux => "Linux",
        Platform::Windows => "Windows",
        Platform::MacOs => "macOS",
        Platform::Other => "this platform",
    }
}

pub fn default_audio_idle_message(platform: Platform) -> (r: &'static str)
    ensures
        r@ == platform.idle_message(),
{
    match platform {
        Platform::Linux =>
            "Desktop audio output is idle. Prepare it from Bardic Chord, route your selected app into it, then start the party.",
        Platform::Windows =>
            "Desktop audio is idle. Prepare it from Bardic Chord and it will capture the selected app directly through Windows loopback.",
        _ =>
            "This platform still needs a native loopback backend. The shared UX is ready, but the local capture runtime is not implemented here yet.",
    }
}

} // verus!
