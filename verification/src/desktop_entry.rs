//! The entry of Bardic Chord in the menus of a Linux desktop.
use crate::text;
use vstd::prelude::*;

verus! {

pub const LINUX_APP_ID: &'static str = "bardic-chord";

/// The contents of the desktop entry file.
pub open spec fn entry_contents(executable: Seq<char>) -> Seq<char> {
    "[Desktop Entry]\nType=Application\nVersion=1.0\nName=Bardic Chord\nComment=A mythical desktop relay for routing desktop audio into Discord voice.\nExec="@
        + executable + "\nIcon="@ + LINUX_APP_ID@
        + "\nTerminal=false\nCategories=AudioVideo;Utility;\nStartupWMClass="@ + LINUX_APP_ID@
        + "\nStartupNotify=true\n"@
}

/// The contents of the desktop entry file.
pub fn desktop_entry(executable: &str) -> (r: String)
    ensures
        r@ == entry_contents(executable@),
{
    "[Desktop Entry]\nType=Application\nVersion=1.0\nName=Bardic Chord\nComment=A mythical desktop relay for routing desktop audio into Discord voice.\nExec=".to_owned().concat(
        executable,
    ).concat("\nIcon=").concat(LINUX_APP_ID).concat(
        "\nTerminal=false\nCategories=AudioVideo;Utility;\nStartupWMClass=",
    ).concat(LINUX_APP_ID).concat("\nStartupNotify=true\n")
}

/// The name of the desktop entry file.
pub fn desktop_entry_name() -> (r: String)
    ensures
        r@ == LINUX_APP_ID@ + ".desktop"@,
{
    LINUX_APP_ID.to_owned().concat(".desktop")
}

/// The name of the icon file.
pub fn icon_name() -> (r: String)
    ensures
        r@ == LINUX_APP_ID@ + ".png"@,
{
    LINUX_APP_ID.to_owned().concat(".png")
}

/// The entry starts the program that it was made for.
pub proof fn entry_starts_the_program(executable: Seq<char>)
    ensures
        text::occurs(entry_contents(executable), "\nExec="@ + executable + "\nIcon="@),
{
    reveal_strlit(
        "[Desktop Entry]\nType=Application\nVersion=1.0\nName=Bardic Chord\nComment=A mythical desktop relay for routing desktop audio into Discord voice.\nExec=",
    );
    reveal_strlit(
        "[Desktop Entry]\nType=Application\nVersion=1.0\nName=Bardic Chord\nComment=A mythical desktop relay for routing desktop audio into Discord voice.",
    );
    reveal_strlit("\nExec=");
    let front =
        "[Desktop Entry]\nType=Application\nVersion=1.0\nName=Bardic Chord\nComment=A mythical desktop relay for routing desktop audio into Discord voice."@;
    let part = "\nExec="@ + executable + "\nIcon="@;
    let rest = LINUX_APP_ID@ + "\nTerminal=false\nCategories=AudioVideo;Utility;\nStartupWMClass="@
        + LINUX_APP_ID@ + "\nStartupNotify=true\n"@;
    assert(entry_contents(executable) =~= front + part + rest);
    text::part_occurs(front, part, rest);
}

} // verus!
