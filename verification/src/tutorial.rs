use vstd::prelude::*;

verus! {

/// The width every tutorial window is created with.
pub const SCR_WIDTH: u32 = 800;

/// The height every tutorial window is created with.
pub const SCR_HEIGHT: u32 = 600;

/// The tutorial variants a command-line identifier can select.
#[derive(Clone, Copy, Debug, PartialEq, Eq, Structural)]
pub enum Tutorial {
    /// The bare bootstrap: a black window polled until escape is pressed.
    HelloWindow,
    /// The window manager's loop: a window cleared to dark blue each frame.
    ManagedWindow,
}

/// Maps a command-line identifier to its tutorial variant; anything else
/// selects nothing and the caller prints the usage message and exits with
/// a failure status.
pub fn select_tutorial(name: &str) -> (t: Option<Tutorial>)
    ensures
        t == (if name@ == "1_1_1"@ {
            Some(Tutorial::HelloWindow)
        } else if name@ == "hello_window"@ {
            Some(Tutorial::ManagedWindow)
        } else {
            None::<Tutorial>
        }),
{
    let owned: String = name.to_owned();
    if owned == "1_1_1".to_owned() {
        Some(Tutorial::HelloWindow)
    } else if owned == "hello_window".to_owned() {
        Some(Tutorial::ManagedWindow)
    } else {
        None
    }
}

/// The usage message printed when no known tutorial is selected.
pub fn usage() -> (s: &'static str)
    ensures
        s@ == "usage: learngl <tutorial>\ntutorials: 1_1_1, hello_window"@,
{
    "usage: learngl <tutorial>\ntutorials: 1_1_1, hello_window"
}

/// The title each variant's window is created under.
pub fn window_title(t: Tutorial) -> (s: &'static str)
    ensures
        t == Tutorial::HelloWindow ==> s@ == "LearnOpenGL"@,
        t == Tutorial::ManagedWindow ==> s@ == "Hello Window"@,
{
    match t {
        Tutorial::HelloWindow => "LearnOpenGL",
        Tutorial::ManagedWindow => "Hello Window",
    }
}

} // verus!
