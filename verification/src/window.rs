use vstd::prelude::*;

verus! {

/// The context settings every window of the tutorial asks the driver
/// for before it is created.
#[derive(Clone, Copy, Debug, PartialEq, Eq, Structural)]
pub struct ContextHints {
    pub version_major: u32,
    pub version_minor: u32,
    pub core_profile: bool,
}

/// No escape among the first `n` key events.
pub open spec fn escape_free(events: Seq<bool>, n: int) -> bool {
    forall|i: int| 0 <= i < n ==> !events[i]
}

/// One window with its visibility state. The native window and its event
/// queue live in the front end; this type decides when the render loop
/// runs and when it ends.
pub struct GlWindow {
    width: u32,
    height: u32,
    is_visible: bool,
    pub title: String,
}

impl GlWindow {
    /// The width the window is created with.
    pub closed spec fn spec_width(self) -> u32 {
        self.width
    }

    /// The height the window is created with.
    pub closed spec fn spec_height(self) -> u32 {
        self.height
    }

    /// Whether the render loop is running.
    pub closed spec fn spec_visible(self) -> bool {
        self.is_visible
    }

    /// The title the window is created with.
    pub closed spec fn spec_title(self) -> Seq<char> {
        self.title@
    }

    /// A window that is not showing yet.
    pub fn new(width: u32, height: u32, title: &str) -> (w: GlWindow)
        ensures
            w.spec_width() == width,
            w.spec_height() == height,
            !w.spec_visible(),
            w.spec_title() == title@,
    {
        GlWindow { width, height, is_visible: false, title: title.to_owned() }
    }

    /// The context every window asks for: version 3.3, core profile.
    pub fn context_hints() -> (h: ContextHints)
        ensures
            h == (ContextHints { version_major: 3, version_minor: 3, core_profile: true }),
    {
        ContextHints { version_major: 3, version_minor: 3, core_profile: true }
    }

    /// The width to create the native window with.
    pub fn width(&self) -> (v: u32)
        ensures
            v == self.spec_width(),
    {
        self.width
    }

    /// The height to create the native window with.
    pub fn height(&self) -> (v: u32)
        ensures
            v == self.spec_height(),
    {
        self.height
    }

    /// Whether the render loop should run another frame.
    pub fn is_showing(&self) -> (v: bool)
        ensures
            v == self.spec_visible(),
    {
        self.is_visible
    }

    /// Ends the render loop: the window no longer shows.
    pub fn dismiss(&mut self)
        ensures
            !final(self).spec_visible(),
            final(self).spec_width() == old(self).spec_width(),
            final(self).spec_height() == old(self).spec_height(),
            final(self).spec_title() == old(self).spec_title(),
    {
        self.is_visible = false
    }

    /// Handles one frame's input: an escape press dismisses the window,
    /// anything else leaves it as it was.
    pub fn handle_input(&mut self, escape_pressed: bool)
        ensures
            final(self).spec_visible() == (old(self).spec_visible() && !escape_pressed),
            final(self).spec_width() == old(self).spec_width(),
            final(self).spec_height() == old(self).spec_height(),
            final(self).spec_title() == old(self).spec_title(),
    {
        if escape_pressed {
            self.dismiss();
        }
    }

    /// Runs the render loop over the key events the front end polls, one
    /// per frame, and says how many frames were drawn: the window shows
    /// until escape is pressed, every frame up to and including the
    /// escape one is still drawn, and once the events run out the window
    /// is left showing for the next poll.
    pub fn show(&mut self, events: &Vec<bool>) -> (frames: usize)
        ensures
            frames <= events@.len(),
            final(self).spec_visible() <==> escape_free(events@, events@.len() as int),
            escape_free(events@, frames - 1),
            frames == events@.len() || (frames >= 1 && events@[frames - 1]),
            final(self).spec_width() == old(self).spec_width(),
            final(self).spec_height() == old(self).spec_height(),
            final(self).spec_title() == old(self).spec_title(),
    {
        self.is_visible = true;
        let mut i: usize = 0;
        while self.is_visible && i < events.len()
            invariant
                i <= events@.len(),
                self.is_visible == escape_free(events@, i as int),
                escape_free(events@, i - 1),
                i == events@.len() || self.is_visible || (i >= 1 && events@[i - 1]),
                self.width == old(self).spec_width(),
                self.height == old(self).spec_height(),
                self.spec_title() == old(self).spec_title(),
            decreases events@.len() - i,
        {
            let escape_pressed = events[i];
            self.handle_input(escape_pressed);
            // the frame is still drawn and presented before the loop
            // condition is checked again
            i = i + 1;
        }
        proof {
            if !self.is_visible {
                assert(!escape_free(events@, events@.len() as int));
            }
        }
        i
    }
}

/// Pressing escape always terminates the render loop: if any polled event
/// is an escape press, the events are not escape-free, so `show` leaves
/// the window no longer showing and returns normally.
pub proof fn lemma_escape_ends_show(events: Seq<bool>, k: int)
    requires
        0 <= k < events.len(),
        events[k],
    ensures
        !escape_free(events, events.len() as int),
{
}

} // verus!
