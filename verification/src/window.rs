//! What the program knows of its window: whether it was asked to close,
//! whether it changed size in the last update, and its size.

use vstd::prelude::*;

verus! {

/// What the platform reports of the window.
#[derive(Clone, Copy, Debug, PartialEq, Eq, Structural)]
pub enum WindowEvent {
    /// The user asked to close the window.
    Quit,
    /// The window now measures this many pixels across and down.
    Resized(i32, i32),
    /// Anything else.
    Other,
}

/// The state of the window.
#[derive(Clone, Copy, Debug, PartialEq, Eq, Structural)]
pub struct Window {
    pub should_close: bool,
    pub did_resize: bool,
    pub width: i32,
    pub height: i32,
}

/// The window after one event.
pub open spec fn after_event(window: Window, event: WindowEvent) -> Window {
    match event {
        WindowEvent::Quit => Window { should_close: true, ..window },
        WindowEvent::Resized(width, height) => Window { did_resize: true, width, height, ..window },
        WindowEvent::Other => window,
    }
}

/// The window after a run of events, taken in order.
pub open spec fn after_events(window: Window, events: Seq<WindowEvent>) -> Window
    decreases events.len(),
{
    if events.len() == 0 {
        window
    } else {
        after_event(after_events(window, events.drop_last()), events.last())
    }
}

/// A request to close is never taken back, and the size changes only
/// together with the mark that it did.
pub proof fn lemma_events_keep_close_and_size(window: Window, events: Seq<WindowEvent>)
    ensures
        window.should_close ==> after_events(window, events).should_close,
        window.did_resize ==> after_events(window, events).did_resize,
        !after_events(window, events).did_resize ==> after_events(window, events).width
            == window.width && after_events(window, events).height == window.height,
    decreases events.len(),
{
    if events.len() > 0 {
        lemma_events_keep_close_and_size(window, events.drop_last());
    }
}

impl Window {
    /// An open window of `width` by `height` pixels.
    pub fn new(width: i32, height: i32) -> (window: Window)
        ensures
            window == (Window { should_close: false, did_resize: false, width, height }),
    {
        Window { should_close: false, did_resize: false, width, height }
    }

    /// Takes in the events that came up since the last update. The mark
    /// of a resize stands for this update only.
    pub fn update(&mut self, events: &[WindowEvent])
        ensures
            *final(self) == after_events(Window { did_resize: false, ..*old(self) }, events@),
    {
        self.did_resize = false;
        let ghost start = *self;
        let mut i: usize = 0;
        while i < events.len()
            invariant
                i <= events@.len(),
                *self == after_events(start, events@.take(i as int)),
            decreases events@.len() - i,
        {
            proof {
                assert(events@.take(i + 1).drop_last() =~= events@.take(i as int));
            }
            match events[i] {
                WindowEvent::Quit => {
                    self.should_close = true;
                },
                WindowEvent::Resized(width, height) => {
                    self.width = width;
                    self.height = height;
                    self.did_resize = true;
                },
                WindowEvent::Other => {},
            }
            i += 1;
        }
        proof {
            assert(events@.take(events@.len() as int) =~= events@);
        }
    }

    /// Marks the window as asked to close.
    pub fn close(&mut self)
        ensures
            *final(self) == (Window { should_close: true, ..*old(self) }),
    {
        self.should_close = true;
    }
}

} // verus!
