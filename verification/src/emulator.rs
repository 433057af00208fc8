//! The frontend state the emulation core's callbacks read and write.
//!
//! The core calls back into the frontend while it runs a frame: it polls
//! button states and hands over the rendered framebuffer. [`Emualtor`] keeps
//! exactly that state — the buttons pushed for the next frame and the last
//! converted video frame. The unverifiable edges (loading the core, file
//! I/O for ROMs and save states, the window) live outside this crate and
//! drive this type through its methods.

use vstd::prelude::*;

use crate::pixel::convert_pixel_array_from_rgb565_to_xrgb8888;
use crate::pixel::converted_frame;

verus! {

/// The frontend's state between two runs of the core: the button states the
/// core will poll, and the video frame it rendered last, already converted
/// to 32-bit pixels. Both start out absent.
pub struct Emualtor {
    buttons: Option<Vec<i16>>,
    frame: Option<Vec<u32>>,
}

impl Emualtor {
    /// The button states the core polls, if any have been pushed.
    pub closed spec fn buttons_view(&self) -> Option<Seq<i16>> {
        match self.buttons {
            Some(b) => Some(b@),
            None => None,
        }
    }

    /// The last converted video frame, if one is waiting to be displayed.
    pub closed spec fn frame_view(&self) -> Option<Seq<u32>> {
        match self.frame {
            Some(f) => Some(f@),
            None => None,
        }
    }

    /// A frontend with no buttons pushed and no frame waiting.
    pub fn new() -> (emulator: Self)
        ensures
            emulator.buttons_view() is None,
            emulator.frame_view() is None,
    {
        Emualtor { buttons: None, frame: None }
    }

    /// Replace the button states the core will poll from now on.
    pub fn push_buttons(&mut self, buttons: Vec<i16>)
        ensures
            final(self).buttons_view() == Some(buttons@),
            final(self).frame_view() == old(self).frame_view(),
    {
        self.buttons = Some(buttons);
    }

    /// How many button states have been pushed, if any have been.
    pub fn buttons_len(&self) -> (n: Option<usize>)
        ensures
            match n {
                Some(k) => self.buttons_view() matches Some(b) && b.len() == k,
                None => self.buttons_view() is None,
            },
    {
        match &self.buttons {
            Some(buttons) => Some(buttons.len()),
            None => None,
        }
    }

    /// The state of one button, as the core's input-state callback reports
    /// it: the pushed state for `id`, or released while nothing has been
    /// pushed yet.
    pub fn button_state(&self, id: usize) -> (state: i16)
        requires
            self.buttons_view() matches Some(b) ==> id < b.len(),
        ensures
            state == match self.buttons_view() {
                Some(b) => b[id as int],
                None => 0i16,
            },
    {
        match &self.buttons {
            Some(buttons) => buttons[id],
            None => 0,
        }
    }

    /// Accept one rendered RGB565 frame from the core's video-refresh
    /// callback: convert it and keep it for the display.
    pub fn video_refresh(&mut self, data: &[u8], width: usize, height: usize, pitch: usize)
        requires
            width * height <= usize::MAX,
            forall|y: int| 0 <= y < height ==> #[trigger] (y * pitch) + 2 * width <= data@.len(),
        ensures
            final(self).frame_view() == Some(
                converted_frame(data@, width as int, height as int, pitch as int),
            ),
            final(self).buttons_view() == old(self).buttons_view(),
    {
        let converted = convert_pixel_array_from_rgb565_to_xrgb8888(data, width, height, pitch);
        self.frame = Some(converted);
    }

    /// Hand the waiting video frame to the display, leaving none waiting: a
    /// frame is returned exactly once.
    pub fn take_video_frame(&mut self) -> (frame: Option<Vec<u32>>)
        ensures
            final(self).frame_view() is None,
            final(self).buttons_view() == old(self).buttons_view(),
            match frame {
                Some(f) => old(self).frame_view() == Some(f@),
                None => old(self).frame_view() is None,
            },
    {
        self.frame.take()
    }
}

} // verus!
