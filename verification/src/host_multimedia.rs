//! The graphics and audio of the machine the emulator runs on.
//!
//! The traits here are implemented by whoever provides a window or a sound
//! device. Each names, as spec functions, what its operations do, so that
//! the emulator's drawing and sound code is verified against any
//! implementation. Errors of the implementation are reported as messages.
use vstd::prelude::*;

verus! {

#[derive(Clone, Copy, Debug, PartialEq, Eq, Structural)]
pub struct SimpleColor {
    pub red: u8,
    pub green: u8,
    pub blue: u8,
}

impl SimpleColor {
    pub fn default() -> (r: SimpleColor)
        ensures
            r == (SimpleColor { red: 0, green: 0, blue: 0 }),
    {
        SimpleColor { red: 0, green: 0, blue: 0 }
    }
}

/// A screen of pixels.
pub trait SimpleGraphics: Sized {
    /// The width and height, in pixels.
    spec fn spec_resolution(&self) -> (u32, u32);

    /// The screen after pixel `(x, y)` is painted `color`.
    spec fn spec_paint(&self, x: u32, y: u32, color: SimpleColor) -> Self;

    /// The color of pixel `(x, y)`.
    spec fn spec_get(&self, x: u32, y: u32) -> SimpleColor;

    /// The screen after a successful change of resolution.
    spec fn spec_set_resolution(&self, width: u32, height: u32) -> Self;

    /// The screen after a successful render.
    spec fn spec_render(&self) -> Self;

    fn set_resolution(&mut self, width: u32, height: u32) -> (r: Result<(), String>)
        ensures
            r is Ok ==> *final(self) == old(self).spec_set_resolution(width, height),
            r is Ok ==> final(self).spec_resolution() == (width, height),
    ;

    fn resolution(&self) -> (r: (u32, u32))
        ensures
            r == self.spec_resolution(),
    ;

    /// Paint pixel `(x, y)`, which must lie within the resolution. Any
    /// error of the implementation is returned by the next `render`.
    fn paint(&mut self, x: u32, y: u32, color: SimpleColor)
        requires
            x < old(self).spec_resolution().0,
            y < old(self).spec_resolution().1,
        ensures
            *final(self) == old(self).spec_paint(x, y, color),
            final(self).spec_resolution() == old(self).spec_resolution(),
    ;

    /// The color of pixel `(x, y)`, which must lie within the resolution.
    fn get(&self, x: u32, y: u32) -> (r: SimpleColor)
        requires
            x < self.spec_resolution().0,
            y < self.spec_resolution().1,
        ensures
            r == self.spec_get(x, y),
    ;

    /// Display the pixels that have been `paint`ed. Any pixel position that
    /// has not been `paint`ed since the last call to `render` may show
    /// arbitrary results.
    fn render(&mut self) -> (r: Result<(), String>)
        ensures
            r is Ok ==> *final(self) == old(self).spec_render(),
    ;
}

/// Marker for implementations of `SimpleGraphics`.
pub struct SimpleGraphicsImpl;

/// Graphics that keep only a resolution, and show nothing.
#[derive(Clone, Copy, Debug, PartialEq, Eq, Structural)]
pub struct FakeGraphics(pub u32, pub u32);

impl SimpleGraphics for FakeGraphics {
    open spec fn spec_resolution(&self) -> (u32, u32) {
        (self.0, self.1)
    }

    open spec fn spec_paint(&self, x: u32, y: u32, color: SimpleColor) -> Self {
        *self
    }

    open spec fn spec_get(&self, x: u32, y: u32) -> SimpleColor {
        SimpleColor { red: 0, green: 0, blue: 0 }
    }

    open spec fn spec_set_resolution(&self, width: u32, height: u32) -> Self {
        FakeGraphics(width, height)
    }

    open spec fn spec_render(&self) -> Self {
        *self
    }

    fn set_resolution(&mut self, width: u32, height: u32) -> (r: Result<(), String>) {
        self.0 = width;
        self.1 = height;
        Ok(())
    }

    fn resolution(&self) -> (r: (u32, u32)) {
        (self.0, self.1)
    }

    fn paint(&mut self, _x: u32, _y: u32, _color: SimpleColor) {
    }

    fn get(&self, _x: u32, _y: u32) -> (r: SimpleColor) {
        SimpleColor { red: 0, green: 0, blue: 0 }
    }

    fn render(&mut self) -> (r: Result<(), String>) {
        Ok(())
    }
}

/// A sound device with a buffer of samples.
pub trait SimpleAudio: Sized {
    /// The number of samples in the buffer.
    spec fn spec_buffer_len(&self) -> usize;

    /// The device after sample `i` of the buffer is set to `value`.
    spec fn spec_buffer_set(&self, i: usize, value: i16) -> Self;

    /// The device after the buffer is successfully sent to be played.
    spec fn spec_queue_buffer(&self) -> Self;

    /// The device after it is successfully set to play `frequency` samples
    /// a second from a buffer of `buffer_size` samples.
    spec fn spec_configure(&self, frequency: u32, buffer_size: u16) -> Self;

    /// The device after it successfully starts playing.
    spec fn spec_play(&self) -> Self;

    /// The device after it is successfully paused.
    spec fn spec_pause(&self) -> Self;

    fn configure(&mut self, frequency: u32, buffer_size: u16) -> (r: Result<(), String>)
        ensures
            r is Ok ==> *final(self) == old(self).spec_configure(frequency, buffer_size),
    ;

    fn play(&mut self) -> (r: Result<(), String>)
        ensures
            final(self).spec_buffer_len() == old(self).spec_buffer_len(),
            r is Ok ==> *final(self) == old(self).spec_play(),
    ;

    fn pause(&mut self) -> (r: Result<(), String>)
        ensures
            final(self).spec_buffer_len() == old(self).spec_buffer_len(),
            r is Ok ==> *final(self) == old(self).spec_pause(),
    ;

    fn buffer_len(&self) -> (r: usize)
        ensures
            r == self.spec_buffer_len(),
    ;

    /// Set sample `i`, which must lie within the buffer.
    fn buffer_set(&mut self, i: usize, value: i16)
        requires
            i < old(self).spec_buffer_len(),
        ensures
            *final(self) == old(self).spec_buffer_set(i, value),
            final(self).spec_buffer_len() == old(self).spec_buffer_len(),
    ;

    /// Send the buffer to be played.
    fn queue_buffer(&mut self) -> (r: Result<(), String>)
        ensures
            final(self).spec_buffer_len() == old(self).spec_buffer_len(),
            r is Ok ==> *final(self) == old(self).spec_queue_buffer(),
    ;

    fn clear(&mut self) -> (r: Result<(), String>)
        ensures
            final(self).spec_buffer_len() == old(self).spec_buffer_len(),
    ;
}

/// A sound device that plays nothing, with a buffer of 1024 samples.
#[derive(Clone, Copy, Debug, PartialEq, Eq, Structural)]
pub struct FakeAudio;

impl SimpleAudio for FakeAudio {
    open spec fn spec_buffer_len(&self) -> usize {
        1024
    }

    open spec fn spec_buffer_set(&self, i: usize, value: i16) -> Self {
        *self
    }

    open spec fn spec_queue_buffer(&self) -> Self {
        *self
    }

    open spec fn spec_configure(&self, frequency: u32, buffer_size: u16) -> Self {
        *self
    }

    open spec fn spec_play(&self) -> Self {
        *self
    }

    open spec fn spec_pause(&self) -> Self {
        *self
    }

    fn configure(&mut self, _frequency: u32, _buffer_size: u16) -> (r: Result<(), String>) {
        Ok(())
    }

    fn play(&mut self) -> (r: Result<(), String>) {
        Ok(())
    }

    fn pause(&mut self) -> (r: Result<(), String>) {
        Ok(())
    }

    fn buffer_len(&self) -> (r: usize) {
        1024
    }

    fn buffer_set(&mut self, _i: usize, _value: i16) {
    }

    fn queue_buffer(&mut self) -> (r: Result<(), String>) {
        Ok(())
    }

    fn clear(&mut self) -> (r: Result<(), String>) {
        Ok(())
    }
}

} // verus!
