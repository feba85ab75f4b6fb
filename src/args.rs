//! The command line options, once parsed, and the defaults they fall back on.
use vstd::prelude::*;

use crate::flush::FlushMode;

verus! {

/// The command line options.
pub struct Arguments {
    /// Whether help was asked for.
    pub help: Option<bool>,
    /// The host to paint on, as `host:port`.
    pub host: String,
    /// The paths of the images to show.
    pub image: Vec<String>,
    /// The draw width, if given.
    pub width: Option<u16>,
    /// The draw height, if given.
    pub height: Option<u16>,
    /// The horizontal offset of the draw area.
    pub x: i16,
    /// The vertical offset of the draw area.
    pub y: i16,
    /// The number of painters, if given.
    pub count: Option<usize>,
    /// The frame rate for frames without a display time of their own.
    pub fps: u32,
    /// Whether to send pixels in binary mode.
    pub binary: bool,
    /// Whether to flush the connection after each pixel.
    pub flush: bool,
}

/// Relies on `num_cpus::get`: the number of logical CPUs, which its
/// documentation promises is at least 1.
#[verifier::external_body]
fn cpu_count() -> (n: usize)
    ensures
        n >= 1,
{
    num_cpus::get()
}

/// Answers the questions of the rest of the program on the options.
pub struct ArgHandler {
    data: Arguments,
}

impl ArgHandler {
    /// The options held.
    pub closed spec fn data_spec(&self) -> &Arguments {
        &self.data
    }

    /// Holds `data`.
    pub fn new(data: Arguments) -> (h: ArgHandler)
        ensures
            h.data_spec() == &data,
    {
        ArgHandler { data }
    }

    /// The host.
    pub fn host(&self) -> (h: &str)
        ensures
            h@ == self.data_spec().host@,
    {
        self.data.host.as_str()
    }

    /// The number of painters: as given, else the number of CPUs.
    pub fn count(&self) -> (n: usize)
        ensures
            self.data_spec().count matches Some(c) ==> n == c,
            self.data_spec().count is None ==> n >= 1,
    {
        match self.data.count {
            Some(c) => c,
            None => cpu_count(),
        }
    }

    /// The image paths, in the order given.
    pub fn image_paths(&self) -> (paths: Vec<&str>)
        ensures
            paths@.len() == self.data_spec().image@.len(),
            forall|i: int| 0 <= i < paths@.len() ==> (#[trigger] paths@[i])@ == self.data_spec().image@[i]@,
    {
        let mut paths: Vec<&str> = Vec::new();
        let mut i: usize = 0;
        while i < self.data.image.len()
            invariant
                i <= self.data.image@.len(),
                paths@.len() == i,
                forall|k: int| 0 <= k < i ==> (#[trigger] paths@[k])@ == self.data.image@[k]@,
            decreases self.data.image@.len() - i,
        {
            paths.push(self.data.image[i].as_str());
            i += 1;
        }
        paths
    }

    /// The draw width and height, each if given.
    pub fn size(&self) -> (s: (Option<u16>, Option<u16>))
        ensures
            s == (self.data_spec().width, self.data_spec().height),
    {
        (self.data.width, self.data.height)
    }

    /// Whether the screen size must be asked of the server: a dimension is
    /// not given.
    pub fn needs_screen_size(&self) -> (r: bool)
        ensures
            r == (self.data_spec().width is None || self.data_spec().height is None),
    {
        self.data.width.is_none() || self.data.height.is_none()
    }

    /// The draw size: each dimension as given, else the screen's.
    pub fn draw_size(&self, screen: (u16, u16)) -> (s: (u16, u16))
        ensures
            s.0 == match self.data_spec().width {
                Some(w) => w,
                None => screen.0,
            },
            s.1 == match self.data_spec().height {
                Some(h) => h,
                None => screen.1,
            },
    {
        let w = match self.data.width {
            Some(w) => w,
            None => screen.0,
        };
        let h = match self.data.height {
            Some(h) => h,
            None => screen.1,
        };
        (w, h)
    }

    /// The offset of the draw area.
    pub fn offset(&self) -> (o: (i16, i16))
        ensures
            o == (self.data_spec().x, self.data_spec().y),
    {
        (self.data.x, self.data.y)
    }

    /// The frame rate.
    pub fn fps(&self) -> (r: u32)
        ensures
            r == self.data_spec().fps,
    {
        self.data.fps
    }

    /// Whether to use binary mode.
    pub fn binary(&self) -> (r: bool)
        ensures
            r == self.data_spec().binary,
    {
        self.data.binary
    }

    /// Whether to flush after each pixel.
    pub fn flush(&self) -> (r: bool)
        ensures
            r == self.data_spec().flush,
    {
        self.data.flush
    }

    /// The flush policy: a flush after every command when flushing after
    /// each pixel, else only the flush that ends each pass.
    pub fn flush_mode(&self) -> (m: FlushMode)
        ensures
            self.data_spec().flush ==> m == FlushMode::Commands(1),
            !self.data_spec().flush ==> m == FlushMode::Manual,
    {
        if self.data.flush {
            FlushMode::Commands(1)
        } else {
            FlushMode::Manual
        }
    }
}

} // verus!
