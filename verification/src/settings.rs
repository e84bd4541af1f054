//! Game settings: the window resolution and the volume, and their two byte form
//! on disk (the resolution's number, then the volume).
use vstd::prelude::*;

verus! {

/// The window resolutions a game can be set to.
#[derive(Copy, Clone, Debug, PartialEq, Eq, Structural)]
pub enum Resolutions {
    X1920x1080,
    X1280x720,
    X854x360,
}

/// The number of each resolution, as stored on disk.
pub open spec fn resolution_number(r: Resolutions) -> u8 {
    match r {
        Resolutions::X1920x1080 => 0,
        Resolutions::X1280x720 => 1,
        Resolutions::X854x360 => 2,
    }
}

/// The resolution stored under a number; numbers from 0 to 2 name one.
pub open spec fn resolution_of_number(num: u8) -> Resolutions
    recommends
        num <= 2,
{
    if num == 0 {
        Resolutions::X1920x1080
    } else if num == 1 {
        Resolutions::X1280x720
    } else {
        Resolutions::X854x360
    }
}

/// The width and height of each resolution.
pub open spec fn resolution_size(r: Resolutions) -> (u16, u16) {
    match r {
        Resolutions::X1920x1080 => (1920, 1080),
        Resolutions::X1280x720 => (1280, 720),
        Resolutions::X854x360 => (854, 360),
    }
}

impl Resolutions {
    /// The width and height in pixels.
    pub fn len_width(&self) -> (size: (u16, u16))
        ensures
            size == resolution_size(*self),
    {
        match self {
            Self::X1920x1080 => (1920, 1080),
            Self::X1280x720 => (1280, 720),
            Self::X854x360 => (854, 360),
        }
    }

    /// The resolution used when nothing else is set.
    pub fn defualt() -> (r: Self)
        ensures
            r == Resolutions::X1280x720,
    {
        Self::X1280x720
    }

    /// The resolution stored under a number, which must be 0, 1 or 2.
    pub fn from(num: u8) -> (r: Self)
        requires
            num <= 2,
        ensures
            r == resolution_of_number(num),
    {
        match num {
            0 => Self::X1920x1080,
            1 => Self::X1280x720,
            _ => Self::X854x360,
        }
    }
}

impl From<Resolutions> for u8 {
    /// The number a resolution is stored under.
    fn from(r: Resolutions) -> (num: u8) {
        match r {
            Resolutions::X1920x1080 => 0,
            Resolutions::X1280x720 => 1,
            Resolutions::X854x360 => 2,
        }
    }
}

impl vstd::std_specs::convert::FromSpecImpl<Resolutions> for u8 {
    open spec fn obeys_from_spec() -> bool {
        true
    }

    open spec fn from_spec(r: Resolutions) -> u8 {
        resolution_number(r)
    }
}

/// Reading back the number of a resolution gives the resolution, and every number
/// from 0 to 2 is the number of the resolution it names.
pub proof fn lemma_resolution_number_roundtrip(r: Resolutions, num: u8)
    ensures
        resolution_of_number(resolution_number(r)) == r,
        resolution_number(r) <= 2,
        num <= 2 ==> resolution_number(resolution_of_number(num)) == num,
{
}

/// The settings of a game.
#[derive(Debug, PartialEq, Eq, Structural)]
pub struct Settings {
    pub resolution: Resolutions,
    volume: u8,
}

/// The two bytes that hold the settings on disk: the resolution's number, then the volume.
pub open spec fn settings_bytes(resolution: Resolutions, volume: u8) -> [u8; 2] {
    [resolution_number(resolution), volume]
}

impl Default for Settings {
    /// The default resolution at volume 10.
    fn default() -> (s: Self)
        ensures
            s.resolution() == Resolutions::X1280x720,
            s.volume() == 10,
    {
        Self { resolution: Resolutions::defualt(), volume: 10 }
    }
}

impl Settings {
    /// The volume.
    pub closed spec fn volume(self) -> u8 {
        self.volume
    }

    /// The resolution.
    pub closed spec fn resolution(self) -> Resolutions {
        self.resolution
    }

    /// Settings with the given resolution and volume.
    pub fn new(resolution: Resolutions, volume: u8) -> (s: Self)
        ensures
            s.resolution() == resolution,
            s.volume() == volume,
    {
        Self { resolution, volume }
    }

    /// The volume.
    pub fn get_volume(&self) -> (v: u8)
        ensures
            v == self.volume(),
    {
        self.volume
    }

    /// The width and height of the resolution.
    pub fn get_resoultion(&self) -> (size: (u16, u16))
        ensures
            size == resolution_size(self.resolution()),
    {
        self.resolution.len_width()
    }

    /// Sets the resolution and the volume. The caller stores [`Settings::to_bytes`]
    /// afterwards.
    pub fn update_settings(&mut self, resolution: Resolutions, volume: u8)
        ensures
            final(self).resolution() == resolution,
            final(self).volume() == volume,
    {
        self.resolution = resolution;
        self.volume = volume;
    }

    /// The two bytes the settings are stored as.
    pub fn to_bytes(&self) -> (bytes: [u8; 2])
        ensures
            bytes@ == settings_bytes(self.resolution(), self.volume())@,
    {
        let resolution: u8 = u8::from(self.resolution);
        [resolution, self.volume]
    }

    /// The settings stored as the two bytes; the first must be the number of a
    /// resolution.
    pub fn from_bytes(bytes: [u8; 2]) -> (s: Self)
        requires
            bytes@[0] <= 2,
        ensures
            s.resolution() == resolution_of_number(bytes@[0]),
            s.volume() == bytes@[1],
    {
        let resolution = Resolutions::from(bytes[0]);
        let volume = bytes[1];
        Self { resolution, volume }
    }
}

/// Settings read back from the bytes they were stored as are the same settings.
pub proof fn lemma_settings_roundtrip(resolution: Resolutions, volume: u8)
    ensures
        resolution_of_number(settings_bytes(resolution, volume)@[0]) == resolution,
        settings_bytes(resolution, volume)@[1] == volume,
        settings_bytes(resolution, volume)@[0] <= 2,
{
}

} // verus!
