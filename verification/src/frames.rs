//! Frame value types: what the pixel and gesture streams carry, as plain
//! values owned by the wrapper.
//!
//! The native side hands out reference-counted frame objects read through
//! per-field getters; the driver copies those fields out once and builds one
//! of these values, so everything downstream of the callback bridge works on
//! owned data with no native lifetime attached.

use vstd::prelude::*;
use crate::gesture::{Gesture, UserGestures, UserState};

verus! {

/// One pixel of a color frame.
#[derive(Debug, Clone, Copy, PartialEq, Eq, Structural)]
pub struct Color3 {
    pub blue: u8,
    pub green: u8,
    pub red: u8,
}

/// One depth frame: its geometry, identity, and row-major depth samples.
#[derive(Debug, Clone)]
pub struct DepthFrame {
    pub rows: i32,
    pub cols: i32,
    pub id: u64,
    pub timestamp: u64,
    pub data: Vec<u16>,
}

impl DepthFrame {
    pub fn new(rows: i32, cols: i32, id: u64, timestamp: u64, data: Vec<u16>) -> (r: DepthFrame)
        ensures
            r.rows == rows && r.cols == cols && r.id == id && r.timestamp == timestamp && r.data
                == data,
    {
        DepthFrame { rows, cols, id, timestamp, data }
    }

    pub fn rows(&self) -> (r: i32)
        ensures
            r == self.rows,
    {
        self.rows
    }

    pub fn cols(&self) -> (r: i32)
        ensures
            r == self.cols,
    {
        self.cols
    }

    pub fn frame_id(&self) -> (r: u64)
        ensures
            r == self.id,
    {
        self.id
    }

    pub fn timestamp(&self) -> (r: u64)
        ensures
            r == self.timestamp,
    {
        self.timestamp
    }

    /// The depth samples, row-major.
    pub fn data(&self) -> (r: &Vec<u16>)
        ensures
            r == &self.data,
    {
        &self.data
    }
}

/// One color frame: its geometry, identity, and row-major pixels.
#[derive(Debug, Clone)]
pub struct RGBFrame {
    pub rows: i32,
    pub cols: i32,
    pub id: u64,
    pub timestamp: u64,
    pub data: Vec<Color3>,
}

impl RGBFrame {
    pub fn new(rows: i32, cols: i32, id: u64, timestamp: u64, data: Vec<Color3>) -> (r: RGBFrame)
        ensures
            r.rows == rows && r.cols == cols && r.id == id && r.timestamp == timestamp && r.data
                == data,
    {
        RGBFrame { rows, cols, id, timestamp, data }
    }

    pub fn rows(&self) -> (r: i32)
        ensures
            r == self.rows,
    {
        self.rows
    }

    pub fn cols(&self) -> (r: i32)
        ensures
            r == self.cols,
    {
        self.cols
    }

    pub fn frame_id(&self) -> (r: u64)
        ensures
            r == self.id,
    {
        self.id
    }

    pub fn timestamp(&self) -> (r: u64)
        ensures
            r == self.timestamp,
    {
        self.timestamp
    }

    /// The pixels, row-major.
    pub fn data(&self) -> (r: &Vec<Color3>)
        ensures
            r == &self.data,
    {
        &self.data
    }
}

/// The gestures completed at one moment.
#[derive(Debug, Clone)]
pub struct GestureFrame {
    pub gestures: Vec<Gesture>,
    pub timestamp: u64,
}

impl GestureFrame {
    pub fn new(gestures: Vec<Gesture>, timestamp: u64) -> (r: GestureFrame)
        ensures
            r.gestures == gestures && r.timestamp == timestamp,
    {
        GestureFrame { gestures, timestamp }
    }

    /// The completed gestures of this frame.
    pub fn gestures(&self) -> (r: &Vec<Gesture>)
        ensures
            r == &self.gestures,
    {
        &self.gestures
    }

    /// How many gestures completed in this frame.
    pub fn num_gestures(&self) -> (r: usize)
        ensures
            r == self.gestures@.len(),
    {
        self.gestures.len()
    }

    pub fn timestamp(&self) -> (r: u64)
        ensures
            r == self.timestamp,
    {
        self.timestamp
    }
}

/// The user state changes reported at one moment.
#[derive(Debug, Clone)]
pub struct UserStateFrame {
    pub user_states: Vec<UserState>,
    pub timestamp: u64,
}

impl UserStateFrame {
    pub fn new(user_states: Vec<UserState>, timestamp: u64) -> (r: UserStateFrame)
        ensures
            r.user_states == user_states && r.timestamp == timestamp,
    {
        UserStateFrame { user_states, timestamp }
    }

    /// The state changes of this frame.
    pub fn user_states(&self) -> (r: &Vec<UserState>)
        ensures
            r == &self.user_states,
    {
        &self.user_states
    }

    pub fn timestamp(&self) -> (r: u64)
        ensures
            r == self.timestamp,
    {
        self.timestamp
    }
}

/// The gesture-progress state of every tracked user at one moment.
#[derive(Debug, Clone)]
pub struct UserGesturesFrame {
    pub users: Vec<UserGestures>,
    pub timestamp: u64,
}

impl UserGesturesFrame {
    pub fn new(users: Vec<UserGestures>, timestamp: u64) -> (r: UserGesturesFrame)
        ensures
            r.users == users && r.timestamp == timestamp,
    {
        UserGesturesFrame { users, timestamp }
    }

    /// Every tracked user's gesture state in this frame.
    pub fn users(&self) -> (r: &Vec<UserGestures>)
        ensures
            r == &self.users,
    {
        &self.users
    }

    pub fn timestamp(&self) -> (r: u64)
        ensures
            r == self.timestamp,
    {
        self.timestamp
    }
}

} // verus!
