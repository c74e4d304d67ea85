//! Gesture-recognition value types: what the gesture streams carry.

use vstd::prelude::*;

verus! {

/// A recognizable gesture.
#[derive(Debug, Clone, Copy, PartialEq, Eq, Hash, Structural)]
pub enum GestureType {
    Waving,
    SwipeLeft,
    SwipeRight,
    SwipeUp,
    SwipeDown,
    Push,
}

/// A user's presence state in the scene.
#[derive(Debug, Clone, Copy, PartialEq, Eq, Hash, Structural)]
pub enum UserStateType {
    IsAbsent,
    InScene,
    Active,
}

/// One completed gesture of one user.
#[derive(Debug, Clone, Copy, PartialEq, Eq, Hash, Structural)]
pub struct Gesture {
    pub user_id: i32,
    pub gesture_type: GestureType,
}

/// One user's state change.
#[derive(Debug, Clone, Copy, PartialEq, Eq, Hash, Structural)]
pub struct UserState {
    pub user_id: i32,
    pub state: UserStateType,
}

/// The progress of one gesture being performed, in percent.
#[derive(Debug, Clone, Copy, PartialEq, Eq, Structural)]
pub struct GestureState {
    pub gesture_type: GestureType,
    pub progress: i32,
}

/// One user's full gesture-progress state: who, their presence state, and
/// each gesture in progress.
#[derive(Debug, Clone)]
pub struct UserGestures {
    pub user_id: i32,
    pub user_state: UserStateType,
    pub gestures: Vec<GestureState>,
}

impl UserGestures {
    /// Builds a `UserGestures` from the fields the driver read through the
    /// per-field native getters of one user's gesture state.
    pub fn from_ffi(user_id: i32, user_state: UserStateType, gestures: Vec<GestureState>) -> (r:
        UserGestures)
        ensures
            r.user_id == user_id,
            r.user_state == user_state,
            r.gestures == gestures,
    {
        UserGestures { user_id, user_state, gestures }
    }
}

} // verus!
