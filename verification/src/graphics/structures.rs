//! Host-side records: the sizes and offsets of the GPU-visible layouts, the
//! integer part of the per-frame globals, and the captured input state.

use std::collections::HashSet;
use vstd::prelude::*;

verus! {

broadcast use vstd::std_specs::hash::group_hash_axioms;

/// Bytes taken by the globals uniform record: two 4-byte mouse coordinates,
/// two 4-byte resolution words, two 4-byte times, the 4-byte frame counter
/// and 4 bytes of padding.
pub const GLOBALS_SIZE: u64 = 32;

/// Bytes taken by the view uniform record: four 4x4 matrices of 4-byte
/// scalars followed by the camera position padded to 16 bytes.
pub const VIEW_SIZE: u64 = 272;

/// Bytes from one vertex record to the next in the vertex buffer.
pub const VERTEX_SIZE: u64 = 64;

/// Byte offset of the position attribute inside a vertex record.
pub const VERTEX_POSITION_OFFSET: u64 = 0;

/// Byte offset of the normal attribute inside a vertex record.
pub const VERTEX_NORMAL_OFFSET: u64 = 16;

/// Byte offset of the texture coordinate attribute inside a vertex record.
pub const VERTEX_UV_OFFSET: u64 = 32;

/// The three GPU-resident resources that the renderer binds, in slot order.
#[derive(Clone, Copy, Debug, PartialEq, Eq)]
pub enum Resource {
    /// The per-frame globals uniform.
    Globals,
    /// The camera view uniform.
    View,
    /// The vertex storage.
    Vertices,
}

/// A width to height ratio kept exact as the two pixel counts it is made of.
#[derive(Clone, Copy, Debug, PartialEq, Eq)]
pub struct AspectRatio {
    pub width: u32,
    pub height: u32,
}

/// The integer-valued fields of the per-frame globals record. Times are in
/// nanoseconds; the shell turns them into seconds when it fills the uniform.
#[derive(Clone, Copy, Debug, PartialEq, Eq)]
pub struct Globals {
    pub resolution: [u32; 2],
    pub time_passed: u64,
    pub frame_time: u64,
    pub frame: u32,
}

/// A physical key, as far as the renderer tells keys apart.
#[derive(Clone, Copy, Debug, PartialEq, Eq)]
pub enum KeyCode {
    Escape,
    KeyW,
    KeyA,
    KeyS,
    KeyD,
    ShiftLeft,
    /// Any other key, told apart by a number of the shell's choosing.
    Other(u32),
}

impl KeyCode {
    /// The number under which a key is stored. Distinct keys have distinct
    /// numbers.
    spec fn index(self) -> u64 {
        match self {
            KeyCode::Escape => 0,
            KeyCode::KeyW => 1,
            KeyCode::KeyA => 2,
            KeyCode::KeyS => 3,
            KeyCode::KeyD => 4,
            KeyCode::ShiftLeft => 5,
            KeyCode::Other(n) => (6 + n) as u64,
        }
    }

    fn to_index(self) -> (out: u64)
        ensures
            out == self.index(),
    {
        match self {
            KeyCode::Escape => 0,
            KeyCode::KeyW => 1,
            KeyCode::KeyA => 2,
            KeyCode::KeyS => 3,
            KeyCode::KeyD => 4,
            KeyCode::ShiftLeft => 5,
            KeyCode::Other(n) => 6 + n as u64,
        }
    }
}

/// The set of keys that are currently held down.
#[derive(Debug, PartialEq, Eq)]
pub struct KeySet {
    indices: HashSet<u64>,
}

impl View for KeySet {
    type V = Set<KeyCode>;

    closed spec fn view(&self) -> Set<KeyCode> {
        Set::new(|key: KeyCode| self.indices@.contains(key.index()))
    }
}

impl KeySet {
    /// The empty set: no key is held.
    pub fn new() -> (out: Self)
        ensures
            out@ == Set::<KeyCode>::empty(),
    {
        let out = KeySet { indices: HashSet::new() };
        assert(out@ =~= Set::<KeyCode>::empty());
        out
    }

    /// Records that `key` went down.
    pub fn insert(&mut self, key: KeyCode)
        ensures
            final(self)@ == old(self)@.insert(key),
    {
        self.indices.insert(key.to_index());
        assert(self@ =~= old(self)@.insert(key));
    }

    /// Records that `key` came up.
    pub fn remove(&mut self, key: KeyCode)
        ensures
            final(self)@ == old(self)@.remove(key),
    {
        let index = key.to_index();
        self.indices.remove(&index);
        assert(self@ =~= old(self)@.remove(key));
    }

    /// Whether `key` is held.
    pub fn contains(&self, key: KeyCode) -> (out: bool)
        ensures
            out == self@.contains(key),
    {
        let index = key.to_index();
        self.indices.contains(&index)
    }
}

/// Timestamps and captured input. Instants are nanoseconds on a monotonic
/// clock whose origin the shell picks once.
#[derive(Debug, PartialEq, Eq)]
pub struct Metadata {
    pub start_instant: u64,
    pub prev_frame_start_instant: u64,
    pub keyboard_state: KeySet,
}

impl Metadata {
    /// Input state at start-up: both timestamps at `now`, no key held.
    pub fn new(now: u64) -> (out: Self)
        ensures
            out.start_instant == now,
            out.prev_frame_start_instant == now,
            out.keyboard_state@ == Set::<KeyCode>::empty(),
    {
        Metadata {
            start_instant: now,
            prev_frame_start_instant: now,
            keyboard_state: KeySet::new(),
        }
    }
}

} // verus!
