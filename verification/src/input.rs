//! The keyboard: which keys are down, which went down or up since the last
//! frame, and what follows for the camera and the display mode.

use rustc_hash::FxBuildHasher;
use rustc_hash::FxHashSet;
use std::collections::HashSet;
use vstd::prelude::*;

verus! {

/// `rustc_hash::FxBuildHasher`, the builder of the hasher that the key
/// sets use, carried as an opaque value.
#[verifier::external_type_specification]
#[verifier::external_body]
pub struct ExFxBuildHasher(rustc_hash::FxBuildHasher);

/// The key codes that a set holds.
pub uninterp spec fn spec_codes(set: HashSet<u32, FxBuildHasher>) -> Set<u32>;

/// Calls `FxHashSet::default`, which makes a set that holds nothing.
#[verifier::external_body]
fn no_codes() -> (r: HashSet<u32, FxBuildHasher>)
    ensures
        spec_codes(r) == Set::<u32>::empty(),
{
    FxHashSet::default()
}

/// Calls `HashSet::insert`: afterwards the set holds `code` besides what
/// it held, and the result says whether `code` is new to it.
#[verifier::external_body]
fn insert(set: &mut HashSet<u32, FxBuildHasher>, code: u32) -> (r: bool)
    ensures
        spec_codes(*final(set)) == spec_codes(*old(set)).insert(code),
        r == !spec_codes(*old(set)).contains(code),
{
    set.insert(code)
}

/// Calls `HashSet::remove`: afterwards the set holds what it held but
/// `code`, and the result says whether it held `code`.
#[verifier::external_body]
fn remove(set: &mut HashSet<u32, FxBuildHasher>, code: u32) -> (r: bool)
    ensures
        spec_codes(*final(set)) == spec_codes(*old(set)).remove(code),
        r == spec_codes(*old(set)).contains(code),
{
    set.remove(&code)
}

/// Calls `HashSet::contains`: whether the set holds `code`.
#[verifier::external_body]
fn contains(set: &HashSet<u32, FxBuildHasher>, code: u32) -> (r: bool)
    ensures
        r == spec_codes(*set).contains(code),
{
    set.contains(&code)
}

/// Calls `HashSet::clear`: afterwards the set holds nothing.
#[verifier::external_body]
fn clear(set: &mut HashSet<u32, FxBuildHasher>)
    ensures
        spec_codes(*final(set)) == Set::<u32>::empty(),
{
    set.clear()
}

/// The codes of the keys that mean something.
#[derive(Clone, Copy, Debug, PartialEq, Eq, Structural)]
pub struct Bindings {
    pub left: u32,
    pub right: u32,
    pub back: u32,
    pub forward: u32,
    pub down: u32,
    pub up: u32,
    /// Held to move slowly.
    pub slow: u32,
    /// Shows the scene as it is.
    pub normal: u32,
    /// Shows the brightness.
    pub brightness: u32,
    /// Shows the depth.
    pub depth: u32,
    /// Shows the normals.
    pub normals: u32,
    /// Shows the number of steps.
    pub steps: u32,
}

/// The bits of the mode flags that say what is shown.
pub const VISION_BITS: u32 = 15;

/// What the keyboard asks for in one frame.
#[derive(Clone, Copy, Debug, PartialEq, Eq)]
pub struct Frame {
    /// Where to move along each axis: one step back, none, or one forth.
    pub direction: (i8, i8, i8),
    /// Whether to move slowly.
    pub slow: bool,
    pub mode_flags: u32,
}

/// One step along an axis by the two keys that stand for its directions.
pub open spec fn spec_axis(down: Set<u32>, back: u32, forth: u32) -> i8 {
    ((if down.contains(forth) {
        1int
    } else {
        0int
    }) - (if down.contains(back) {
        1int
    } else {
        0int
    })) as i8
}

/// The mode flags after the key `code` has had its say: where it went down
/// the vision bits are replaced by `vision`.
pub open spec fn spec_vision(mode_flags: u32, went_down: Set<u32>, code: u32, vision: u32) -> u32 {
    if went_down.contains(code) {
        (mode_flags & !VISION_BITS) | vision
    } else {
        mode_flags
    }
}

/// What the keyboard asks for, given the keys that are down and those that
/// went down since the last frame. Of several vision keys that went down
/// the last in the order normal, brightness, depth, normals, steps wins.
pub open spec fn spec_frame(
    keys: Bindings,
    down: Set<u32>,
    went_down: Set<u32>,
    mode_flags: u32,
) -> Frame {
    Frame {
        direction: (
            spec_axis(down, keys.left, keys.right),
            spec_axis(down, keys.down, keys.up),
            spec_axis(down, keys.back, keys.forward),
        ),
        slow: down.contains(keys.slow),
        mode_flags: spec_vision(
            spec_vision(
                spec_vision(
                    spec_vision(
                        spec_vision(mode_flags, went_down, keys.normal, 0),
                        went_down,
                        keys.brightness,
                        1,
                    ),
                    went_down,
                    keys.depth,
                    2,
                ),
                went_down,
                keys.normals,
                4,
            ),
            went_down,
            keys.steps,
            8,
        ),
    }
}

/// The keys by what happened to them.
pub struct KeyState {
    just_pressed: HashSet<u32, FxBuildHasher>,
    just_released: HashSet<u32, FxBuildHasher>,
    pressed: HashSet<u32, FxBuildHasher>,
}

/// The keys as contracts see them.
pub struct KeyStateView {
    /// The keys that went down since the last frame.
    pub just_pressed: Set<u32>,
    /// The keys that went up since the last frame.
    pub just_released: Set<u32>,
    /// The keys that are down.
    pub pressed: Set<u32>,
}

impl View for KeyState {
    type V = KeyStateView;

    closed spec fn view(&self) -> KeyStateView {
        KeyStateView {
            just_pressed: spec_codes(self.just_pressed),
            just_released: spec_codes(self.just_released),
            pressed: spec_codes(self.pressed),
        }
    }
}

impl KeyState {
    /// No key is down and none has gone down or up.
    pub fn new() -> (r: Self)
        ensures
            r@.just_pressed == Set::<u32>::empty(),
            r@.just_released == Set::<u32>::empty(),
            r@.pressed == Set::<u32>::empty(),
    {
        KeyState { just_pressed: no_codes(), just_released: no_codes(), pressed: no_codes() }
    }

    /// Takes note that the key `code` went down (`pressed`) or up.
    pub fn ev(&mut self, code: u32, pressed: bool)
        ensures
            final(self)@ == if pressed {
                KeyStateView {
                    just_pressed: old(self)@.just_pressed.insert(code),
                    pressed: old(self)@.pressed.insert(code),
                    ..old(self)@
                }
            } else {
                KeyStateView {
                    just_released: old(self)@.just_released.insert(code),
                    pressed: old(self)@.pressed.remove(code),
                    ..old(self)@
                }
            },
    {
        if pressed {
            insert(&mut self.just_pressed, code);
            insert(&mut self.pressed, code);
        } else {
            insert(&mut self.just_released, code);
            remove(&mut self.pressed, code);
        }
    }

    /// Whether the key `code` is down.
    pub fn is_pressed(&self, code: u32) -> (r: bool)
        ensures
            r == self@.pressed.contains(code),
    {
        contains(&self.pressed, code)
    }

    /// One step along an axis by the two keys that stand for its
    /// directions.
    fn axis(&self, back: u32, forth: u32) -> (r: i8)
        ensures
            r == spec_axis(self@.pressed, back, forth),
    {
        let mut step: i8 = 0;
        if contains(&self.pressed, back) {
            step = step - 1;
        }
        if contains(&self.pressed, forth) {
            step = step + 1;
        }
        step
    }

    /// The mode flags after the key `code` has had its say.
    fn vision(&self, mode_flags: u32, code: u32, vision: u32) -> (r: u32)
        ensures
            r == spec_vision(mode_flags, self@.just_pressed, code, vision),
    {
        if contains(&self.just_pressed, code) {
            (mode_flags & !VISION_BITS) | vision
        } else {
            mode_flags
        }
    }

    /// Says what the keyboard asks for in this frame, and forgets which
    /// keys went down or up: the next frame sees only what happens from
    /// now on.
    pub fn update(&mut self, keys: &Bindings, mode_flags: u32) -> (r: Frame)
        ensures
            r == spec_frame(*keys, old(self)@.pressed, old(self)@.just_pressed, mode_flags),
            final(self)@ == (KeyStateView {
                just_pressed: Set::empty(),
                just_released: Set::empty(),
                pressed: old(self)@.pressed,
            }),
    {
        let direction = (
            self.axis(keys.left, keys.right),
            self.axis(keys.down, keys.up),
            self.axis(keys.back, keys.forward),
        );
        let slow = contains(&self.pressed, keys.slow);
        let mode_flags = self.vision(mode_flags, keys.normal, 0);
        let mode_flags = self.vision(mode_flags, keys.brightness, 1);
        let mode_flags = self.vision(mode_flags, keys.depth, 2);
        let mode_flags = self.vision(mode_flags, keys.normals, 4);
        let mode_flags = self.vision(mode_flags, keys.steps, 8);
        clear(&mut self.just_pressed);
        clear(&mut self.just_released);
        Frame { direction, slow, mode_flags }
    }
}

} // verus!
