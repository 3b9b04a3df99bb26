use vstd::prelude::*;
use std::collections::HashMap;

verus! {

broadcast use vstd::std_specs::hash::group_hash_axioms;

/// Key codes of the default bindings.
pub const KEY_A: u32 = 0x61;

pub const KEY_D: u32 = 0x64;

pub const KEY_SPACE: u32 = 0x20;

pub const KEY_RIGHT: u32 = 0x4000_004F;

pub const KEY_LEFT: u32 = 0x4000_0050;

pub const KEY_UP: u32 = 0x4000_0052;

pub const KEY_LSHIFT: u32 = 0x4000_00E1;

/// The intent a key stands for.
#[derive(Clone, Copy, Debug, PartialEq, Eq, Structural)]
pub enum KeyAction {
    MoveLeft,
    MoveRight,
    Jump,
    Run,
}

/// Which intents are held right now, and the table from key codes to
/// intents.
pub struct Controller {
    pub left: bool,
    pub right: bool,
    pub crouch: bool,
    pub jump: bool,
    pub shoot: bool,
    pub run: bool,
    pub inputs: HashMap<u32, KeyAction>,
}

/// A: left, D: right, the arrows: left, right and jump, space: jump, left
/// shift: run.
pub open spec fn default_bindings() -> Map<u32, KeyAction> {
    map![
        KEY_A => KeyAction::MoveLeft,
        KEY_LEFT => KeyAction::MoveLeft,
        KEY_D => KeyAction::MoveRight,
        KEY_RIGHT => KeyAction::MoveRight,
        KEY_UP => KeyAction::Jump,
        KEY_SPACE => KeyAction::Jump,
        KEY_LSHIFT => KeyAction::Run,
    ]
}

impl Controller {
    /// The key table.
    pub open spec fn bindings(&self) -> Map<u32, KeyAction> {
        self.inputs@
    }

    /// `key` is bound to `action`.
    pub open spec fn binds(&self, key: u32, action: KeyAction) -> bool {
        self.bindings().contains_key(key) && self.bindings()[key] == action
    }

    /// The held flag of `action` after `key` went to `pressed`, where it was
    /// `current` before.
    pub open spec fn flag_after(&self, key: u32, pressed: bool, action: KeyAction, current: bool) -> bool {
        if self.binds(key, action) {
            pressed
        } else {
            current
        }
    }

    /// No intent is held.
    pub open spec fn idle(&self) -> bool {
        !self.left && !self.right && !self.crouch && !self.jump && !self.shoot && !self.run
    }

    /// Nothing held, with the default key table.
    pub fn new() -> (r: Controller)
        ensures
            r.idle(),
            r.bindings() == default_bindings(),
    {
        let mut inputs: HashMap<u32, KeyAction> = HashMap::new();
        inputs.insert(KEY_A, KeyAction::MoveLeft);
        inputs.insert(KEY_LEFT, KeyAction::MoveLeft);
        inputs.insert(KEY_D, KeyAction::MoveRight);
        inputs.insert(KEY_RIGHT, KeyAction::MoveRight);
        inputs.insert(KEY_UP, KeyAction::Jump);
        inputs.insert(KEY_SPACE, KeyAction::Jump);
        inputs.insert(KEY_LSHIFT, KeyAction::Run);
        assert(inputs@ =~= default_bindings());
        Controller {
            left: false,
            right: false,
            crouch: false,
            jump: false,
            shoot: false,
            run: false,
            inputs,
        }
    }

    /// A key went down (`pressed`) or up: the intent bound to it is held
    /// exactly while the key is down. Unbound keys change nothing.
    pub fn keyboard_event(&mut self, key: u32, pressed: bool)
        ensures
            final(self).bindings() == old(self).bindings(),
            final(self).left == old(self).flag_after(key, pressed, KeyAction::MoveLeft, old(self).left),
            final(self).right == old(self).flag_after(key, pressed, KeyAction::MoveRight, old(self).right),
            final(self).jump == old(self).flag_after(key, pressed, KeyAction::Jump, old(self).jump),
            final(self).run == old(self).flag_after(key, pressed, KeyAction::Run, old(self).run),
            final(self).crouch == old(self).crouch,
            final(self).shoot == old(self).shoot,
    {
        match self.inputs.get(&key) {
            Some(KeyAction::MoveLeft) => self.left = pressed,
            Some(KeyAction::MoveRight) => self.right = pressed,
            Some(KeyAction::Jump) => self.jump = pressed,
            Some(KeyAction::Run) => self.run = pressed,
            None => {},
        }
    }

    /// Releases every intent; the key table stays.
    pub fn reset(&mut self)
        ensures
            final(self).bindings() == old(self).bindings(),
            final(self).idle(),
    {
        self.left = false;
        self.right = false;
        self.crouch = false;
        self.jump = false;
        self.shoot = false;
        self.run = false;
    }
}

} // verus!
