use vstd::prelude::*;
use crate::game::SoundEffect;
use crate::transform::Transform;

verus! {

/// What a brick holds.
#[derive(Clone, Copy, Debug, PartialEq, Eq, Structural)]
pub enum BrickType {
    Block,
    Coin,
    Mushroom,
    Ground,
}

/// Something that can be removed from the level.
pub trait Destroyable {
    spec fn destroyed(&self) -> bool;

    fn is_destroyed(&self) -> (r: bool)
        ensures
            r == self.destroyed(),
    ;

    fn destroy(&mut self) -> (effect: Option<SoundEffect>)
        ensures
            final(self).destroyed(),
    ;
}

/// A brick of the level: its kind, its box, and whether it was broken.
#[derive(Clone, Copy, Debug, PartialEq, Eq, Structural)]
pub struct Brick {
    pub brick_type: BrickType,
    pub transform: Transform,
    pub is_destroyed: bool,
}

/// The sound that breaking a brick of kind `t` makes.
pub open spec fn break_sound(t: BrickType) -> Option<SoundEffect> {
    match t {
        BrickType::Block => Some(SoundEffect::Brick),
        BrickType::Coin => Some(SoundEffect::Coin),
        _ => None,
    }
}

/// "brick" in ASCII.
pub open spec fn brick_name() -> Seq<u8> {
    seq![0x62u8, 0x72u8, 0x69u8, 0x63u8, 0x6Bu8]
}

/// "coin" in ASCII.
pub open spec fn coin_name() -> Seq<u8> {
    seq![0x63u8, 0x6Fu8, 0x69u8, 0x6Eu8]
}

/// The kind of brick a map object of this name stands for: "brick" is a
/// block, "coin" a coin, and any other name solid ground that is no brick.
pub open spec fn brick_type_of(name: Seq<u8>) -> Option<BrickType> {
    if name == brick_name() {
        Some(BrickType::Block)
    } else if name == coin_name() {
        Some(BrickType::Coin)
    } else {
        None
    }
}

fn bytes_equal(a: &[u8], b: &[u8]) -> (r: bool)
    ensures
        r == (a@ == b@),
{
    if a.len() != b.len() {
        return false;
    }
    let mut i: usize = 0;
    while i < a.len()
        invariant
            a@.len() == b@.len(),
            0 <= i <= a@.len(),
            a@.take(i as int) == b@.take(i as int),
        decreases a@.len() - i,
    {
        if a[i] != b[i] {
            assert(a@[i as int] != b@[i as int]);
            return false;
        }
        i += 1;
        assert(a@.take(i as int) =~= b@.take(i as int)) by {
            assert(a@.take((i - 1) as int) =~= b@.take((i - 1) as int));
            assert forall|k: int| 0 <= k < i implies a@.take(i as int)[k] == b@.take(i as int)[k] by {
                if k < i - 1 {
                    assert(a@.take((i - 1) as int)[k] == b@.take((i - 1) as int)[k]);
                }
            }
        }
    }
    assert(a@ =~= a@.take(i as int));
    assert(b@ =~= b@.take(i as int));
    true
}

/// The kind of brick a map object named `name` (already trimmed) stands for.
pub fn brick_type_named(name: &[u8]) -> (r: Option<BrickType>)
    ensures
        r == brick_type_of(name@),
{
    let brick: [u8; 5] = [0x62, 0x72, 0x69, 0x63, 0x6B];
    let coin: [u8; 4] = [0x63, 0x6F, 0x69, 0x6E];
    assert(brick@ =~= brick_name());
    assert(coin@ =~= coin_name());
    if bytes_equal(name, brick.as_slice()) {
        Some(BrickType::Block)
    } else if bytes_equal(name, coin.as_slice()) {
        Some(BrickType::Coin)
    } else {
        None
    }
}

impl Brick {
    /// An intact brick with a sixteen-pixel box at the origin.
    pub fn new(brick_type: BrickType) -> (r: Brick)
        ensures
            r.brick_type == brick_type,
            r.transform == Transform::initial(),
            !r.is_destroyed,
    {
        Brick { brick_type, transform: Transform::new(), is_destroyed: false }
    }

    /// Whether the brick is drawn: ground bricks are part of the map image.
    pub fn is_visible(&self) -> (r: bool)
        ensures
            r == (self.brick_type != BrickType::Ground),
    {
        self.brick_type != BrickType::Ground
    }

    pub fn get_transform(&self) -> (r: &Transform)
        ensures
            *r == self.transform,
    {
        &self.transform
    }

    pub fn get_transform_mut(&mut self) -> (r: &mut Transform)
        ensures
            *r == old(self).transform,
            *final(self) == (Brick { transform: *final(r), ..*old(self) }),
    {
        &mut self.transform
    }
}

impl Destroyable for Brick {
    open spec fn destroyed(&self) -> bool {
        self.is_destroyed
    }

    fn is_destroyed(&self) -> (r: bool) {
        self.is_destroyed
    }

    /// Breaks the brick and reports the sound it makes.
    fn destroy(&mut self) -> (effect: Option<SoundEffect>)
        ensures
            *final(self) == (Brick { is_destroyed: true, ..*old(self) }),
            effect == break_sound(old(self).brick_type),
    {
        self.is_destroyed = true;
        match self.brick_type {
            BrickType::Block => Some(SoundEffect::Brick),
            BrickType::Coin => Some(SoundEffect::Coin),
            _ => None,
        }
    }
}

} // verus!
