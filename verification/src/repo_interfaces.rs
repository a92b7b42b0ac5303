//! The types in which game state crosses a gateway, and the gateways' names.

use vstd::prelude::*;

pub use crate::physics::{GravityDataGateway, IntegrateDataGateway, StarData};
pub use crate::user_input::{
    MissileLaunchData, PlayerMovementDataGateway, PlayerPosAndVelocityData, ShootDataGateway,
};
pub use crate::world::{MovingObject, PlayerRecord, World, WorldView};

verus! {

/// A scalar in its exchange form: the 32 bits of a single-precision number.
pub type ScalarData = u32;

/// A vector in its exchange form: its x and y component.
pub type Vec2Data = [ScalarData; 2];

/// Player Id
pub type PlayerId = usize;

/// Exchange format for Player Id
pub type PlayerIdData = PlayerId;

/// Index of a missile in the list of its player.
pub type MissileId = usize;

/// Exchange format for a missile's index.
pub type MissileIdData = MissileId;

/// Supertrait for all in-game state
pub trait InGameState:
    PlayerMovementDataGateway + ShootDataGateway + GravityDataGateway + IntegrateDataGateway
{
}

/// The word that stands for the scalar zero.
pub const ZERO: ScalarData = 0;

/// The zero vector, as a value of specifications.
pub open spec fn zero_vector() -> Vec2Data {
    [ZERO, ZERO]
}

/// The zero vector.
pub fn zero() -> (v: Vec2Data)
    ensures
        v == zero_vector(),
{
    [ZERO, ZERO]
}

/// The vector of length `magnitude` along the x axis, as a value of
/// specifications.
pub open spec fn along_x_axis(magnitude: ScalarData) -> Vec2Data {
    [magnitude, ZERO]
}

/// The vector of length `magnitude` along the x axis.
pub fn along_x(magnitude: ScalarData) -> (v: Vec2Data)
    ensures
        v == along_x_axis(magnitude),
{
    [magnitude, ZERO]
}

/// The bit of a scalar's word that holds its sign.
pub const SIGN_BIT: ScalarData = 0x8000_0000;

/// The word of the scalar of the same magnitude and the other sign, as a value
/// of specifications.
pub open spec fn negated(scalar: ScalarData) -> ScalarData {
    scalar ^ SIGN_BIT
}

/// The word of the scalar of the same magnitude and the other sign.
pub fn negate(scalar: ScalarData) -> (r: ScalarData)
    ensures
        r == negated(scalar),
{
    scalar ^ SIGN_BIT
}

/// Changing the sign twice gives the scalar back.
pub proof fn lemma_negated_twice(scalar: ScalarData)
    ensures
        negated(negated(scalar)) == scalar,
{
    assert((scalar ^ 0x8000_0000u32) ^ 0x8000_0000u32 == scalar) by (bit_vector);
}

/// Trait to implement data marshalling when data crosses an architectural boundary
pub trait Marshalling<To> {
    /// `to` is what this value converts to. A conversion written outside of
    /// verification leaves this unsaid.
    open spec fn converts_to(&self, to: To) -> bool {
        true
    }

    /// This value in the form `To`.
    fn convert(&self) -> (to: To)
        ensures
            self.converts_to(to),
    ;
}

impl Marshalling<PlayerId> for PlayerIdData {
    open spec fn converts_to(&self, to: PlayerId) -> bool {
        to == *self
    }

    fn convert(&self) -> (to: PlayerId) {
        *self
    }
}

impl Marshalling<ScalarData> for ScalarData {
    open spec fn converts_to(&self, to: ScalarData) -> bool {
        to == *self
    }

    fn convert(&self) -> (to: ScalarData) {
        *self
    }
}

impl<I1, O1> Marshalling<(O1,)> for (I1,) where I1: Marshalling<O1> {
    open spec fn converts_to(&self, to: (O1,)) -> bool {
        self.0.converts_to(to.0)
    }

    fn convert(&self) -> (to: (O1,)) {
        (self.0.convert(),)
    }
}

impl<I1, I2, O1, O2> Marshalling<(O1, O2)> for (I1, I2) where
    I1: Marshalling<O1>,
    I2: Marshalling<O2>,
 {
    open spec fn converts_to(&self, to: (O1, O2)) -> bool {
        &&& self.0.converts_to(to.0)
        &&& self.1.converts_to(to.1)
    }

    fn convert(&self) -> (to: (O1, O2)) {
        (self.0.convert(), self.1.convert())
    }
}

impl<I1, I2, I3, O1, O2, O3> Marshalling<(O1, O2, O3)> for (I1, I2, I3) where
    I1: Marshalling<O1>,
    I2: Marshalling<O2>,
    I3: Marshalling<O3>,
 {
    open spec fn converts_to(&self, to: (O1, O2, O3)) -> bool {
        &&& self.0.converts_to(to.0)
        &&& self.1.converts_to(to.1)
        &&& self.2.converts_to(to.2)
    }

    fn convert(&self) -> (to: (O1, O2, O3)) {
        (self.0.convert(), self.1.convert(), self.2.convert())
    }
}

impl<I1, I2, I3, I4, O1, O2, O3, O4> Marshalling<(O1, O2, O3, O4)> for (I1, I2, I3, I4) where
    I1: Marshalling<O1>,
    I2: Marshalling<O2>,
    I3: Marshalling<O3>,
    I4: Marshalling<O4>,
 {
    open spec fn converts_to(&self, to: (O1, O2, O3, O4)) -> bool {
        &&& self.0.converts_to(to.0)
        &&& self.1.converts_to(to.1)
        &&& self.2.converts_to(to.2)
        &&& self.3.converts_to(to.3)
    }

    fn convert(&self) -> (to: (O1, O2, O3, O4)) {
        (self.0.convert(), self.1.convert(), self.2.convert(), self.3.convert())
    }
}

impl<I1, I2, I3, I4, I5, O1, O2, O3, O4, O5> Marshalling<(O1, O2, O3, O4, O5)> for (
    I1,
    I2,
    I3,
    I4,
    I5,
) where
    I1: Marshalling<O1>,
    I2: Marshalling<O2>,
    I3: Marshalling<O3>,
    I4: Marshalling<O4>,
    I5: Marshalling<O5>,
 {
    open spec fn converts_to(&self, to: (O1, O2, O3, O4, O5)) -> bool {
        &&& self.0.converts_to(to.0)
        &&& self.1.converts_to(to.1)
        &&& self.2.converts_to(to.2)
        &&& self.3.converts_to(to.3)
        &&& self.4.converts_to(to.4)
    }

    fn convert(&self) -> (to: (O1, O2, O3, O4, O5)) {
        (
            self.0.convert(),
            self.1.convert(),
            self.2.convert(),
            self.3.convert(),
            self.4.convert(),
        )
    }
}

/// Generic implementation for vectors: item by item, in order.
impl<I1, O1> Marshalling<Vec<O1>> for Vec<I1> where I1: Marshalling<O1> + Copy {
    open spec fn converts_to(&self, to: Vec<O1>) -> bool {
        &&& to@.len() == self@.len()
        &&& forall|i: int| 0 <= i < self@.len() ==> (#[trigger] self@[i]).converts_to(to@[i])
    }

    fn convert(&self) -> (to: Vec<O1>) {
        let mut to: Vec<O1> = Vec::new();
        for i in 0..self.len()
            invariant
                to@.len() == i,
                forall|k: int| 0 <= k < i ==> (#[trigger] self@[k]).converts_to(to@[k]),
        {
            let item = self[i];
            to.push(item.convert());
        }
        to
    }
}

} // verus!
