//! Circuit gadgets that assemble asset-identity preimages, expose Pedersen
//! value commitments, and randomize public keys inside a zero-knowledge
//! proving circuit. The constraint-system and curve-arithmetic primitives are
//! supplied by an external proving framework; this crate specifies and checks
//! how they are composed. The three fixed generator points are publicly
//! known stand-ins (small multiples of the curve's standard generator): the
//! verified composition never depends on their values, but a deployment
//! that needs binding commitments must supply independently derived points.

pub mod bits;
pub mod gadgets;
