//! Exact symbolic values and angles, points on the unit sphere built from
//! them, and the closed-form geometry of the regular icosahedron. Beside
//! these, the direction and orientation codes of a knot walk.

pub mod icos;
pub mod identities;
pub mod integer;
pub mod knot;
pub mod primitive;
pub mod spherical;
pub mod text;
pub mod val;
