pub mod dvec;
pub mod scalar;
pub mod vec2;
pub mod vec3;
