//! Procedural generation of a star map: typed entity storage, unique
//! name synthesis and the pipeline that assembles star systems.
pub mod entity;
pub mod point;
pub mod astronomical;
pub mod world;
pub mod view;
pub mod namegen;
pub mod sampler;
pub mod gen;
