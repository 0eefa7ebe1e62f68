//! Transient thermo-fluid networks: volumes joined by orifices, exchanging
//! mass and energy under conservation laws and stepped forward in time.
pub mod fixed;
pub mod integration;
pub mod conservation;
pub mod kinematics;
pub mod properties;
pub mod volume;
pub mod flow;
pub mod network;
