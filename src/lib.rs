//! Single-qubit quantum states with exact amplitudes, the fixed catalogue of unitary transforms,
//! registers of independent qubits, measurement and simulation reports.

pub mod ket;
pub mod quantum_position;
pub mod quantum_gate;
pub mod qubit;
pub mod random;
pub mod qubit_register;
pub mod simulation;
pub mod report;
pub mod logger;
