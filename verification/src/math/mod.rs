//! The mathematics behind the curve: number theory, finite groups and the
//! elliptic-curve group law itself.
pub mod addition;
pub mod associativity;
pub mod certificates;
pub mod curve;
pub mod degrees;
pub mod finite_group;
pub mod fp;
pub mod function;
pub mod generator;
pub mod identities;
pub mod jacobian;
pub mod links;
pub mod modular;
pub mod multiples;
pub mod order;
pub mod polynomial;
pub mod primality;
pub mod primes;
pub mod samples;
pub mod torsion;
