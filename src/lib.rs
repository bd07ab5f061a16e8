//! Synthetic, referentially consistent data for a schema of professors, their
//! institutions, credentials and administrative records.

pub mod azar;
pub mod calendario;
pub mod carga;
pub mod claves;
pub mod contador;
pub mod datasets;
pub mod entidades;
pub mod etapas;
pub mod plan;
pub mod relaciones;
