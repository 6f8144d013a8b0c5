//! Decision logic of a batch optimiser for media files.
//!
//! The library classifies paths by extension, builds the command lines of
//! the external optimisers, decides step by step what each operation does
//! next from what the previous step observed, keeps the run's counters and
//! selects the residual files to sweep. It performs no input or output: a
//! driver carries out the actions it asks for and reports back what it
//! observed.
//!
//! The laws of the operations and of the loop are proved over a model of the
//! files and tools (`modelo`).

pub mod rutas;
pub mod numeros;
pub mod clasificador;
pub mod seleccion;
pub mod proceso;
pub mod ordenes;
pub mod modelo;
pub mod video;
pub mod heic;
pub mod tarea;
pub mod contadores;
pub mod bucle;
pub mod barrido;
pub mod tamano;
pub mod herramientas;
pub mod invocacion;
