//! What the command line asks for.
//!
//! The first argument after the program's name may be the flag `--limpiar`,
//! which asks for a sweep of the residual files and nothing else. The
//! argument that follows the flag, or the first one when there is no flag,
//! is the folder to work on; without it the folder is the current one.

use crate::rutas::{caracteres, mismo_texto};
use vstd::prelude::*;
use vstd::string::*;

verus! {

/// What a run is to do.
#[derive(Clone, Copy, Debug, PartialEq, Eq, Structural)]
pub enum Modo {
    /// Optimise the files of the folder, then sweep it.
    Optimizar,
    /// Sweep the folder only.
    SoloLimpiar,
}

/// What the command line asks for.
#[derive(Debug, PartialEq, Eq)]
pub struct Invocacion {
    pub modo: Modo,
    pub carpeta: String,
}

/// Whether the command line carries the sweep-only flag.
pub open spec fn pide_limpiar(argumentos: Seq<Seq<char>>) -> bool {
    argumentos.len() > 1 && argumentos[1] == "--limpiar"@
}

/// The mode that the command line asks for.
pub open spec fn modo_de(argumentos: Seq<Seq<char>>) -> Modo {
    if pide_limpiar(argumentos) {
        Modo::SoloLimpiar
    } else {
        Modo::Optimizar
    }
}

/// The folder that the command line names, or the current one.
pub open spec fn carpeta_de(argumentos: Seq<Seq<char>>) -> Seq<char> {
    let lugar: int = if pide_limpiar(argumentos) {
        2
    } else {
        1
    };
    if argumentos.len() > lugar {
        argumentos[lugar]
    } else {
        "."@
    }
}

/// Reads the command line; `argumentos` starts with the program's name.
pub fn interpretar_argumentos(argumentos: &Vec<String>) -> (i: Invocacion)
    ensures
        i.modo == modo_de(argumentos.deep_view()),
        i.carpeta@ == carpeta_de(argumentos.deep_view()),
{
    let limpiar = if argumentos.len() > 1 {
        let dado = caracteres(argumentos[1].as_str());
        let bandera = caracteres("--limpiar");
        mismo_texto(&dado, &bandera)
    } else {
        false
    };
    let lugar: usize = if limpiar {
        2
    } else {
        1
    };
    let carpeta = if argumentos.len() > lugar {
        argumentos[lugar].clone()
    } else {
        String::from_str(".")
    };
    Invocacion {
        modo: if limpiar {
            Modo::SoloLimpiar
        } else {
            Modo::Optimizar
        },
        carpeta,
    }
}

} // verus!
