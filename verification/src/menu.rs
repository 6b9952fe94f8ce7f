use vstd::prelude::*;
use crate::numero::{pedir_numero, numero_de};
use crate::texto::{recortado, recortar};
use crate::validacion::{es_dia_valido, es_mes, mes_valido, validar_dia};

verus! {

/// What a line typed at the menu asks for.
#[derive(Debug, Clone, Copy, PartialEq, Eq)]
pub enum Opcion {
    Agregar,
    Buscar,
    ListarPorMes,
    ListarOrdenados,
    Eliminar,
    Salir,
    Invalida,
}

/// What a line typed at a prompt for a number holds.
#[derive(Debug, Clone, Copy, PartialEq, Eq)]
pub enum Lectura {
    /// A number that the prompt accepts.
    Numero(u32),
    /// No number at all: the prompt is shown again.
    NoEsNumero,
    /// A number that the prompt refuses: it is asked for again.
    FueraDeRango,
}

/// The option that the text `s` names: one of the digits `1` to `6`, alone.
pub open spec fn opcion_de(s: Seq<char>) -> Opcion {
    if s == seq!['1'] {
        Opcion::Agregar
    } else if s == seq!['2'] {
        Opcion::Buscar
    } else if s == seq!['3'] {
        Opcion::ListarPorMes
    } else if s == seq!['4'] {
        Opcion::ListarOrdenados
    } else if s == seq!['5'] {
        Opcion::Eliminar
    } else if s == seq!['6'] {
        Opcion::Salir
    } else {
        Opcion::Invalida
    }
}

/// The answer to the prompt for the month of a birthday.
pub open spec fn lectura_de_mes(entrada: Seq<char>) -> Lectura {
    match numero_de(recortado(entrada)) {
        None => Lectura::NoEsNumero,
        Some(m) => if es_mes(m as int) {
            Lectura::Numero(m)
        } else {
            Lectura::FueraDeRango
        },
    }
}

/// The answer to the prompt for the day of a birthday in the month `mes`.
pub open spec fn lectura_de_dia(entrada: Seq<char>, mes: u32) -> Lectura {
    match numero_de(recortado(entrada)) {
        None => Lectura::NoEsNumero,
        Some(d) => if es_dia_valido(d as int, mes as int) {
            Lectura::Numero(d)
        } else {
            Lectura::FueraDeRango
        },
    }
}

/// Reads the option that a line typed at the menu names, white space at its
/// ends aside. Any text but one of the six digits is `Invalida`.
pub fn interpretar_opcion(linea: &str) -> (r: Opcion)
    ensures
        r == opcion_de(recortado(linea@)),
{
    let t: &str = recortar(linea);
    if t.unicode_len() != 1 {
        return Opcion::Invalida;
    }
    let c: char = t.get_char(0);
    proof {
        assert(t@ =~= seq![c]);
        assert(seq!['1'][0] == '1' && seq!['2'][0] == '2' && seq!['3'][0] == '3' && seq!['4'][0]
            == '4' && seq!['5'][0] == '5' && seq!['6'][0] == '6');
    }
    if c == '1' {
        Opcion::Agregar
    } else if c == '2' {
        Opcion::Buscar
    } else if c == '3' {
        Opcion::ListarPorMes
    } else if c == '4' {
        Opcion::ListarOrdenados
    } else if c == '5' {
        Opcion::Eliminar
    } else if c == '6' {
        Opcion::Salir
    } else {
        Opcion::Invalida
    }
}

/// Reads the line typed at the prompt for the month of a birthday.
pub fn pedir_mes(entrada: &str) -> (r: Lectura)
    ensures
        r == lectura_de_mes(entrada@),
{
    match pedir_numero(entrada) {
        None => Lectura::NoEsNumero,
        Some(m) => if mes_valido(m) {
            Lectura::Numero(m)
        } else {
            Lectura::FueraDeRango
        },
    }
}

/// Reads the line typed at the prompt for the day of a birthday in the
/// month `mes`.
pub fn pedir_dia(entrada: &str, mes: u32) -> (r: Lectura)
    ensures
        r == lectura_de_dia(entrada@, mes),
{
    match pedir_numero(entrada) {
        None => Lectura::NoEsNumero,
        Some(d) => if validar_dia(d, mes) {
            Lectura::Numero(d)
        } else {
            Lectura::FueraDeRango
        },
    }
}

} // verus!
