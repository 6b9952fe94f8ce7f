use vstd::prelude::*;

verus! {

/// A month number is valid when it lies between 1 and 12.
pub open spec fn es_mes(mes: int) -> bool {
    1 <= mes <= 12
}

/// The number of days that a month admits. February admits 29 in every
/// year; a number that is no month admits none.
pub open spec fn dias_del_mes(mes: int) -> int {
    if mes == 2 {
        29
    } else if mes == 4 || mes == 6 || mes == 9 || mes == 11 {
        30
    } else if es_mes(mes) {
        31
    } else {
        0
    }
}

/// A day is valid for a month when it lies between 1 and the number of days
/// of that month.
pub open spec fn es_dia_valido(dia: int, mes: int) -> bool {
    1 <= dia <= dias_del_mes(mes)
}

/// Whether `mes` is a month of the year.
pub fn mes_valido(mes: u32) -> (r: bool)
    ensures
        r == es_mes(mes as int),
{
    mes >= 1 && mes <= 12
}

/// Whether `dia` is a day of the month `mes`.
pub fn validar_dia(dia: u32, mes: u32) -> (r: bool)
    ensures
        r == es_dia_valido(dia as int, mes as int),
{
    match mes {
        1 | 3 | 5 | 7 | 8 | 10 | 12 => dia >= 1 && dia <= 31,
        4 | 6 | 9 | 11 => dia >= 1 && dia <= 30,
        2 => dia >= 1 && dia <= 29,
        _ => false,
    }
}

/// A valid day belongs to a valid month, and is at most 31.
pub proof fn lema_dia_valido_implica_mes(dia: int, mes: int)
    requires
        es_dia_valido(dia, mes),
    ensures
        es_mes(mes),
        1 <= dia <= 31,
{
}

} // verus!
