use vstd::prelude::*;
use crate::contacto::{Contacto, ContactoVista};
use crate::numero::{
    dos_cifras, formatear_cumple, lema_dos_cifras, numero_de, pedir_numero, texto_cumple,
    texto_dos_cifras,
};
use crate::texto::{
    buscar_barra, es_igual_sin_caso, igual_sin_caso, iguales, pos_barra, recortado, recortar,
    segundo_campo,
};
use crate::validacion::{es_dia_valido, es_mes, mes_valido, validar_dia};

verus! {

/// The list that a session starts with: what the store held, or nothing
/// where the store was missing or could not be read.
pub fn cargar_contactos(leido: Option<Vec<Contacto>>) -> (r: Vec<Contacto>)
    ensures
        r@ == match leido {
            Some(v) => v@,
            None => Seq::<Contacto>::empty(),
        },
{
    match leido {
        Some(v) => v,
        None => Vec::new(),
    }
}

/// Adds a contact at the end of the list, with the texts as they were typed
/// but for the white space at their ends, and the birthday written `DD/MM`.
/// Nothing is added, and `false` returned, where the day is no day of the
/// month.
pub fn agregar_contacto(
    contactos: &mut Vec<Contacto>,
    nombre: &str,
    mes: u32,
    dia: u32,
    telefono: &str,
    correo: &str,
) -> (r: bool)
    ensures
        r == es_dia_valido(dia as int, mes as int),
        !r ==> final(contactos)@ == old(contactos)@,
        r ==> final(contactos)@.len() == old(contactos)@.len() + 1,
        r ==> final(contactos)@.drop_last() == old(contactos)@,
        r ==> final(contactos)@.last()@ == (ContactoVista {
            nombre: recortado(nombre@),
            cumple: texto_cumple(dia as nat, mes as nat),
            telefono: recortado(telefono@),
            correo: recortado(correo@),
        }),
{
    if !validar_dia(dia, mes) {
        return false;
    }
    let nuevo = Contacto {
        nombre: String::from_str(recortar(nombre)),
        cumple: formatear_cumple(dia, mes),
        telefono: String::from_str(recortar(telefono)),
        correo: String::from_str(recortar(correo)),
    };
    contactos.push(nuevo);
    proof {
        assert(final(contactos)@.drop_last() =~= old(contactos)@);
    }
    true
}

/// Whether the contact `c` answers to `nombre`, the case of ASCII letters
/// aside.
pub open spec fn responde_a(c: Contacto, nombre: Seq<char>) -> bool {
    igual_sin_caso(c.nombre@, nombre)
}

/// The place of the first contact that answers to `nombre`, if any does.
pub open spec fn primera_coincidencia(cs: Seq<Contacto>, nombre: Seq<char>) -> Option<int>
    decreases cs.len(),
{
    if cs.len() == 0 {
        None
    } else {
        match primera_coincidencia(cs.drop_last(), nombre) {
            Some(i) => Some(i),
            None => if responde_a(cs.last(), nombre) {
                Some(cs.len() - 1)
            } else {
                None
            },
        }
    }
}

/// What `primera_coincidencia` finds is the first place that answers, and
/// it finds nothing only where no place answers.
pub proof fn lema_primera_coincidencia(cs: Seq<Contacto>, nombre: Seq<char>)
    ensures
        match primera_coincidencia(cs, nombre) {
            Some(i) => {
                &&& 0 <= i < cs.len()
                &&& responde_a(cs[i], nombre)
                &&& forall|j: int| 0 <= j < i ==> !responde_a(#[trigger] cs[j], nombre)
            },
            None => forall|j: int| 0 <= j < cs.len() ==> !responde_a(#[trigger] cs[j], nombre),
        },
    decreases cs.len(),
{
    if cs.len() > 0 {
        lema_primera_coincidencia(cs.drop_last(), nombre);
        assert(forall|j: int| 0 <= j < cs.len() - 1 ==> cs.drop_last()[j] == cs[j]);
    }
}

/// A search finds a contact once one that answers to the name has been
/// added, however the ASCII letters of the name are written.
pub proof fn lema_buscar_tras_agregar(cs: Seq<Contacto>, nuevo: Contacto, nombre: Seq<char>)
    requires
        igual_sin_caso(nuevo.nombre@, nombre),
    ensures
        primera_coincidencia(cs.push(nuevo), nombre).is_some(),
{
    let ds = cs.push(nuevo);
    lema_primera_coincidencia(ds, nombre);
    assert(responde_a(ds[cs.len() as int], nombre));
}

/// Finds the first contact whose name is `nombre`, the case of ASCII letters
/// aside, and returns its place in the list.
pub fn buscar_contacto(contactos: &[Contacto], nombre: &str) -> (r: Option<usize>)
    ensures
        match r {
            Some(i) => primera_coincidencia(contactos@, nombre@) == Some(i as int),
            None => primera_coincidencia(contactos@, nombre@).is_none(),
        },
        match r {
            Some(i) => {
                &&& i < contactos@.len()
                &&& responde_a(contactos@[i as int], nombre@)
                &&& forall|j: int| 0 <= j < i ==> !responde_a(#[trigger] contactos@[j], nombre@)
            },
            None => forall|j: int|
                0 <= j < contactos@.len() ==> !responde_a(#[trigger] contactos@[j], nombre@),
        },
{
    let n: usize = contactos.len();
    let mut i: usize = 0;
    while i < n
        invariant
            i <= n,
            n == contactos@.len(),
            forall|j: int| 0 <= j < i ==> !responde_a(#[trigger] contactos@[j], nombre@),
        decreases n - i,
    {
        if es_igual_sin_caso(contactos[i].nombre.as_str(), nombre) {
            proof {
                lema_primera_coincidencia(contactos@, nombre@);
            }
            return Some(i);
        }
        i = i + 1;
    }
    proof {
        lema_primera_coincidencia(contactos@, nombre@);
    }
    None
}

/// The month that a line of input asks for: a number from 1 to 12, white
/// space at the ends aside.
pub open spec fn mes_pedido(entrada: Seq<char>) -> Option<u32> {
    match numero_de(recortado(entrada)) {
        Some(m) => if es_mes(m as int) {
            Some(m)
        } else {
            None
        },
        None => None,
    }
}

/// Whether a birthday text falls in the month `m`: its second field is the
/// month written with two digits.
pub open spec fn cumple_en_mes(cumple: Seq<char>, m: u32) -> bool {
    segundo_campo(cumple) == Some(texto_dos_cifras(m as nat))
}

/// The birthday text that is written for a valid day falls in its month,
/// and in no other.
pub proof fn lema_cumple_en_su_mes(dia: u32, mes: u32, m: u32)
    requires
        es_dia_valido(dia as int, mes as int),
        es_mes(m as int),
    ensures
        cumple_en_mes(texto_cumple(dia as nat, mes as nat), m) <==> m == mes,
{
    let td = texto_dos_cifras(dia as nat);
    let tm = texto_dos_cifras(mes as nat);
    lema_dos_cifras(dia as nat);
    lema_dos_cifras(mes as nat);
    let s = texto_cumple(dia as nat, mes as nat);
    assert(s =~= seq![td[0], td[1], '/', tm[0], tm[1]]);
    let s1 = s.drop_first();
    let s2 = s1.drop_first();
    assert(pos_barra(s2) == 0);
    assert(pos_barra(s1) == 1);
    assert(pos_barra(s) == 2);
    let resto = s.skip(3);
    assert(resto =~= tm);
    let tm1 = tm.drop_first();
    let tm2 = tm1.drop_first();
    assert(tm2.len() == 0);
    assert(pos_barra(tm2) == 0);
    assert(pos_barra(tm1) == 1);
    assert(pos_barra(tm) == 2);
    assert(resto.take(2) =~= tm);
    assert(segundo_campo(s) == Some(tm));
    lema_dos_cifras(m as nat);
    let otro = texto_dos_cifras(m as nat);
    if otro == tm {
        assert(otro[0] == tm[0] && otro[1] == tm[1]);
    }
}

/// Reads the month that a line of input asks for.
pub fn leer_mes(entrada: &str) -> (r: Option<u32>)
    ensures
        r == mes_pedido(entrada@),
{
    match pedir_numero(entrada) {
        Some(m) => if mes_valido(m) {
            Some(m)
        } else {
            None
        },
        None => None,
    }
}

/// Whether the month field of a birthday text is `mes`.
pub fn tiene_mes(cumple: &str, mes: &str) -> (r: bool)
    ensures
        r == (segundo_campo(cumple@) == Some(mes@)),
{
    let n: usize = cumple.unicode_len();
    let p: usize = buscar_barra(cumple, 0);
    proof {
        assert(cumple@.skip(0) =~= cumple@);
    }
    if p >= n {
        return false;
    }
    let q: usize = buscar_barra(cumple, p + 1);
    let campo: &str = cumple.substring_char(p + 1, q);
    proof {
        let resto = cumple@.skip(p + 1);
        assert(resto.take(pos_barra(resto)) =~= cumple@.subrange(p + 1, q as int));
    }
    iguales(campo, mes)
}

/// The contacts whose birthday falls in the month that `mes` asks for, in
/// the order of the list. `None` where `mes` asks for no month.
pub fn listar_por_mes(contactos: &[Contacto], mes: &str) -> (r: Option<Vec<Contacto>>)
    ensures
        match mes_pedido(mes@) {
            Some(m) => r.is_some() && r.unwrap()@ == contactos@.filter(
                |c: Contacto| cumple_en_mes(c.cumple@, m),
            ),
            None => r.is_none(),
        },
{
    let m: u32 = match leer_mes(mes) {
        Some(m) => m,
        None => {
            return None;
        },
    };
    let buscado: String = dos_cifras(m);
    let ghost pred = |c: Contacto| cumple_en_mes(c.cumple@, m);
    let n: usize = contactos.len();
    let mut hallados: Vec<Contacto> = Vec::new();
    let mut i: usize = 0;
    proof {
        assert(contactos@.take(0).filter(pred) =~= Seq::<Contacto>::empty()) by {
            reveal(Seq::filter);
        }
    }
    while i < n
        invariant
            i <= n,
            n == contactos@.len(),
            buscado@ == texto_dos_cifras(m as nat),
            pred == |c: Contacto| cumple_en_mes(c.cumple@, m),
            hallados@ == contactos@.take(i as int).filter(pred),
        decreases n - i,
    {
        proof {
            assert(contactos@.take(i + 1) =~= contactos@.take(i as int).push(contactos@[i as int]));
            contactos@.take(i as int).lemma_filter_push(contactos@[i as int], pred);
        }
        if tiene_mes(contactos[i].cumple.as_str(), buscado.as_str()) {
            hallados.push(contactos[i].copia());
        }
        i = i + 1;
    }
    proof {
        assert(contactos@.take(n as int) =~= contactos@);
    }
    Some(hallados)
}

} // verus!
