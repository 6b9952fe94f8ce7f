use vstd::prelude::*;
use crate::contacto::Contacto;
use crate::texto::{a_minusculas, iguales, minusculas, recortado, recortar};

verus! {

/// The contacts of `cs` whose key differs from `k`, in their order. The key of
/// the contact at a place is the text at the same place of `ks`.
pub open spec fn conservados(cs: Seq<Contacto>, ks: Seq<String>, k: Seq<char>) -> Seq<Contacto>
    recommends
        cs.len() == ks.len(),
    decreases cs.len(),
{
    if cs.len() == 0 || ks.len() == 0 {
        Seq::<Contacto>::empty()
    } else {
        let antes = conservados(cs.drop_last(), ks.drop_last(), k);
        if ks.last()@ == k {
            antes
        } else {
            antes.push(cs.last())
        }
    }
}

/// The key under which a name is deleted: the name in lower case.
pub open spec fn clave_de_baja(nombre: Seq<char>) -> Seq<char> {
    minusculas(nombre)
}

/// Whether a contact stays when the name `nombre` is deleted: its name in
/// lower case differs from the typed name, trimmed and in lower case.
pub open spec fn se_conserva(c: Contacto, nombre: Seq<char>) -> bool {
    clave_de_baja(c.nombre@) != clave_de_baja(recortado(nombre))
}

/// Nothing is lost but contacts with the key `k`: the list shrinks exactly
/// when some key is `k`, and stays as it is otherwise.
pub proof fn lema_conservados(cs: Seq<Contacto>, ks: Seq<String>, k: Seq<char>)
    requires
        cs.len() == ks.len(),
    ensures
        conservados(cs, ks, k).len() <= cs.len(),
        (conservados(cs, ks, k).len() < cs.len()) <==> (exists|i: int|
            0 <= i < ks.len() && (#[trigger] ks[i])@ == k),
        conservados(cs, ks, k).len() == cs.len() ==> conservados(cs, ks, k) == cs,
    decreases cs.len(),
{
    if cs.len() > 0 {
        let cs0 = cs.drop_last();
        let ks0 = ks.drop_last();
        lema_conservados(cs0, ks0, k);
        if exists|i: int| 0 <= i < ks0.len() && (#[trigger] ks0[i])@ == k {
            let i = choose|i: int| 0 <= i < ks0.len() && (#[trigger] ks0[i])@ == k;
            assert(ks[i]@ == k);
        }
        if ks.last()@ == k {
            assert(ks[ks.len() - 1]@ == k);
        } else {
            if exists|i: int| 0 <= i < ks.len() && (#[trigger] ks[i])@ == k {
                let i = choose|i: int| 0 <= i < ks.len() && (#[trigger] ks[i])@ == k;
                assert(ks0[i]@ == k);
            }
            if conservados(cs, ks, k).len() == cs.len() {
                assert(conservados(cs, ks, k) =~= cs);
            }
        }
    }
}

/// Where each key is the lower case of the contact's name, what is kept is
/// the list filtered by `se_conserva`.
pub proof fn lema_conservados_es_filtro(cs: Seq<Contacto>, ks: Seq<String>, nombre: Seq<char>)
    requires
        cs.len() == ks.len(),
        forall|i: int| 0 <= i < cs.len() ==> (#[trigger] ks[i])@ == clave_de_baja(cs[i].nombre@),
    ensures
        conservados(cs, ks, clave_de_baja(recortado(nombre))) == cs.filter(
            |c: Contacto| se_conserva(c, nombre),
        ),
    decreases cs.len(),
{
    reveal(Seq::filter);
    if cs.len() > 0 {
        lema_conservados_es_filtro(cs.drop_last(), ks.drop_last(), nombre);
        assert(ks.last() == ks[ks.len() - 1]);
    }
}

/// Removes the contacts whose key is `clave`. The key of the contact at a
/// place is the text at the same place of `claves`. Returns whether anything
/// was removed.
pub fn quitar_por_clave(
    contactos: &mut Vec<Contacto>,
    claves: &Vec<String>,
    clave: &str,
) -> (r: bool)
    requires
        claves@.len() == old(contactos)@.len(),
    ensures
        final(contactos)@ == conservados(old(contactos)@, claves@, clave@),
        r == (final(contactos)@.len() < old(contactos)@.len()),
        r == (exists|i: int| 0 <= i < claves@.len() && (#[trigger] claves@[i])@ == clave@),
        !r ==> final(contactos)@ == old(contactos)@,
{
    let n: usize = contactos.len();
    let mut quedan: Vec<Contacto> = Vec::new();
    let mut i: usize = 0;
    while i < n
        invariant
            i <= n,
            n == contactos@.len(),
            n == claves@.len(),
            contactos@ == old(contactos)@,
            quedan@ == conservados(contactos@.take(i as int), claves@.take(i as int), clave@),
        decreases n - i,
    {
        proof {
            assert(contactos@.take(i + 1).drop_last() =~= contactos@.take(i as int));
            assert(claves@.take(i + 1).drop_last() =~= claves@.take(i as int));
        }
        if !iguales(claves[i].as_str(), clave) {
            quedan.push(contactos[i].copia());
        }
        i = i + 1;
    }
    proof {
        assert(contactos@.take(n as int) =~= contactos@);
        assert(claves@.take(n as int) =~= claves@);
        lema_conservados(contactos@, claves@, clave@);
    }
    let r: bool = quedan.len() < n;
    *contactos = quedan;
    r
}

/// Removes every contact whose name, in lower case, is the typed name,
/// trimmed and in lower case. Returns whether anything was removed: the
/// list then has to be stored again.
pub fn eliminar_contacto(contactos: &mut Vec<Contacto>, nombre: &str) -> (r: bool)
    ensures
        final(contactos)@ == old(contactos)@.filter(|c: Contacto| se_conserva(c, nombre@)),
        r == (final(contactos)@.len() < old(contactos)@.len()),
        r == (exists|i: int|
            0 <= i < old(contactos)@.len() && !se_conserva(#[trigger] old(contactos)@[i], nombre@)),
        !r ==> final(contactos)@ == old(contactos)@,
        forall|i: int|
            0 <= i < final(contactos)@.len() ==> se_conserva(
                #[trigger] final(contactos)@[i],
                nombre@,
            ),
{
    let clave: String = a_minusculas(recortar(nombre));
    let n: usize = contactos.len();
    let mut claves: Vec<String> = Vec::new();
    let mut i: usize = 0;
    while i < n
        invariant
            i <= n,
            n == contactos@.len(),
            contactos@ == old(contactos)@,
            claves@.len() == i,
            forall|j: int|
                0 <= j < i ==> (#[trigger] claves@[j])@ == clave_de_baja(contactos@[j].nombre@),
        decreases n - i,
    {
        claves.push(a_minusculas(contactos[i].nombre.as_str()));
        i = i + 1;
    }
    let r: bool = quitar_por_clave(contactos, &claves, clave.as_str());
    proof {
        let antes = old(contactos)@;
        let pred = |c: Contacto| se_conserva(c, nombre@);
        lema_conservados_es_filtro(antes, claves@, nombre@);
        if r {
            let i = choose|i: int| 0 <= i < claves@.len() && (#[trigger] claves@[i])@ == clave@;
            assert(!se_conserva(antes[i], nombre@));
        }
        if exists|i: int| 0 <= i < antes.len() && !se_conserva(#[trigger] antes[i], nombre@) {
            let i = choose|i: int| 0 <= i < antes.len() && !se_conserva(#[trigger] antes[i], nombre@);
            assert(claves@[i]@ == clave@);
        }
        assert forall|i: int| 0 <= i < final(contactos)@.len() implies se_conserva(
            #[trigger] final(contactos)@[i],
            nombre@,
        ) by {
            antes.lemma_filter_pred(pred, i);
        }
    }
    r
}

} // verus!
