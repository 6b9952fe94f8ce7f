use vstd::prelude::*;
use crate::contacto::Contacto;
use crate::texto::{menor, precede};

verus! {

/// No text comes before itself.
pub proof fn lema_precede_irreflexiva(a: Seq<char>)
    ensures
        !precede(a, a),
    decreases a.len(),
{
    if a.len() > 0 {
        lema_precede_irreflexiva(a.drop_first());
    }
}

/// The dictionary order is transitive.
pub proof fn lema_precede_transitiva(a: Seq<char>, b: Seq<char>, c: Seq<char>)
    requires
        precede(a, b),
        precede(b, c),
    ensures
        precede(a, c),
    decreases a.len(),
{
    if a.len() > 0 && a[0] == b[0] && b[0] == c[0] {
        lema_precede_transitiva(a.drop_first(), b.drop_first(), c.drop_first());
    }
}

/// Of two different texts one comes before the other.
pub proof fn lema_precede_total(a: Seq<char>, b: Seq<char>)
    requires
        !precede(a, b),
        !precede(b, a),
    ensures
        a == b,
    decreases a.len(),
{
    if a.len() > 0 && b.len() > 0 {
        assert(a[0] == b[0]) by {
            if a[0] != b[0] {
                assert(a[0] as int != b[0] as int);
            }
        }
        lema_precede_total(a.drop_first(), b.drop_first());
        assert(a =~= seq![a[0]] + a.drop_first());
        assert(b =~= seq![b[0]] + b.drop_first());
    } else {
        assert(a =~= b);
    }
}

/// The names of `r` rise strictly in the dictionary order.
pub open spec fn ordenada(r: Seq<Contacto>) -> bool {
    forall|i: int, j: int|
        0 <= i < j < r.len() ==> precede((#[trigger] r[i]).nombre@, (#[trigger] r[j]).nombre@)
}

/// The contact `x` stands at the place `i` of `cs`, and no later contact of
/// `cs` has its name.
pub open spec fn viene_de(x: Contacto, cs: Seq<Contacto>, i: int) -> bool {
    &&& 0 <= i < cs.len()
    &&& x == cs[i]
    &&& forall|k: int| i < k < cs.len() ==> (#[trigger] cs[k]).nombre@ != x.nombre@
}

/// The contact at the place `j` of `r` has the name `nombre`.
pub open spec fn nombre_en(r: Seq<Contacto>, j: int, nombre: Seq<char>) -> bool {
    0 <= j < r.len() && r[j].nombre@ == nombre
}

/// The contact `x` is the last of `cs` with its name.
pub open spec fn tiene_origen(x: Contacto, cs: Seq<Contacto>) -> bool {
    exists|i: int| viene_de(x, cs, i)
}

/// Some contact of `r` has the name `nombre`.
pub open spec fn aparece(r: Seq<Contacto>, nombre: Seq<char>) -> bool {
    exists|j: int| nombre_en(r, j, nombre)
}

/// `r` is the sorted listing of `cs`: in strict dictionary order of the
/// names, one contact for each name of `cs`, and for each name the last
/// contact of `cs` that has it.
#[verifier::opaque]
pub open spec fn es_listado_de(r: Seq<Contacto>, cs: Seq<Contacto>) -> bool {
    &&& ordenada(r)
    &&& forall|j: int| 0 <= j < r.len() ==> tiene_origen(#[trigger] r[j], cs)
    &&& forall|i: int| 0 <= i < cs.len() ==> aparece(r, (#[trigger] cs[i]).nombre@)
}

/// The empty listing is the listing of the empty list.
pub proof fn lema_listado_vacio()
    ensures
        es_listado_de(Seq::<Contacto>::empty(), Seq::<Contacto>::empty()),
{
    reveal(es_listado_de);
}

/// A listing stays one when the next contact takes the place of the entry
/// with its name.
pub proof fn lema_reemplazo(r: Seq<Contacto>, cs: Seq<Contacto>, k: int, p: int)
    requires
        0 <= k < cs.len(),
        es_listado_de(r, cs.take(k)),
        0 <= p < r.len(),
        r[p].nombre@ == cs[k].nombre@,
    ensures
        es_listado_de(r.update(p, cs[k]), cs.take(k + 1)),
{
    reveal(es_listado_de);
    let r2 = r.update(p, cs[k]);
    let a = cs.take(k);
    let b = cs.take(k + 1);
    assert forall|i: int, j: int| 0 <= i < j < r2.len() implies precede(
        (#[trigger] r2[i]).nombre@,
        (#[trigger] r2[j]).nombre@,
    ) by {
        assert(r2[i].nombre@ == r[i].nombre@);
        assert(r2[j].nombre@ == r[j].nombre@);
    }
    assert forall|j: int| 0 <= j < r2.len() implies tiene_origen(#[trigger] r2[j], b) by {
        if j == p {
            assert(viene_de(r2[j], b, k));
        } else {
            let i = choose|i: int| viene_de(r[j], a, i);
            assert(r[j].nombre@ != r[p].nombre@) by {
                lema_precede_irreflexiva(r[p].nombre@);
            }
            assert forall|q: int| i < q < b.len() implies (#[trigger] b[q]).nombre@
                != r[j].nombre@ by {
                if q < k {
                    assert(a[q] == b[q]);
                }
            }
            assert(viene_de(r2[j], b, i));
        }
    }
    assert forall|i: int| 0 <= i < b.len() implies aparece(r2, (#[trigger] b[i]).nombre@) by {
        if i == k {
            assert(nombre_en(r2, p, b[i].nombre@));
        } else {
            assert(a[i] == b[i]);
            let j = choose|j: int| nombre_en(r, j, a[i].nombre@);
            assert(nombre_en(r2, j, b[i].nombre@));
        }
    }
}

/// A listing stays one when the next contact, whose name is new, is put in
/// between the names before it and the names after it.
pub proof fn lema_insercion(r: Seq<Contacto>, cs: Seq<Contacto>, k: int, p: int)
    requires
        0 <= k < cs.len(),
        es_listado_de(r, cs.take(k)),
        0 <= p <= r.len(),
        forall|q: int| 0 <= q < p ==> precede((#[trigger] r[q]).nombre@, cs[k].nombre@),
        p < r.len() ==> precede(cs[k].nombre@, r[p].nombre@),
    ensures
        es_listado_de(r.insert(p, cs[k]), cs.take(k + 1)),
{
    reveal(es_listado_de);
    let x = cs[k];
    let r2 = r.insert(p, x);
    let a = cs.take(k);
    let b = cs.take(k + 1);
    r.insert_ensures(p, x);
    assert forall|q: int| p <= q < r.len() implies precede(x.nombre@, (#[trigger] r[q]).nombre@) by {
        if q > p {
            lema_precede_transitiva(x.nombre@, r[p].nombre@, r[q].nombre@);
        }
    }
    assert forall|q: int| 0 <= q < r.len() implies (#[trigger] r[q]).nombre@ != x.nombre@ by {
        lema_precede_irreflexiva(x.nombre@);
    }
    assert forall|i: int, j: int| 0 <= i < j < r2.len() implies precede(
        (#[trigger] r2[i]).nombre@,
        (#[trigger] r2[j]).nombre@,
    ) by {
        let i0 = if i < p { i } else { i - 1 };
        let j0 = if j < p { j } else { j - 1 };
        if i != p {
            assert(r2[i] == r[i0]);
        }
        if j != p {
            assert(r2[j] == r[j0]);
        }
    }
    assert forall|j: int| 0 <= j < r2.len() implies tiene_origen(#[trigger] r2[j], b) by {
        if j == p {
            assert(viene_de(r2[j], b, k));
        } else {
            let j0 = if j < p { j } else { j - 1 };
            assert(r2[j] == r[j0]);
            let i = choose|i: int| viene_de(r[j0], a, i);
            assert forall|q: int| i < q < b.len() implies (#[trigger] b[q]).nombre@
                != r[j0].nombre@ by {
                if q < k {
                    assert(a[q] == b[q]);
                }
            }
            assert(viene_de(r2[j], b, i));
        }
    }
    assert forall|i: int| 0 <= i < b.len() implies aparece(r2, (#[trigger] b[i]).nombre@) by {
        if i == k {
            assert(nombre_en(r2, p, b[i].nombre@));
        } else {
            assert(a[i] == b[i]);
            let j = choose|j: int| nombre_en(r, j, a[i].nombre@);
            let j2 = if j < p { j } else { j + 1 };
            assert(r2[j2] == r[j]);
            assert(nombre_en(r2, j2, b[i].nombre@));
        }
    }
}

/// Two listings of one list have the same names at the same places, as far
/// as the first of them reaches.
pub proof fn lema_listados_mismos_nombres(
    r1: Seq<Contacto>,
    r2: Seq<Contacto>,
    cs: Seq<Contacto>,
    j: int,
)
    requires
        es_listado_de(r1, cs),
        es_listado_de(r2, cs),
        0 <= j <= r1.len(),
    ensures
        j <= r2.len(),
        forall|i: int| 0 <= i < j ==> (#[trigger] r1[i]).nombre@ == r2[i].nombre@,
    decreases j,
{
    reveal(es_listado_de);
    if j > 0 {
        let k = j - 1;
        lema_listados_mismos_nombres(r1, r2, cs, k);
        let n = r1[k].nombre@;
        assert(tiene_origen(r1[k], cs));
        let i1 = choose|i: int| viene_de(r1[k], cs, i);
        assert(aparece(r2, cs[i1].nombre@));
        let j2 = choose|x: int| nombre_en(r2, x, n);
        lema_precede_irreflexiva(n);
        if j2 < k {
            assert(r1[j2].nombre@ == r2[j2].nombre@);
            assert(precede(r1[j2].nombre@, r1[k].nombre@));
        }
        let m = r2[k].nombre@;
        assert(tiene_origen(r2[k], cs));
        let i2 = choose|i: int| viene_de(r2[k], cs, i);
        assert(aparece(r1, cs[i2].nombre@));
        let j1 = choose|x: int| nombre_en(r1, x, m);
        lema_precede_irreflexiva(m);
        if j1 < k {
            assert(r1[j1].nombre@ == r2[j1].nombre@);
            assert(precede(r2[j1].nombre@, r2[k].nombre@));
        }
        if j2 > k {
            assert(precede(r2[k].nombre@, r2[j2].nombre@));
            if j1 > k {
                assert(precede(r1[k].nombre@, r1[j1].nombre@));
                lema_precede_transitiva(m, n, m);
            }
        }
    }
}

/// A list has one sorted listing only.
pub proof fn lema_listado_unico(r1: Seq<Contacto>, r2: Seq<Contacto>, cs: Seq<Contacto>)
    requires
        es_listado_de(r1, cs),
        es_listado_de(r2, cs),
    ensures
        r1 == r2,
{
    lema_listados_mismos_nombres(r1, r2, cs, r1.len() as int);
    lema_listados_mismos_nombres(r2, r1, cs, r2.len() as int);
    reveal(es_listado_de);
    assert forall|j: int| 0 <= j < r1.len() implies r1[j] == r2[j] by {
        assert(tiene_origen(r1[j], cs));
        assert(tiene_origen(r2[j], cs));
        let i1 = choose|i: int| viene_de(r1[j], cs, i);
        let i2 = choose|i: int| viene_de(r2[j], cs, i);
        assert(r1[j].nombre@ == r2[j].nombre@);
        if i1 < i2 {
            assert(cs[i2].nombre@ != r1[j].nombre@);
        }
        if i2 < i1 {
            assert(cs[i1].nombre@ != r2[j].nombre@);
        }
    }
    assert(r1 =~= r2);
}

/// The contacts in the dictionary order of their names. Where several have
/// one name, only the last of them is listed. The list itself is not
/// changed.
pub fn listar_ordenados(contactos: &[Contacto]) -> (r: Vec<Contacto>)
    ensures
        es_listado_de(r@, contactos@),
{
    let n: usize = contactos.len();
    let mut lista: Vec<Contacto> = Vec::new();
    let mut k: usize = 0;
    proof {
        lema_listado_vacio();
        assert(contactos@.take(0) =~= Seq::<Contacto>::empty());
    }
    while k < n
        invariant
            k <= n,
            n == contactos@.len(),
            es_listado_de(lista@, contactos@.take(k as int)),
        decreases n - k,
    {
        let nombre: &str = contactos[k].nombre.as_str();
        let m: usize = lista.len();
        let mut p: usize = 0;
        while p < m && menor(lista[p].nombre.as_str(), nombre)
            invariant
                p <= m,
                m == lista@.len(),
                nombre@ == contactos@[k as int].nombre@,
                forall|q: int| 0 <= q < p ==> precede((#[trigger] lista@[q]).nombre@, nombre@),
            decreases m - p,
        {
            p = p + 1;
        }
        if p < m && !menor(nombre, lista[p].nombre.as_str()) {
            proof {
                lema_precede_total(nombre@, lista@[p as int].nombre@);
                lema_reemplazo(lista@, contactos@, k as int, p as int);
                assert(lista@.remove(p as int).insert(p as int, contactos@[k as int])
                    =~= lista@.update(p as int, contactos@[k as int]));
            }
            lista.remove(p);
            lista.insert(p, contactos[k].copia());
        } else {
            proof {
                lema_insercion(lista@, contactos@, k as int, p as int);
            }
            lista.insert(p, contactos[k].copia());
        }
        k = k + 1;
    }
    proof {
        assert(contactos@.take(n as int) =~= contactos@);
    }
    lista
}

} // verus!
