use agenda_contactos::agenda::{
    agregar_contacto, buscar_contacto, cargar_contactos, leer_mes, listar_por_mes, tiene_mes,
};
use agenda_contactos::baja::{eliminar_contacto, quitar_por_clave};
use agenda_contactos::contacto::Contacto;
use agenda_contactos::orden::listar_ordenados;

fn contacto(nombre: &str, cumple: &str) -> Contacto {
    Contacto {
        nombre: nombre.to_string(),
        cumple: cumple.to_string(),
        telefono: "555".to_string(),
        correo: "a@b.c".to_string(),
    }
}

fn nombres(cs: &[Contacto]) -> Vec<String> {
    cs.iter().map(|c| c.nombre.clone()).collect()
}

#[test]
fn cargar_sin_almacen_da_lista_vacia() {
    assert!(cargar_contactos(None).is_empty());
}

#[test]
fn cargar_conserva_lo_leido() {
    let v = vec![contacto("Ana", "05/02"), contacto("Beto", "10/03")];
    assert_eq!(cargar_contactos(Some(v.clone())), v);
}

#[test]
fn agregar_29_de_febrero() {
    let mut v: Vec<Contacto> = Vec::new();
    assert!(agregar_contacto(&mut v, "Ana", 2, 29, "123", "ana@x.org"));
    assert_eq!(v.len(), 1);
    assert_eq!(v[0].cumple, "29/02");
    assert_eq!(v[0].nombre, "Ana");
    assert_eq!(v[0].telefono, "123");
    assert_eq!(v[0].correo, "ana@x.org");
}

#[test]
fn agregar_recorta_los_textos() {
    let mut v = vec![contacto("Beto", "10/03")];
    assert!(agregar_contacto(&mut v, "  Ana Maria \n", 12, 5, "\t123 \r\n", " ana@x.org\n"));
    assert_eq!(v.len(), 2);
    assert_eq!(v[0], contacto("Beto", "10/03"));
    assert_eq!(
        v[1],
        Contacto {
            nombre: "Ana Maria".to_string(),
            cumple: "05/12".to_string(),
            telefono: "123".to_string(),
            correo: "ana@x.org".to_string(),
        }
    );
}

#[test]
fn agregar_admite_textos_vacios_y_repetidos() {
    let mut v: Vec<Contacto> = Vec::new();
    assert!(agregar_contacto(&mut v, "", 1, 1, "", ""));
    assert!(agregar_contacto(&mut v, "", 1, 1, "", ""));
    assert_eq!(v.len(), 2);
    assert_eq!(v[0], v[1]);
    assert_eq!(v[0].cumple, "01/01");
}

#[test]
fn agregar_rechaza_dia_invalido() {
    let mut v = vec![contacto("Beto", "10/03")];
    assert!(!agregar_contacto(&mut v, "Ana", 2, 30, "1", "2"));
    assert!(!agregar_contacto(&mut v, "Ana", 13, 1, "1", "2"));
    assert!(!agregar_contacto(&mut v, "Ana", 4, 0, "1", "2"));
    assert_eq!(v, vec![contacto("Beto", "10/03")]);
}

#[test]
fn buscar_no_distingue_mayusculas() {
    let mut v: Vec<Contacto> = Vec::new();
    assert!(agregar_contacto(&mut v, "Ana", 2, 5, "1", "2"));
    assert_eq!(buscar_contacto(&v, "ana"), Some(0));
    assert_eq!(buscar_contacto(&v, "ANA"), Some(0));
    assert_eq!(buscar_contacto(&v, "Ana"), Some(0));
    assert_eq!(buscar_contacto(&v, "Anna"), None);
    assert_eq!(buscar_contacto(&v, "An"), None);
    assert_eq!(buscar_contacto(&v, " ana"), None);
}

#[test]
fn buscar_da_el_primero() {
    let v = vec![contacto("Beto", "10/03"), contacto("ANA", "01/01"), contacto("ana", "02/02")];
    assert_eq!(buscar_contacto(&v, "Ana"), Some(1));
    assert_eq!(buscar_contacto(&v, "beto"), Some(0));
    assert_eq!(buscar_contacto(&[], "beto"), None);
}

#[test]
fn buscar_solo_pliega_ascii() {
    let v = vec![contacto("Émile", "10/03")];
    assert_eq!(buscar_contacto(&v, "émile"), None);
    assert_eq!(buscar_contacto(&v, "ÉMILE"), Some(0));
}

#[test]
fn listar_por_mes_dos() {
    let mut v: Vec<Contacto> = Vec::new();
    assert!(agregar_contacto(&mut v, "Ana", 2, 5, "1", "2"));
    assert!(agregar_contacto(&mut v, "Beto", 3, 10, "3", "4"));
    assert_eq!(v[0].cumple, "05/02");
    assert_eq!(v[1].cumple, "10/03");
    let r = listar_por_mes(&v, "2").unwrap();
    assert_eq!(r, vec![v[0].clone()]);
    let r = listar_por_mes(&v, " 03\n").unwrap();
    assert_eq!(r, vec![v[1].clone()]);
    assert_eq!(listar_por_mes(&v, "4"), Some(vec![]));
}

#[test]
fn listar_por_mes_conserva_el_orden() {
    let v = vec![
        contacto("C", "01/11"),
        contacto("A", "30/11"),
        contacto("B", "11/01"),
        contacto("D", "15/11"),
    ];
    let r = listar_por_mes(&v, "11").unwrap();
    assert_eq!(nombres(&r), vec!["C", "A", "D"]);
}

#[test]
fn listar_por_mes_invalido() {
    let v = vec![contacto("Ana", "05/02")];
    assert_eq!(listar_por_mes(&v, "13"), None);
    assert_eq!(listar_por_mes(&v, "0"), None);
    assert_eq!(listar_por_mes(&v, "febrero"), None);
    assert_eq!(listar_por_mes(&v, ""), None);
    assert_eq!(listar_por_mes(&v, "-2"), None);
}

#[test]
fn leer_mes_casos() {
    assert_eq!(leer_mes("1"), Some(1));
    assert_eq!(leer_mes(" 12 "), Some(12));
    assert_eq!(leer_mes("+7"), Some(7));
    assert_eq!(leer_mes("13"), None);
    assert_eq!(leer_mes("x"), None);
}

#[test]
fn tiene_mes_lee_el_segundo_campo() {
    assert!(tiene_mes("05/02", "02"));
    assert!(!tiene_mes("05/02", "05"));
    assert!(!tiene_mes("0502", "02"));
    assert!(tiene_mes("05/02/1990", "02"));
    assert!(tiene_mes("/02", "02"));
    assert!(tiene_mes("05/", ""));
    assert!(!tiene_mes("", ""));
    assert!(!tiene_mes("05/2", "02"));
}

#[test]
fn eliminar_quita_todos_los_del_nombre() {
    let mut v = vec![
        contacto("ana", "01/01"),
        contacto("Beto", "10/03"),
        contacto("ANA", "02/02"),
        contacto("Ana", "03/03"),
    ];
    assert!(eliminar_contacto(&mut v, "Ana"));
    assert_eq!(v, vec![contacto("Beto", "10/03")]);
}

#[test]
fn eliminar_sin_coincidencia_no_cambia_nada() {
    let antes = vec![contacto("ana", "01/01"), contacto("Beto", "10/03")];
    let mut v = antes.clone();
    assert!(!eliminar_contacto(&mut v, "Carla"));
    assert_eq!(v, antes);
    let mut vacia: Vec<Contacto> = Vec::new();
    assert!(!eliminar_contacto(&mut vacia, "Ana"));
    assert!(vacia.is_empty());
}

#[test]
fn eliminar_recorta_y_pliega_unicode() {
    let mut v = vec![contacto("ÉMILE", "01/01"), contacto("Zoë", "10/03")];
    assert!(eliminar_contacto(&mut v, "  émile \n"));
    assert_eq!(nombres(&v), vec!["Zoë"]);
    assert!(eliminar_contacto(&mut v, "ZOË"));
    assert!(v.is_empty());
}

#[test]
fn quitar_por_clave_compara_las_claves() {
    let mut v = vec![contacto("A", "01/01"), contacto("B", "10/03"), contacto("C", "10/03")];
    let claves = vec!["x".to_string(), "y".to_string(), "x".to_string()];
    assert!(quitar_por_clave(&mut v, &claves, "x"));
    assert_eq!(nombres(&v), vec!["B"]);
    let claves = vec!["y".to_string()];
    assert!(!quitar_por_clave(&mut v, &claves, "Y"));
    assert_eq!(nombres(&v), vec!["B"]);
}

#[test]
fn listar_ordenados_ana_antes_de_beto() {
    let v = vec![contacto("Beto", "10/03"), contacto("Ana", "05/02")];
    let r = listar_ordenados(&v);
    assert_eq!(nombres(&r), vec!["Ana", "Beto"]);
    assert_eq!(nombres(&v), vec!["Beto", "Ana"]);
}

#[test]
fn listar_ordenados_queda_el_ultimo_de_cada_nombre() {
    let v = vec![
        contacto("Beto", "10/03"),
        contacto("Ana", "05/02"),
        contacto("Beto", "11/04"),
        contacto("ana", "06/02"),
        contacto("Ana", "07/02"),
    ];
    let r = listar_ordenados(&v);
    assert_eq!(
        r,
        vec![contacto("Ana", "07/02"), contacto("Beto", "11/04"), contacto("ana", "06/02")]
    );
    assert_eq!(v.len(), 5);
}

#[test]
fn listar_ordenados_como_el_orden_de_los_textos() {
    let muestra = ["b", "", "a", "ab", "B", "é", "z", "aa", "Émile", "~", "日本", "a b", "\u{10000}", "\u{ffff}"];
    let v: Vec<Contacto> = muestra.iter().map(|n| contacto(n, "01/01")).collect();
    let mut esperado: Vec<String> = muestra.iter().map(|n| n.to_string()).collect();
    esperado.sort();
    assert_eq!(nombres(&listar_ordenados(&v)), esperado);
    assert!(listar_ordenados(&[]).is_empty());
}
