use agenda_contactos::contacto::Contacto;
use agenda_contactos::sesion::{Accion, Aviso, Paso, Sesion};

fn contacto(nombre: &str, cumple: &str) -> Contacto {
    Contacto {
        nombre: nombre.to_string(),
        cumple: cumple.to_string(),
        telefono: "555".to_string(),
        correo: "a@b.c".to_string(),
    }
}

fn paso(s: &mut Sesion, linea: &str, espera: Paso, aviso: Aviso, guardar: bool) -> Accion {
    let acc = s.avanzar(linea);
    assert_eq!(s.paso, espera);
    assert_eq!(acc.aviso, aviso);
    assert_eq!(acc.guardar, guardar);
    acc
}

#[test]
fn sesion_nueva_espera_una_opcion() {
    let s = Sesion::nueva(vec![contacto("Ana", "05/02")]);
    assert_eq!(s.paso, Paso::Opcion);
    assert!(!s.terminada());
    assert_eq!(s.contactos, vec![contacto("Ana", "05/02")]);
}

#[test]
fn sesion_alta_completa() {
    let mut s = Sesion::nueva(Vec::new());
    assert!(paso(&mut s, "1\n", Paso::AltaNombre, Aviso::Ninguno, false).mostrar.is_empty());
    paso(&mut s, " Ana \n", Paso::AltaMes, Aviso::Ninguno, false);
    paso(&mut s, "dos\n", Paso::AltaMes, Aviso::EntradaInvalida, false);
    paso(&mut s, "13\n", Paso::AltaMes, Aviso::MesInvalido, false);
    paso(&mut s, "0\n", Paso::AltaMes, Aviso::MesInvalido, false);
    paso(&mut s, "2\n", Paso::AltaDia, Aviso::Ninguno, false);
    paso(&mut s, "\n", Paso::AltaDia, Aviso::EntradaInvalida, false);
    paso(&mut s, "30\n", Paso::AltaDia, Aviso::DiaInvalido, false);
    paso(&mut s, "29\n", Paso::AltaTelefono, Aviso::Ninguno, false);
    paso(&mut s, "123 456\n", Paso::AltaCorreo, Aviso::Ninguno, false);
    assert!(s.contactos.is_empty());
    let acc = paso(&mut s, "ana@x.org\n", Paso::Opcion, Aviso::Agregado, true);
    assert!(acc.mostrar.is_empty());
    assert_eq!(
        s.contactos,
        vec![Contacto {
            nombre: "Ana".to_string(),
            cumple: "29/02".to_string(),
            telefono: "123 456".to_string(),
            correo: "ana@x.org".to_string(),
        }]
    );
}

#[test]
fn sesion_busca_y_vuelve_al_menu() {
    let mut s = Sesion::nueva(vec![contacto("Beto", "10/03"), contacto("Ana", "05/02")]);
    paso(&mut s, "2", Paso::BuscaNombre, Aviso::Ninguno, false);
    let acc = paso(&mut s, " ANA \n", Paso::Opcion, Aviso::Ninguno, false);
    assert_eq!(acc.mostrar, vec![contacto("Ana", "05/02")]);
    paso(&mut s, "2", Paso::BuscaNombre, Aviso::Ninguno, false);
    let acc = paso(&mut s, "Carla\n", Paso::Opcion, Aviso::NoEncontrado, false);
    assert!(acc.mostrar.is_empty());
}

#[test]
fn sesion_lista_por_mes() {
    let mut s = Sesion::nueva(vec![contacto("Ana", "05/02"), contacto("Beto", "10/03")]);
    paso(&mut s, "3", Paso::ListaMes, Aviso::Ninguno, false);
    let acc = paso(&mut s, "2\n", Paso::Opcion, Aviso::Ninguno, false);
    assert_eq!(acc.mostrar, vec![contacto("Ana", "05/02")]);
    paso(&mut s, "3", Paso::ListaMes, Aviso::Ninguno, false);
    let acc = paso(&mut s, "7\n", Paso::Opcion, Aviso::SinCumples, false);
    assert!(acc.mostrar.is_empty());
    paso(&mut s, "3", Paso::ListaMes, Aviso::Ninguno, false);
    let acc = paso(&mut s, "13\n", Paso::Opcion, Aviso::MesDeListadoInvalido, false);
    assert!(acc.mostrar.is_empty());
}

#[test]
fn sesion_lista_ordenada() {
    let mut s = Sesion::nueva(vec![contacto("Beto", "10/03"), contacto("Ana", "05/02")]);
    let acc = paso(&mut s, "4\n", Paso::Opcion, Aviso::Ninguno, false);
    assert_eq!(acc.mostrar, vec![contacto("Ana", "05/02"), contacto("Beto", "10/03")]);
    assert_eq!(s.contactos, vec![contacto("Beto", "10/03"), contacto("Ana", "05/02")]);
}

#[test]
fn sesion_elimina_y_pide_guardar() {
    let mut s = Sesion::nueva(vec![
        contacto("ana", "01/01"),
        contacto("Beto", "10/03"),
        contacto("ANA", "05/02"),
    ]);
    paso(&mut s, "5", Paso::BajaNombre, Aviso::Ninguno, false);
    paso(&mut s, "Ana\n", Paso::Opcion, Aviso::Eliminado, true);
    assert_eq!(s.contactos, vec![contacto("Beto", "10/03")]);
    paso(&mut s, "5", Paso::BajaNombre, Aviso::Ninguno, false);
    paso(&mut s, "Ana\n", Paso::Opcion, Aviso::NoEliminado, false);
    assert_eq!(s.contactos, vec![contacto("Beto", "10/03")]);
}

#[test]
fn sesion_opcion_invalida_y_salida() {
    let mut s = Sesion::nueva(vec![contacto("Beto", "10/03")]);
    paso(&mut s, "9\n", Paso::Opcion, Aviso::OpcionInvalida, false);
    paso(&mut s, "\n", Paso::Opcion, Aviso::OpcionInvalida, false);
    paso(&mut s, "6\n", Paso::Fin, Aviso::Guardado, true);
    assert!(s.terminada());
    paso(&mut s, "1\n", Paso::Fin, Aviso::Ninguno, false);
    assert_eq!(s.contactos, vec![contacto("Beto", "10/03")]);
}
