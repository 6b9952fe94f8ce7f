use vstd::prelude::*;
use crate::agenda::{
    buscar_contacto, cumple_en_mes, listar_por_mes, mes_pedido, primera_coincidencia,
};
use crate::baja::{eliminar_contacto, se_conserva};
use crate::contacto::{Contacto, ContactoVista};
use crate::menu::{
    interpretar_opcion, lectura_de_dia, lectura_de_mes, opcion_de, pedir_dia, pedir_mes, Lectura,
    Opcion,
};
use crate::numero::{formatear_cumple, texto_cumple};
use crate::orden::{es_listado_de, listar_ordenados};
use crate::texto::{recortado, recortar};
use crate::validacion::es_dia_valido;

verus! {

/// What the session waits for: the line that is read next answers it.
#[derive(Debug, Clone, Copy, PartialEq, Eq)]
pub enum Paso {
    /// A choice from the menu.
    Opcion,
    /// The name of a new contact.
    AltaNombre,
    /// The month of its birthday.
    AltaMes,
    /// The day of its birthday.
    AltaDia,
    /// Its phone.
    AltaTelefono,
    /// Its email.
    AltaCorreo,
    /// The name to look up.
    BuscaNombre,
    /// The month whose birthdays are listed.
    ListaMes,
    /// The name to delete.
    BajaNombre,
    /// Nothing: the session has ended.
    Fin,
}

/// What the session has to say after a line.
#[derive(Debug, Clone, Copy, PartialEq, Eq)]
pub enum Aviso {
    Ninguno,
    EntradaInvalida,
    MesInvalido,
    DiaInvalido,
    Agregado,
    NoEncontrado,
    MesDeListadoInvalido,
    SinCumples,
    Eliminado,
    NoEliminado,
    Guardado,
    OpcionInvalida,
}

/// What is to be done after a line: store the list if `guardar` says so,
/// show the contacts of `mostrar`, then say `aviso`.
#[derive(Debug)]
pub struct Accion {
    pub guardar: bool,
    pub mostrar: Vec<Contacto>,
    pub aviso: Aviso,
}

/// A session at the menu: the list of contacts, what is waited for, and what
/// has been typed so far of a contact that is being added.
#[derive(Debug)]
pub struct Sesion {
    pub paso: Paso,
    pub contactos: Vec<Contacto>,
    pub nombre: String,
    pub mes: u32,
    pub dia: u32,
    pub telefono: String,
}

impl Accion {
    /// The action shows nothing, says `aviso` and stores the list where
    /// `guardar` holds.
    pub open spec fn solo_avisa(self, aviso: Aviso, guardar: bool) -> bool {
        &&& self.aviso == aviso
        &&& self.guardar == guardar
        &&& self.mostrar@ == Seq::<Contacto>::empty()
    }
}

impl Accion {
    /// The action stores nothing, shows the contacts `cs` and says `aviso`.
    pub open spec fn solo_muestra(self, cs: Seq<Contacto>, aviso: Aviso) -> bool {
        &&& self.aviso == aviso
        &&& !self.guardar
        &&& self.mostrar@ == cs
    }
}

impl Sesion {
    /// Once the day of a new contact has been taken, it is a day of the
    /// month that was taken before it.
    pub open spec fn bien_formada(self) -> bool {
        (self.paso == Paso::AltaTelefono || self.paso == Paso::AltaCorreo) ==> es_dia_valido(
            self.dia as int,
            self.mes as int,
        )
    }

    /// `d` differs from `self` at most in what it waits for.
    pub open spec fn igual_salvo_paso(self, d: Sesion) -> bool {
        &&& d.contactos@ == self.contactos@
        &&& d.nombre@ == self.nombre@
        &&& d.mes == self.mes
        &&& d.dia == self.dia
        &&& d.telefono@ == self.telefono@
    }

    /// The step from the menu: `d` and `acc` are what follows the session
    /// `self` when the line `linea` is read there.
    pub open spec fn paso_de_menu(self, linea: Seq<char>, d: Sesion, acc: Accion) -> bool {
        &&& self.igual_salvo_paso(d)
        &&& match opcion_de(recortado(linea)) {
            Opcion::Agregar => d.paso == Paso::AltaNombre && acc.solo_avisa(Aviso::Ninguno, false),
            Opcion::Buscar => d.paso == Paso::BuscaNombre && acc.solo_avisa(Aviso::Ninguno, false),
            Opcion::ListarPorMes => d.paso == Paso::ListaMes && acc.solo_avisa(
                Aviso::Ninguno,
                false,
            ),
            Opcion::ListarOrdenados => {
                &&& d.paso == Paso::Opcion
                &&& acc.aviso == Aviso::Ninguno
                &&& !acc.guardar
                &&& es_listado_de(acc.mostrar@, self.contactos@)
            },
            Opcion::Eliminar => d.paso == Paso::BajaNombre && acc.solo_avisa(Aviso::Ninguno, false),
            Opcion::Salir => d.paso == Paso::Fin && acc.solo_avisa(Aviso::Guardado, true),
            Opcion::Invalida => d.paso == Paso::Opcion && acc.solo_avisa(
                Aviso::OpcionInvalida,
                false,
            ),
        }
    }

    /// The steps that take a new contact, field by field. A month or a day
    /// that is refused is asked for again; the email completes the contact,
    /// which goes to the end of the list.
    pub open spec fn paso_de_alta(self, linea: Seq<char>, d: Sesion, acc: Accion) -> bool {
        match self.paso {
            Paso::AltaNombre => {
                &&& d.paso == Paso::AltaMes
                &&& d.nombre@ == recortado(linea)
                &&& d.contactos@ == self.contactos@
                &&& d.mes == self.mes
                &&& d.dia == self.dia
                &&& d.telefono@ == self.telefono@
                &&& acc.solo_avisa(Aviso::Ninguno, false)
            },
            Paso::AltaMes => {
                &&& d.contactos@ == self.contactos@
                &&& d.nombre@ == self.nombre@
                &&& d.dia == self.dia
                &&& d.telefono@ == self.telefono@
                &&& match lectura_de_mes(linea) {
                    Lectura::Numero(m) => d.paso == Paso::AltaDia && d.mes == m && acc.solo_avisa(
                        Aviso::Ninguno,
                        false,
                    ),
                    Lectura::NoEsNumero => d.paso == Paso::AltaMes && d.mes == self.mes
                        && acc.solo_avisa(Aviso::EntradaInvalida, false),
                    Lectura::FueraDeRango => d.paso == Paso::AltaMes && d.mes == self.mes
                        && acc.solo_avisa(Aviso::MesInvalido, false),
                }
            },
            Paso::AltaDia => {
                &&& d.contactos@ == self.contactos@
                &&& d.nombre@ == self.nombre@
                &&& d.mes == self.mes
                &&& d.telefono@ == self.telefono@
                &&& match lectura_de_dia(linea, self.mes) {
                    Lectura::Numero(n) => d.paso == Paso::AltaTelefono && d.dia == n
                        && acc.solo_avisa(Aviso::Ninguno, false),
                    Lectura::NoEsNumero => d.paso == Paso::AltaDia && d.dia == self.dia
                        && acc.solo_avisa(Aviso::EntradaInvalida, false),
                    Lectura::FueraDeRango => d.paso == Paso::AltaDia && d.dia == self.dia
                        && acc.solo_avisa(Aviso::DiaInvalido, false),
                }
            },
            Paso::AltaTelefono => {
                &&& d.paso == Paso::AltaCorreo
                &&& d.telefono@ == recortado(linea)
                &&& d.contactos@ == self.contactos@
                &&& d.nombre@ == self.nombre@
                &&& d.mes == self.mes
                &&& d.dia == self.dia
                &&& acc.solo_avisa(Aviso::Ninguno, false)
            },
            _ => {
                &&& d.paso == Paso::Opcion
                &&& d.nombre@ == self.nombre@
                &&& d.mes == self.mes
                &&& d.dia == self.dia
                &&& d.telefono@ == self.telefono@
                &&& d.contactos@.len() == self.contactos@.len() + 1
                &&& d.contactos@.drop_last() == self.contactos@
                &&& d.contactos@.last()@ == (ContactoVista {
                    nombre: self.nombre@,
                    cumple: texto_cumple(self.dia as nat, self.mes as nat),
                    telefono: self.telefono@,
                    correo: recortado(linea),
                })
                &&& acc.solo_avisa(Aviso::Agregado, true)
            },
        }
    }

    /// The steps that answer a question about the list, or delete from it,
    /// and lead back to the menu.
    pub open spec fn paso_de_consulta(self, linea: Seq<char>, d: Sesion, acc: Accion) -> bool {
        &&& d.paso == Paso::Opcion
        &&& d.nombre@ == self.nombre@
        &&& d.mes == self.mes
        &&& d.dia == self.dia
        &&& d.telefono@ == self.telefono@
        &&& match self.paso {
            Paso::BuscaNombre => {
                &&& d.contactos@ == self.contactos@
                &&& match primera_coincidencia(self.contactos@, recortado(linea)) {
                    Some(i) => acc.solo_muestra(seq![self.contactos@[i]], Aviso::Ninguno),
                    None => acc.solo_avisa(Aviso::NoEncontrado, false),
                }
            },
            Paso::ListaMes => {
                &&& d.contactos@ == self.contactos@
                &&& match mes_pedido(linea) {
                    Some(m) => {
                        let hallados = self.contactos@.filter(
                            |c: Contacto| cumple_en_mes(c.cumple@, m),
                        );
                        acc.solo_muestra(
                            hallados,
                            if hallados.len() == 0 {
                                Aviso::SinCumples
                            } else {
                                Aviso::Ninguno
                            },
                        )
                    },
                    None => acc.solo_avisa(Aviso::MesDeListadoInvalido, false),
                }
            },
            _ => {
                &&& d.contactos@ == self.contactos@.filter(|c: Contacto| se_conserva(c, linea))
                &&& if d.contactos@.len() < self.contactos@.len() {
                    acc.solo_avisa(Aviso::Eliminado, true)
                } else {
                    acc.solo_avisa(Aviso::NoEliminado, false)
                }
            },
        }
    }

    /// What follows the session `self` when the line `linea` is read: the
    /// session `d` and the action `acc`. A session that has ended stays as it
    /// is.
    pub open spec fn transicion(self, linea: Seq<char>, d: Sesion, acc: Accion) -> bool {
        match self.paso {
            Paso::Opcion => self.paso_de_menu(linea, d, acc),
            Paso::AltaNombre
            | Paso::AltaMes
            | Paso::AltaDia
            | Paso::AltaTelefono
            | Paso::AltaCorreo => self.paso_de_alta(linea, d, acc),
            Paso::BuscaNombre | Paso::ListaMes | Paso::BajaNombre => self.paso_de_consulta(
                linea,
                d,
                acc,
            ),
            Paso::Fin => d.paso == Paso::Fin && self.igual_salvo_paso(d) && acc.solo_avisa(
                Aviso::Ninguno,
                false,
            ),
        }
    }

    /// A session at the menu, with the list `contactos`.
    pub fn nueva(contactos: Vec<Contacto>) -> (r: Sesion)
        ensures
            r.paso == Paso::Opcion,
            r.contactos@ == contactos@,
            r.nombre@ == Seq::<char>::empty(),
            r.telefono@ == Seq::<char>::empty(),
            r.mes == 0,
            r.dia == 0,
            r.bien_formada(),
    {
        Sesion {
            paso: Paso::Opcion,
            contactos,
            nombre: String::new(),
            mes: 0,
            dia: 0,
            telefono: String::new(),
        }
    }

    /// Whether the session has ended.
    pub fn terminada(&self) -> (r: bool)
        ensures
            r == (self.paso == Paso::Fin),
    {
        match self.paso {
            Paso::Fin => true,
            _ => false,
        }
    }

    /// Takes the next line of input: moves the session on and says what is
    /// to be done.
    pub fn avanzar(&mut self, linea: &str) -> (acc: Accion)
        ensures
            old(self).transicion(linea@, *final(self), acc),
            old(self).bien_formada() ==> final(self).bien_formada(),
    {
        let mut acc = Accion { guardar: false, mostrar: Vec::new(), aviso: Aviso::Ninguno };
        match self.paso {
            Paso::Opcion => {
                match interpretar_opcion(linea) {
                    Opcion::Agregar => {
                        self.paso = Paso::AltaNombre;
                    },
                    Opcion::Buscar => {
                        self.paso = Paso::BuscaNombre;
                    },
                    Opcion::ListarPorMes => {
                        self.paso = Paso::ListaMes;
                    },
                    Opcion::ListarOrdenados => {
                        acc.mostrar = listar_ordenados(self.contactos.as_slice());
                    },
                    Opcion::Eliminar => {
                        self.paso = Paso::BajaNombre;
                    },
                    Opcion::Salir => {
                        self.paso = Paso::Fin;
                        acc.guardar = true;
                        acc.aviso = Aviso::Guardado;
                    },
                    Opcion::Invalida => {
                        acc.aviso = Aviso::OpcionInvalida;
                    },
                }
            },
            Paso::AltaNombre => {
                self.nombre = String::from_str(recortar(linea));
                self.paso = Paso::AltaMes;
            },
            Paso::AltaMes => {
                match pedir_mes(linea) {
                    Lectura::Numero(m) => {
                        self.mes = m;
                        self.paso = Paso::AltaDia;
                    },
                    Lectura::NoEsNumero => {
                        acc.aviso = Aviso::EntradaInvalida;
                    },
                    Lectura::FueraDeRango => {
                        acc.aviso = Aviso::MesInvalido;
                    },
                }
            },
            Paso::AltaDia => {
                match pedir_dia(linea, self.mes) {
                    Lectura::Numero(n) => {
                        self.dia = n;
                        self.paso = Paso::AltaTelefono;
                    },
                    Lectura::NoEsNumero => {
                        acc.aviso = Aviso::EntradaInvalida;
                    },
                    Lectura::FueraDeRango => {
                        acc.aviso = Aviso::DiaInvalido;
                    },
                }
            },
            Paso::AltaTelefono => {
                self.telefono = String::from_str(recortar(linea));
                self.paso = Paso::AltaCorreo;
            },
            Paso::AltaCorreo => {
                let nuevo = Contacto {
                    nombre: self.nombre.clone(),
                    cumple: formatear_cumple(self.dia, self.mes),
                    telefono: self.telefono.clone(),
                    correo: String::from_str(recortar(linea)),
                };
                self.contactos.push(nuevo);
                self.paso = Paso::Opcion;
                acc.guardar = true;
                acc.aviso = Aviso::Agregado;
                proof {
                    assert(self.contactos@.drop_last() =~= old(self).contactos@);
                }
            },
            Paso::BuscaNombre => {
                match buscar_contacto(self.contactos.as_slice(), recortar(linea)) {
                    Some(i) => {
                        acc.mostrar.push(self.contactos[i].copia());
                        proof {
                            assert(acc.mostrar@ =~= seq![self.contactos@[i as int]]);
                        }
                    },
                    None => {
                        acc.aviso = Aviso::NoEncontrado;
                    },
                }
                self.paso = Paso::Opcion;
            },
            Paso::ListaMes => {
                match listar_por_mes(self.contactos.as_slice(), linea) {
                    Some(hallados) => {
                        if hallados.len() == 0 {
                            acc.aviso = Aviso::SinCumples;
                        }
                        acc.mostrar = hallados;
                    },
                    None => {
                        acc.aviso = Aviso::MesDeListadoInvalido;
                    },
                }
                self.paso = Paso::Opcion;
            },
            Paso::BajaNombre => {
                if eliminar_contacto(&mut self.contactos, linea) {
                    acc.guardar = true;
                    acc.aviso = Aviso::Eliminado;
                } else {
                    acc.aviso = Aviso::NoEliminado;
                }
                self.paso = Paso::Opcion;
            },
            Paso::Fin => {},
        }
        acc
    }
}

} // verus!
