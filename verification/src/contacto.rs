use vstd::prelude::*;

verus! {

/// One entry of the contact book. The birthday is kept as text, `DD/MM`.
#[derive(Debug, Clone, PartialEq, Eq)]
pub struct Contacto {
    pub nombre: String,
    pub cumple: String,
    pub telefono: String,
    pub correo: String,
}

/// What a contact is, mathematically: four sequences of characters.
pub ghost struct ContactoVista {
    pub nombre: Seq<char>,
    pub cumple: Seq<char>,
    pub telefono: Seq<char>,
    pub correo: Seq<char>,
}

impl View for Contacto {
    type V = ContactoVista;

    open spec fn view(&self) -> ContactoVista {
        ContactoVista {
            nombre: self.nombre@,
            cumple: self.cumple@,
            telefono: self.telefono@,
            correo: self.correo@,
        }
    }
}

impl Contacto {
    /// A fresh contact with the same four texts.
    pub fn copia(&self) -> (r: Contacto)
        ensures
            r@ == self@,
            r == *self,
    {
        Contacto {
            nombre: self.nombre.clone(),
            cumple: self.cumple.clone(),
            telefono: self.telefono.clone(),
            correo: self.correo.clone(),
        }
    }
}

} // verus!
