//! A contact book. Each contact has a name, a birthday written `DD/MM`, a
//! phone and an email. The library validates birthdays, reads the lines that
//! are typed at the prompts, and holds the commands on the list of contacts:
//! add, find by name, list by month of birth, list in the order of the names,
//! delete by name. A session ties them to the menu: it takes one line of
//! input at a time and says what is to be shown and when the list is to be
//! stored. Reading lines, printing and the file itself are left to the
//! caller.

pub mod agenda;
pub mod baja;
pub mod contacto;
pub mod menu;
pub mod numero;
pub mod orden;
pub mod sesion;
pub mod texto;
pub mod validacion;
