//! Decisiones de la superficie de bandeja: la bandeja emite eventos
//! discretos (salir; uno de los N presets de velocidad) y el núcleo los
//! traduce 1:1 en escrituras sobre el estado compartido.
//!
//! El dibujo del icono, el menú y el bucle de eventos gráfico son del
//! anfitrión; para refrescar el menú, el anfitrión lee bajo demanda el
//! índice y la etiqueta del preset actual del estado compartido.

use vstd::prelude::*;

use crate::state::{indice_preset, EstadoCompartido};

verus! {

/// Evento discreto emitido por el menú de la bandeja.
#[derive(Clone, Copy, PartialEq, Eq, Structural, Debug)]
pub enum EventoBandeja {
    /// El usuario pidió salir de la aplicación.
    Salir,
    /// El usuario eligió el preset de velocidad con este índice.
    SeleccionPreset(usize),
}

/// Maneja un evento del menú de la bandeja. Salir enciende la señal de
/// terminación (que nunca se repone); la selección de un preset escribe su
/// escala como velocidad actual, y un índice fuera de la tabla se ignora.
pub fn manejar_evento_bandeja(comp: &mut EstadoCompartido, evento: EventoBandeja)
    requires
        old(comp).bien_formado(),
    ensures
        final(comp).tabla == old(comp).tabla,
        final(comp).estado == old(comp).estado,
        evento is Salir ==> {
            &&& final(comp).debe_salir
            &&& final(comp).velocidad == old(comp).velocidad
        },
        evento !is Salir ==> final(comp).debe_salir == old(comp).debe_salir,
        evento matches EventoBandeja::SeleccionPreset(i) ==> final(comp).velocidad == (
        if i < old(comp).tabla.len() {
            old(comp).tabla.escalas()[i as int]
        } else {
            old(comp).velocidad
        }),
{
    match evento {
        EventoBandeja::Salir => {
            comp.debe_salir = true;
        },
        EventoBandeja::SeleccionPreset(i) => {
            if i < comp.tabla.entradas.len() {
                let escala = comp.tabla.entradas[i].escala;
                let _ = comp.establecer_velocidad(escala);
            }
        },
    }
}

/// Sincronización del menú con el estado compartido: devuelve el índice del
/// preset actual si difiere del último reflejado en el menú (el anfitrión
/// marca entonces ese preset y actualiza el título), y nada si el menú ya
/// está al día. Cubre los cambios de velocidad hechos fuera del menú, por
/// ejemplo con los atajos de teclado.
pub fn sincronizar_indice_velocidad(comp: &EstadoCompartido, ultimo_indice: usize) -> (r: Option<
    usize,
>)
    requires
        comp.bien_formado(),
    ensures
        r matches Some(i) ==> {
            &&& i as int == indice_preset(comp.tabla, comp.velocidad)
            &&& i != ultimo_indice
        },
        r is None ==> ultimo_indice as int == indice_preset(comp.tabla, comp.velocidad),
{
    let idx = comp.indice_preset_actual();
    if idx != ultimo_indice {
        Some(idx)
    } else {
        None
    }
}

} // verus!
