//! Manejadores de los atajos de teclado globales: traducen cada pulsación en
//! envíos a la cola de comandos o en mutaciones directas de la velocidad.
//!
//! El registro de las teclas ante el sistema, la simulación de la copia y la
//! captura y síntesis externas corren por cuenta del anfitrión, en sus
//! propios hilos; aquí quedan las decisiones que cada disparo provoca.

use vstd::prelude::*;

use crate::cola::ColaComandos;
use crate::state::{
    velocidad_tras_mas_lento, velocidad_tras_mas_rapido, ComandoAudio, EstadoCompartido,
    EstadoReproduccion,
};

verus! {

/// Disparo de lectura: encola Detener de inmediato, para interrumpir
/// cualquier reproducción en curso; después el anfitrión captura el texto y
/// lo sintetiza, y `captura_ok` trae el desenlace de esa secuencia externa:
/// solo con éxito se encola Reproducir. Un fallo se absorbe sin más efecto.
///
/// Cada disparo corre en su propio hilo: si un segundo disparo se adelanta,
/// el orden FIFO de la cola y la preferencia de Reproducir por el recurso
/// más reciente hacen ganar al último Reproducir encolado — una carrera
/// explícitamente aceptada, no guardada.
pub fn manejar_f8(cola: &mut ColaComandos, captura_ok: bool)
    ensures
        final(cola).cerrada == old(cola).cerrada,
        !old(cola).cerrada && captura_ok ==> final(cola).pendientes() == old(
            cola,
        ).pendientes().push(ComandoAudio::Detener).push(ComandoAudio::Reproducir),
        !old(cola).cerrada && !captura_ok ==> final(cola).pendientes() == old(
            cola,
        ).pendientes().push(ComandoAudio::Detener),
        old(cola).cerrada ==> final(cola).pendientes() == old(cola).pendientes(),
{
    cola.enviar_comando(ComandoAudio::Detener);
    if captura_ok {
        cola.enviar_comando(ComandoAudio::Reproducir);
    }
}

/// Disparo de pausa: lee el estado de reproducción y, si no está en reposo,
/// encola TogglePausa; en reposo no hay nada que pausar y no hace nada.
pub fn manejar_f9(comp: &EstadoCompartido, cola: &mut ColaComandos)
    ensures
        final(cola).cerrada == old(cola).cerrada,
        !(comp.estado is Idle) && !old(cola).cerrada ==> final(cola).pendientes() == old(
            cola,
        ).pendientes().push(ComandoAudio::TogglePausa),
        comp.estado is Idle || old(cola).cerrada ==> final(cola).pendientes() == old(
            cola,
        ).pendientes(),
{
    if comp.estado != EstadoReproduccion::Idle {
        cola.enviar_comando(ComandoAudio::TogglePausa);
    }
}

/// Disparo de "más rápido": pasa al siguiente preset más rápido, directo
/// sobre el estado compartido. Este camino nunca toca la cola: no cambia
/// qué recurso suena, solo la velocidad de la próxima síntesis.
pub fn manejar_mas_rapido(comp: &mut EstadoCompartido)
    requires
        old(comp).bien_formado(),
    ensures
        final(comp).velocidad == velocidad_tras_mas_rapido(
            old(comp).tabla,
            old(comp).velocidad,
        ),
        final(comp).tabla == old(comp).tabla,
        final(comp).estado == old(comp).estado,
        final(comp).debe_salir == old(comp).debe_salir,
{
    comp.velocidad_preset_mas_rapido();
}

/// Disparo de "más lento": pasa al siguiente preset más lento, directo
/// sobre el estado compartido, sin tocar la cola.
pub fn manejar_mas_lento(comp: &mut EstadoCompartido)
    requires
        old(comp).bien_formado(),
    ensures
        final(comp).velocidad == velocidad_tras_mas_lento(
            old(comp).tabla,
            old(comp).velocidad,
        ),
        final(comp).tabla == old(comp).tabla,
        final(comp).estado == old(comp).estado,
        final(comp).debe_salir == old(comp).debe_salir,
{
    comp.velocidad_preset_mas_lento();
}

} // verus!
