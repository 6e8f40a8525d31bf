//! Pruebas de la cola de comandos y de los manejadores de atajos.

use tray_narrator::audio::{AccionRecurso, Controlador};
use tray_narrator::cola::{ColaComandos, RecepcionComando};
use tray_narrator::hotkeys::{manejar_f8, manejar_f9, manejar_mas_lento, manejar_mas_rapido};
use tray_narrator::state::{ComandoAudio, EstadoCompartido, EstadoReproduccion};

#[test]
fn la_cola_es_fifo() {
    let mut cola = ColaComandos::nueva();
    cola.enviar_comando(ComandoAudio::Detener);
    cola.enviar_comando(ComandoAudio::Reproducir);
    cola.enviar_comando(ComandoAudio::TogglePausa);
    assert_eq!(cola.recibir(), RecepcionComando::Comando(ComandoAudio::Detener));
    assert_eq!(cola.recibir(), RecepcionComando::Comando(ComandoAudio::Reproducir));
    assert_eq!(cola.recibir(), RecepcionComando::Comando(ComandoAudio::TogglePausa));
    assert_eq!(cola.recibir(), RecepcionComando::TiempoAgotado);
}

#[test]
fn recibir_sin_comandos_es_un_tic() {
    let mut cola = ColaComandos::nueva();
    assert_eq!(cola.recibir(), RecepcionComando::TiempoAgotado);
    assert_eq!(cola.recibir(), RecepcionComando::TiempoAgotado);
}

#[test]
fn cerrar_con_pendientes_los_conserva() {
    let mut cola = ColaComandos::nueva();
    cola.enviar_comando(ComandoAudio::Detener);
    cola.cerrar();
    assert_eq!(cola.recibir(), RecepcionComando::Comando(ComandoAudio::Detener));
    assert_eq!(cola.recibir(), RecepcionComando::Cerrada);
}

#[test]
fn enviar_a_cola_cerrada_se_descarta_en_silencio() {
    let mut cola = ColaComandos::nueva();
    cola.cerrar();
    cola.enviar_comando(ComandoAudio::Reproducir);
    assert_eq!(cola.items.len(), 0);
    assert_eq!(cola.recibir(), RecepcionComando::Cerrada);
}

#[test]
fn intercalado_solo_a_granularidad_de_comando() {
    // Dos productores envían Detener, Reproducir cada uno; el canal
    // serializa sus envíos sin fundir, perder ni reordenar comandos.
    let mut cola = ColaComandos::nueva();
    // Productor A: Detener. Productor B: Detener. A: Reproducir. B: Reproducir.
    cola.enviar_comando(ComandoAudio::Detener);
    cola.enviar_comando(ComandoAudio::Detener);
    cola.enviar_comando(ComandoAudio::Reproducir);
    cola.enviar_comando(ComandoAudio::Reproducir);
    assert_eq!(
        cola.items,
        vec![
            ComandoAudio::Detener,
            ComandoAudio::Detener,
            ComandoAudio::Reproducir,
            ComandoAudio::Reproducir,
        ]
    );

    // Otra intercalación: A completa antes de que B empiece.
    let mut cola = ColaComandos::nueva();
    cola.enviar_comando(ComandoAudio::Detener);
    cola.enviar_comando(ComandoAudio::Reproducir);
    cola.enviar_comando(ComandoAudio::Detener);
    cola.enviar_comando(ComandoAudio::Reproducir);
    assert_eq!(cola.items.len(), 4);
    assert_eq!(
        cola.items,
        vec![
            ComandoAudio::Detener,
            ComandoAudio::Reproducir,
            ComandoAudio::Detener,
            ComandoAudio::Reproducir,
        ]
    );
    // El último Reproducir encolado es el que gana en el controlador.
    let mut ctl = Controlador::nuevo();
    let mut comp = EstadoCompartido::nueva();
    let mut ultima_accion = AccionRecurso::Ninguna;
    for _ in 0..4 {
        let (seguir, accion) = ctl.paso_controlador(&mut comp, &mut cola, true, false);
        assert!(seguir);
        if let AccionRecurso::Iniciar(_) = accion {
            ultima_accion = accion;
        }
    }
    assert_eq!(cola.items.len(), 0);
    assert_eq!(comp.estado, EstadoReproduccion::Reproduciendo);
    assert_eq!(ultima_accion, AccionRecurso::Iniciar(1));
}

#[test]
fn f8_encola_detener_y_reproducir_si_hay_captura() {
    let mut cola = ColaComandos::nueva();
    manejar_f8(&mut cola, true);
    assert_eq!(
        cola.items,
        vec![ComandoAudio::Detener, ComandoAudio::Reproducir]
    );
}

#[test]
fn f8_sin_captura_solo_encola_detener() {
    let mut cola = ColaComandos::nueva();
    manejar_f8(&mut cola, false);
    assert_eq!(cola.items, vec![ComandoAudio::Detener]);
}

#[test]
fn f9_en_reposo_no_encola_nada() {
    let comp = EstadoCompartido::nueva();
    let mut cola = ColaComandos::nueva();
    manejar_f9(&comp, &mut cola);
    assert_eq!(cola.items.len(), 0);
}

#[test]
fn f9_reproduciendo_encola_toggle() {
    let mut comp = EstadoCompartido::nueva();
    let mut ctl = Controlador::nuevo();
    let _ = ctl.procesar_comando(&mut comp, ComandoAudio::Reproducir, true);
    let mut cola = ColaComandos::nueva();
    manejar_f9(&comp, &mut cola);
    assert_eq!(cola.items, vec![ComandoAudio::TogglePausa]);
}

#[test]
fn atajos_de_velocidad_navegan_los_presets() {
    let mut comp = EstadoCompartido::nueva();
    manejar_mas_rapido(&mut comp);
    assert_eq!(comp.velocidad, 80);
    manejar_mas_lento(&mut comp);
    assert_eq!(comp.velocidad, 100);
}

#[test]
fn paso_controlador_respeta_la_senal_de_salida() {
    let mut comp = EstadoCompartido::nueva();
    let mut ctl = Controlador::nuevo();
    let mut cola = ColaComandos::nueva();
    cola.enviar_comando(ComandoAudio::Reproducir);
    comp.debe_salir = true;
    let (seguir, accion) = ctl.paso_controlador(&mut comp, &mut cola, true, false);
    assert!(!seguir);
    assert_eq!(accion, AccionRecurso::Ninguna);
    assert_eq!(cola.items.len(), 1);
}

#[test]
fn paso_controlador_termina_con_el_canal_cerrado() {
    let mut comp = EstadoCompartido::nueva();
    let mut ctl = Controlador::nuevo();
    let mut cola = ColaComandos::nueva();
    cola.cerrar();
    let (seguir, accion) = ctl.paso_controlador(&mut comp, &mut cola, true, false);
    assert!(!seguir);
    assert_eq!(accion, AccionRecurso::Ninguna);
}

#[test]
fn paso_controlador_detecta_el_fin_en_un_tic() {
    let mut comp = EstadoCompartido::nueva();
    let mut ctl = Controlador::nuevo();
    let mut cola = ColaComandos::nueva();
    cola.enviar_comando(ComandoAudio::Reproducir);
    let (seguir, accion) = ctl.paso_controlador(&mut comp, &mut cola, true, false);
    assert!(seguir);
    assert_eq!(accion, AccionRecurso::Iniciar(0));
    assert_eq!(comp.estado, EstadoReproduccion::Reproduciendo);
    // Tic de plazo vencido con el recurso ya vacío: pasa a Idle.
    let (seguir, accion) = ctl.paso_controlador(&mut comp, &mut cola, true, true);
    assert!(seguir);
    assert_eq!(accion, AccionRecurso::Ninguna);
    assert_eq!(comp.estado, EstadoReproduccion::Idle);
}
