//! Pruebas de las decisiones de la superficie de bandeja.

use tray_narrator::state::EstadoCompartido;
use tray_narrator::tray::{manejar_evento_bandeja, sincronizar_indice_velocidad, EventoBandeja};

#[test]
fn seleccion_de_preset_escribe_su_escala() {
    let mut comp = EstadoCompartido::nueva();
    manejar_evento_bandeja(&mut comp, EventoBandeja::SeleccionPreset(5));
    assert_eq!(comp.velocidad, 50);
    assert_eq!(comp.etiqueta_velocidad_actual(), "x2");
    assert!(!comp.debe_salir);
}

#[test]
fn seleccion_fuera_de_la_tabla_se_ignora() {
    let mut comp = EstadoCompartido::nueva();
    manejar_evento_bandeja(&mut comp, EventoBandeja::SeleccionPreset(9));
    assert_eq!(comp.velocidad, 100);
}

#[test]
fn salir_enciende_la_senal_sin_tocar_la_velocidad() {
    let mut comp = EstadoCompartido::nueva();
    manejar_evento_bandeja(&mut comp, EventoBandeja::Salir);
    assert!(comp.debe_salir);
    assert_eq!(comp.velocidad, 100);
}

#[test]
fn sincronizacion_al_dia_no_pide_nada() {
    let comp = EstadoCompartido::nueva();
    assert_eq!(sincronizar_indice_velocidad(&comp, 2), None);
}

#[test]
fn sincronizacion_tras_cambio_externo() {
    // Un atajo de teclado cambió la velocidad fuera del menú: la
    // sincronización pide reflejar el índice nuevo.
    let mut comp = EstadoCompartido::nueva();
    let _ = comp.establecer_velocidad(50);
    assert_eq!(sincronizar_indice_velocidad(&comp, 2), Some(5));
}
