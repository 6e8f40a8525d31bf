//! Núcleo de coordinación de un lector TTS de bandeja: máquina de estados de
//! reproducción, cola de comandos FIFO y tabla de presets de velocidad.
//!
//! Los colaboradores externos (captura de texto, síntesis de voz, salida de
//! audio, superficie de bandeja, registro) quedan fuera de este núcleo: el
//! núcleo decide, y el anfitrión ejecuta las acciones que el núcleo le indica.

pub mod config;
pub mod state;
pub mod cola;
pub mod audio;
pub mod hotkeys;
pub mod tray;
