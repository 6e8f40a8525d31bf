//! Controlador de reproducción: la máquina de estados que consume la cola de
//! comandos, es dueña exclusiva del recurso de audio y detecta por sondeo el
//! fin natural de la pista.
//!
//! El trabajo externo (adquirir el dispositivo de salida, abrir y decodificar
//! el audio, parar o pausar el sumidero real) lo realiza el anfitrión: el
//! controlador recibe como argumentos el resultado de la adquisición y el
//! informe de vaciado, decide la transición y devuelve la acción a ejecutar.
//! Así cada decisión queda verificada para cualquier desenlace del exterior.

use vstd::prelude::*;

use crate::cola::{ColaComandos, RecepcionComando};
use crate::state::{ComandoAudio, EstadoCompartido, EstadoReproduccion};

verus! {

/// Acción sobre el recurso de audio que el anfitrión debe ejecutar después
/// de que el controlador procese un comando.
#[derive(Clone, Copy, PartialEq, Eq, Structural, Debug)]
pub enum AccionRecurso {
    /// Adoptar como recurso activo el recién adquirido, con esta generación.
    Iniciar(u64),
    /// Parar y descartar el recurso activo.
    Descartar,
    /// Suspender el recurso activo.
    Pausar,
    /// Reanudar el recurso activo.
    Reanudar,
    /// Nada que hacer.
    Ninguna,
}

/// El controlador de reproducción. `recurso` guarda la generación del
/// recurso de audio activo, si lo hay; cada reproducción nueva recibe una
/// generación fresca, de modo que un informe de vaciado de un recurso ya
/// reemplazado se distingue del recurso vigente y nunca lo afecta.
pub struct Controlador {
    pub recurso: Option<u64>,
    pub siguiente_generacion: u64,
}

/// Transición del estado de reproducción al procesar un comando; la fila
/// "Reproducir" depende de si la adquisición del recurso tuvo éxito en todos
/// sus pasos (si falla, el estado queda como estaba antes del intento).
pub open spec fn transicion(
    e: EstadoReproduccion,
    comando: ComandoAudio,
    adquisicion_ok: bool,
) -> EstadoReproduccion {
    match comando {
        ComandoAudio::Reproducir => if adquisicion_ok {
            EstadoReproduccion::Reproduciendo
        } else {
            e
        },
        ComandoAudio::Detener => EstadoReproduccion::Idle,
        ComandoAudio::TogglePausa => match e {
            EstadoReproduccion::Reproduciendo => EstadoReproduccion::Pausado,
            EstadoReproduccion::Pausado => EstadoReproduccion::Reproduciendo,
            EstadoReproduccion::Idle => EstadoReproduccion::Idle,
        },
    }
}

/// Recurso activo tras procesar un comando: Reproducir con éxito lo
/// reemplaza por la generación fresca, Detener lo descarta, y los demás
/// casos lo dejan como estaba.
pub open spec fn recurso_tras(
    recurso: Option<u64>,
    comando: ComandoAudio,
    adquisicion_ok: bool,
    generacion: u64,
) -> Option<u64> {
    match comando {
        ComandoAudio::Reproducir => if adquisicion_ok {
            Some(generacion)
        } else {
            recurso
        },
        ComandoAudio::Detener => None,
        ComandoAudio::TogglePausa => recurso,
    }
}

/// Acción que el anfitrión debe ejecutar tras procesar un comando.
pub open spec fn accion_tras(
    e: EstadoReproduccion,
    tiene_recurso: bool,
    comando: ComandoAudio,
    adquisicion_ok: bool,
    generacion: u64,
) -> AccionRecurso {
    match comando {
        ComandoAudio::Reproducir => if adquisicion_ok {
            AccionRecurso::Iniciar(generacion)
        } else {
            AccionRecurso::Ninguna
        },
        ComandoAudio::Detener => if tiene_recurso {
            AccionRecurso::Descartar
        } else {
            AccionRecurso::Ninguna
        },
        ComandoAudio::TogglePausa => match e {
            EstadoReproduccion::Reproduciendo => AccionRecurso::Pausar,
            EstadoReproduccion::Pausado => AccionRecurso::Reanudar,
            EstadoReproduccion::Idle => AccionRecurso::Ninguna,
        },
    }
}

/// Estado tras la comprobación de fin de pista que sigue a cada evento de la
/// cola: solo pasa a Idle si hay recurso vigente, está vacío y el estado
/// registrado sigue siendo Reproduciendo.
pub open spec fn deteccion_fin(
    e: EstadoReproduccion,
    tiene_recurso: bool,
    vacio: bool,
) -> EstadoReproduccion {
    if tiene_recurso && vacio && e is Reproduciendo {
        EstadoReproduccion::Idle
    } else {
        e
    }
}

/// Estado tras procesar en orden una secuencia de pares (comando, éxito de
/// la adquisición), empezando en `e`.
pub open spec fn estado_tras_secuencia(
    e: EstadoReproduccion,
    eventos: Seq<(ComandoAudio, bool)>,
) -> EstadoReproduccion
    decreases eventos.len(),
{
    if eventos.len() == 0 {
        e
    } else {
        estado_tras_secuencia(transicion(e, eventos[0].0, eventos[0].1), eventos.drop_first())
    }
}

/// El controlador y el estado compartido son coherentes: el estado es Idle
/// exactamente cuando no hay recurso activo.
pub open spec fn coherente(ctl: Controlador, comp: EstadoCompartido) -> bool {
    (comp.estado is Idle) <==> (ctl.recurso is None)
}

/// Ley de la tabla de transiciones, fila por fila: para todo estado previo,
/// el estado tras procesar cada comando es exactamente el de la tabla.
pub proof fn lemma_tabla_transiciones(
    e: EstadoReproduccion,
    comando: ComandoAudio,
    adquisicion_ok: bool,
)
    ensures
        comando is Detener ==> transicion(e, comando, adquisicion_ok) is Idle,
        comando is Reproducir && adquisicion_ok ==> transicion(e, comando, adquisicion_ok)
            is Reproduciendo,
        comando is Reproducir && !adquisicion_ok ==> transicion(e, comando, adquisicion_ok) == e,
        comando is TogglePausa && e is Reproduciendo ==> transicion(e, comando, adquisicion_ok)
            is Pausado,
        comando is TogglePausa && e is Pausado ==> transicion(e, comando, adquisicion_ok)
            is Reproduciendo,
        comando is TogglePausa && e is Idle ==> transicion(e, comando, adquisicion_ok) is Idle,
{
}

/// Ley: Detener siempre deja el estado en Idle, sea cual fuere el estado
/// previo, y siempre descarta la referencia al recurso activo.
pub proof fn lemma_detener_siempre_idle(
    e: EstadoReproduccion,
    recurso: Option<u64>,
    adquisicion_ok: bool,
    generacion: u64,
)
    ensures
        transicion(e, ComandoAudio::Detener, adquisicion_ok) is Idle,
        recurso_tras(recurso, ComandoAudio::Detener, adquisicion_ok, generacion) is None,
{
}

/// Ley: cuando la adquisición tiene éxito en todos sus pasos, Reproducir
/// siempre deja el estado en Reproduciendo, sea cual fuere el estado previo
/// — incluso Reproduciendo: el recurso anterior queda descartado y el activo
/// pasa a ser el recién adquirido, de generación fresca.
pub proof fn lemma_reproducir_siempre_reproduce(
    e: EstadoReproduccion,
    recurso: Option<u64>,
    generacion: u64,
)
    requires
        recurso matches Some(g) ==> g < generacion,
    ensures
        transicion(e, ComandoAudio::Reproducir, true) is Reproduciendo,
        recurso_tras(recurso, ComandoAudio::Reproducir, true, generacion) == Some(generacion),
        recurso_tras(recurso, ComandoAudio::Reproducir, true, generacion) != recurso,
{
}

/// Ley: procesar una secuencia es aplicar la tabla comando a comando — el
/// estado tras cada prefijo es la transición de la tabla aplicada al estado
/// tras el prefijo anterior.
pub proof fn lemma_secuencia_paso(
    e: EstadoReproduccion,
    eventos: Seq<(ComandoAudio, bool)>,
    k: int,
)
    requires
        0 <= k < eventos.len(),
    ensures
        estado_tras_secuencia(e, eventos.take(k + 1)) == transicion(
            estado_tras_secuencia(e, eventos.take(k)),
            eventos[k].0,
            eventos[k].1,
        ),
    decreases k,
{
    let e1 = transicion(e, eventos[0].0, eventos[0].1);
    if k == 0 {
        assert(eventos.take(1)[0] == eventos[0]);
        assert(eventos.take(1).drop_first() =~= Seq::<(ComandoAudio, bool)>::empty());
        assert(estado_tras_secuencia(e, eventos.take(1)) == estado_tras_secuencia(
            e1,
            eventos.take(1).drop_first(),
        ));
        assert(estado_tras_secuencia(e1, Seq::<(ComandoAudio, bool)>::empty()) == e1);
        assert(eventos.take(0) =~= Seq::<(ComandoAudio, bool)>::empty());
        assert(estado_tras_secuencia(e, eventos.take(0)) == e);
    } else {
        assert(eventos.take(k + 1)[0] == eventos[0]);
        assert(eventos.take(k)[0] == eventos[0]);
        assert(eventos.drop_first()[k - 1] == eventos[k]);
        assert(eventos.take(k + 1).drop_first() =~= eventos.drop_first().take(k));
        assert(eventos.take(k).drop_first() =~= eventos.drop_first().take(k - 1));
        assert(estado_tras_secuencia(e, eventos.take(k + 1)) == estado_tras_secuencia(
            e1,
            eventos.drop_first().take(k),
        ));
        assert(estado_tras_secuencia(e, eventos.take(k)) == estado_tras_secuencia(
            e1,
            eventos.drop_first().take(k - 1),
        ));
        lemma_secuencia_paso(e1, eventos.drop_first(), k - 1);
    }
}

impl Controlador {
    /// Invariante: la generación del recurso activo, si lo hay, es anterior
    /// al contador de generaciones.
    pub open spec fn bien_formado(self) -> bool {
        self.recurso matches Some(g) ==> g < self.siguiente_generacion
    }

    /// Crea el controlador inicial, sin recurso activo.
    pub fn nuevo() -> (c: Controlador)
        ensures
            c.bien_formado(),
            c.recurso is None,
            c.siguiente_generacion == 0,
    {
        Controlador { recurso: None, siguiente_generacion: 0 }
    }

    /// Procesa un comando recién retirado de la cola y devuelve la acción
    /// que el anfitrión debe ejecutar sobre el recurso de audio.
    ///
    /// Para Reproducir, el anfitrión ya paró el recurso anterior e intentó
    /// la adquisición completa (dispositivo, sumidero, apertura,
    /// decodificación); `adquisicion_ok` dice si todos los pasos tuvieron
    /// éxito. Si alguno falló, el intento se abandona y el estado queda como
    /// estaba antes; el fallo nunca escala.
    pub fn procesar_comando(
        &mut self,
        comp: &mut EstadoCompartido,
        comando: ComandoAudio,
        adquisicion_ok: bool,
    ) -> (accion: AccionRecurso)
        requires
            old(self).bien_formado(),
            coherente(*old(self), *old(comp)),
            old(self).siguiente_generacion < u64::MAX,
        ensures
            final(self).bien_formado(),
            coherente(*final(self), *final(comp)),
            final(comp).tabla == old(comp).tabla,
            final(comp).velocidad == old(comp).velocidad,
            final(comp).debe_salir == old(comp).debe_salir,
            final(comp).estado == transicion(old(comp).estado, comando, adquisicion_ok),
            final(self).recurso == recurso_tras(
                old(self).recurso,
                comando,
                adquisicion_ok,
                old(self).siguiente_generacion,
            ),
            accion == accion_tras(
                old(comp).estado,
                old(self).recurso is Some,
                comando,
                adquisicion_ok,
                old(self).siguiente_generacion,
            ),
            final(self).siguiente_generacion == if comando is Reproducir && adquisicion_ok {
                old(self).siguiente_generacion + 1
            } else {
                old(self).siguiente_generacion as int
            },
    {
        match comando {
            ComandoAudio::Reproducir => {
                if adquisicion_ok {
                    let generacion = self.siguiente_generacion;
                    self.recurso = Some(generacion);
                    self.siguiente_generacion = generacion + 1;
                    comp.estado = EstadoReproduccion::Reproduciendo;
                    AccionRecurso::Iniciar(generacion)
                } else {
                    AccionRecurso::Ninguna
                }
            },
            ComandoAudio::Detener => {
                let habia_recurso = self.recurso.is_some();
                self.recurso = None;
                comp.estado = EstadoReproduccion::Idle;
                if habia_recurso {
                    AccionRecurso::Descartar
                } else {
                    AccionRecurso::Ninguna
                }
            },
            ComandoAudio::TogglePausa => {
                match comp.estado {
                    EstadoReproduccion::Reproduciendo => {
                        comp.estado = EstadoReproduccion::Pausado;
                        AccionRecurso::Pausar
                    },
                    EstadoReproduccion::Pausado => {
                        comp.estado = EstadoReproduccion::Reproduciendo;
                        AccionRecurso::Reanudar
                    },
                    EstadoReproduccion::Idle => AccionRecurso::Ninguna,
                }
            },
        }
    }

    /// Comprobación de fin de pista, tras cada evento de la cola (también
    /// tras los tics de plazo vencido). `generacion` identifica el recurso
    /// del que el anfitrión informa y `vacio` dice si ya no tiene datos en
    /// cola. Solo un informe del recurso vigente, vacío y con el estado aún
    /// en Reproduciendo pasa el estado a Idle y descarta la referencia; un
    /// informe rezagado de un recurso ya reemplazado nunca hace retroceder
    /// una reproducción nueva.
    pub fn detectar_fin(
        &mut self,
        comp: &mut EstadoCompartido,
        generacion: u64,
        vacio: bool,
    )
        requires
            old(self).bien_formado(),
            coherente(*old(self), *old(comp)),
        ensures
            final(self).bien_formado(),
            coherente(*final(self), *final(comp)),
            final(comp).tabla == old(comp).tabla,
            final(comp).velocidad == old(comp).velocidad,
            final(comp).debe_salir == old(comp).debe_salir,
            final(self).siguiente_generacion == old(self).siguiente_generacion,
            (old(self).recurso == Some(generacion) && vacio && old(comp).estado is Reproduciendo)
                ==> {
                &&& final(comp).estado is Idle
                &&& final(self).recurso is None
            },
            !(old(self).recurso == Some(generacion) && vacio && old(comp).estado is Reproduciendo)
                ==> {
                &&& final(comp).estado == old(comp).estado
                &&& final(self).recurso == old(self).recurso
            },
    {
        let es_vigente = match self.recurso {
            Some(g) => g == generacion,
            None => false,
        };
        if es_vigente && vacio && comp.estado == EstadoReproduccion::Reproduciendo {
            comp.estado = EstadoReproduccion::Idle;
            self.recurso = None;
        }
    }

    /// Procesa en orden una secuencia de pares (comando, éxito de la
    /// adquisición): el estado final es el pliegue de la tabla de
    /// transiciones sobre la secuencia, empezando por el estado previo.
    pub fn procesar_secuencia(
        &mut self,
        comp: &mut EstadoCompartido,
        eventos: &Vec<(ComandoAudio, bool)>,
    )
        requires
            old(self).bien_formado(),
            coherente(*old(self), *old(comp)),
            old(self).siguiente_generacion + eventos@.len() <= u64::MAX,
        ensures
            final(self).bien_formado(),
            coherente(*final(self), *final(comp)),
            final(comp).tabla == old(comp).tabla,
            final(comp).velocidad == old(comp).velocidad,
            final(comp).debe_salir == old(comp).debe_salir,
            final(comp).estado == estado_tras_secuencia(old(comp).estado, eventos@),
    {
        let n = eventos.len();
        let mut i: usize = 0;
        proof {
            assert(eventos@.skip(0) =~= eventos@);
        }
        while i < n
            invariant
                n == eventos@.len(),
                0 <= i <= n,
                self.bien_formado(),
                coherente(*self, *comp),
                self.siguiente_generacion + (n - i) <= u64::MAX,
                comp.tabla == old(comp).tabla,
                comp.velocidad == old(comp).velocidad,
                comp.debe_salir == old(comp).debe_salir,
                estado_tras_secuencia(old(comp).estado, eventos@) == estado_tras_secuencia(
                    comp.estado,
                    eventos@.skip(i as int),
                ),
            decreases n - i,
        {
            let par = eventos[i];
            proof {
                assert(eventos@.skip(i as int)[0] == eventos@[i as int]);
                assert(eventos@.skip(i as int).drop_first() =~= eventos@.skip(i as int + 1));
            }
            let _ = self.procesar_comando(comp, par.0, par.1);
            i = i + 1;
        }
        proof {
            assert(eventos@.skip(n as int) =~= Seq::<(ComandoAudio, bool)>::empty());
        }
    }

    /// Una vuelta del bucle del controlador: comprobar la señal de salida,
    /// esperar un evento de la cola (comando, tic de plazo o cierre),
    /// procesarlo y sondear el fin de pista del recurso vigente. Devuelve si
    /// el bucle debe continuar y la acción a ejecutar sobre el recurso.
    pub fn paso_controlador(
        &mut self,
        comp: &mut EstadoCompartido,
        cola: &mut ColaComandos,
        adquisicion_ok: bool,
        recurso_vacio: bool,
    ) -> (r: (bool, AccionRecurso))
        requires
            old(self).bien_formado(),
            coherente(*old(self), *old(comp)),
            old(self).siguiente_generacion < u64::MAX,
        ensures
            final(self).bien_formado(),
            coherente(*final(self), *final(comp)),
            final(comp).tabla == old(comp).tabla,
            final(comp).velocidad == old(comp).velocidad,
            final(comp).debe_salir == old(comp).debe_salir,
            final(cola).cerrada == old(cola).cerrada,
            old(comp).debe_salir ==> {
                &&& *final(self) == *old(self)
                &&& final(comp).estado == old(comp).estado
                &&& final(cola).pendientes() == old(cola).pendientes()
                &&& r == (false, AccionRecurso::Ninguna)
            },
            final(self).siguiente_generacion == if (!old(comp).debe_salir && old(
                cola,
            ).pendientes().len() > 0 && old(cola).pendientes()[0] is Reproducir
                && adquisicion_ok) {
                old(self).siguiente_generacion + 1
            } else {
                old(self).siguiente_generacion as int
            },
            !old(comp).debe_salir && old(cola).pendientes().len() > 0 ==> {
                let tras_comando = recurso_tras(
                    old(self).recurso,
                    old(cola).pendientes()[0],
                    adquisicion_ok,
                    old(self).siguiente_generacion,
                );
                let estado_tras = transicion(
                    old(comp).estado,
                    old(cola).pendientes()[0],
                    adquisicion_ok,
                );
                &&& final(cola).pendientes() == old(cola).pendientes().drop_first()
                &&& final(self).recurso == if tras_comando is Some && recurso_vacio && estado_tras
                    is Reproduciendo {
                    None::<u64>
                } else {
                    tras_comando
                }
                &&& final(comp).estado == deteccion_fin(
                    transicion(
                        old(comp).estado,
                        old(cola).pendientes()[0],
                        adquisicion_ok,
                    ),
                    recurso_tras(
                        old(self).recurso,
                        old(cola).pendientes()[0],
                        adquisicion_ok,
                        old(self).siguiente_generacion,
                    ) is Some,
                    recurso_vacio,
                )
                &&& r.0 == true
                &&& r.1 == accion_tras(
                    old(comp).estado,
                    old(self).recurso is Some,
                    old(cola).pendientes()[0],
                    adquisicion_ok,
                    old(self).siguiente_generacion,
                )
            },
            !old(comp).debe_salir && old(cola).pendientes().len() == 0 && !old(cola).cerrada ==> {
                &&& final(cola).pendientes() == old(cola).pendientes()
                &&& final(comp).estado == deteccion_fin(
                    old(comp).estado,
                    old(self).recurso is Some,
                    recurso_vacio,
                )
                &&& final(self).recurso == if old(self).recurso is Some && recurso_vacio && old(
                    comp,
                ).estado is Reproduciendo {
                    None::<u64>
                } else {
                    old(self).recurso
                }
                &&& r == (true, AccionRecurso::Ninguna)
            },
            !old(comp).debe_salir && old(cola).pendientes().len() == 0 && old(cola).cerrada ==> {
                &&& *final(self) == *old(self)
                &&& final(comp).estado == old(comp).estado
                &&& final(cola).pendientes() == old(cola).pendientes()
                &&& r == (false, AccionRecurso::Ninguna)
            },
    {
        if comp.debe_salir {
            return (false, AccionRecurso::Ninguna);
        }
        let accion = match cola.recibir() {
            RecepcionComando::Comando(comando) => {
                self.procesar_comando(comp, comando, adquisicion_ok)
            },
            RecepcionComando::TiempoAgotado => AccionRecurso::Ninguna,
            RecepcionComando::Cerrada => {
                return (false, AccionRecurso::Ninguna);
            },
        };
        let recurso_actual = self.recurso;
        if let Some(generacion) = recurso_actual {
            self.detectar_fin(comp, generacion, recurso_vacio);
        }
        (true, accion)
    }
}

} // verus!
