//! Cola de comandos: canal FIFO sin límite, con varios productores y un
//! único consumidor (el controlador de reproducción).
//!
//! Este módulo modela el contenido del canal como la secuencia de comandos
//! pendientes. El anfitrión realiza la espera con plazo sobre un canal real;
//! aquí se especifica el orden: los envíos se añaden al final de uno en uno y
//! el consumidor retira siempre el primero, de modo que la cola nunca funde,
//! pierde ni reordena comandos individuales.

use vstd::prelude::*;

use crate::state::ComandoAudio;

verus! {

/// Resultado de una recepción del lado del consumidor.
#[derive(Clone, Copy, PartialEq, Eq, Structural, Debug)]
pub enum RecepcionComando {
    /// Llegó un comando.
    Comando(ComandoAudio),
    /// Venció el plazo de espera sin comando: un tic normal de sondeo.
    TiempoAgotado,
    /// El canal quedó cerrado de forma permanente.
    Cerrada,
}

/// La cola de comandos. Los productores llaman a [`ColaComandos::enviar_comando`];
/// el único consumidor llama a [`ColaComandos::recibir`].
pub struct ColaComandos {
    pub items: Vec<ComandoAudio>,
    pub cerrada: bool,
}

impl ColaComandos {
    /// Comandos pendientes, en orden de llegada.
    pub open spec fn pendientes(self) -> Seq<ComandoAudio> {
        self.items@
    }

    /// Crea una cola vacía y abierta.
    pub fn nueva() -> (c: ColaComandos)
        ensures
            c.pendientes().len() == 0,
            !c.cerrada,
    {
        ColaComandos { items: Vec::new(), cerrada: false }
    }

    /// Envía un comando a la cola. Nunca bloquea; si el consumidor cerró el
    /// canal, el envío se descarta en silencio (nadie escucha, y eso es
    /// benigno). Si no, el comando queda añadido al final, exactamente uno.
    pub fn enviar_comando(&mut self, comando: ComandoAudio)
        ensures
            final(self).cerrada == old(self).cerrada,
            !old(self).cerrada ==> final(self).pendientes() == old(self).pendientes().push(
                comando,
            ),
            old(self).cerrada ==> final(self).pendientes() == old(self).pendientes(),
    {
        if !self.cerrada {
            self.items.push(comando);
        }
    }

    /// Retira el primer comando pendiente, si lo hay. Sin comandos, devuelve
    /// [`RecepcionComando::Cerrada`] si el canal está cerrado y, si no,
    /// [`RecepcionComando::TiempoAgotado`], el tic normal con que el
    /// consumidor vuelve a sondear la señal de salida y el fin de la pista.
    pub fn recibir(&mut self) -> (r: RecepcionComando)
        ensures
            final(self).cerrada == old(self).cerrada,
            old(self).pendientes().len() > 0 ==> {
                &&& r == RecepcionComando::Comando(old(self).pendientes()[0])
                &&& final(self).pendientes() == old(self).pendientes().drop_first()
            },
            old(self).pendientes().len() == 0 ==> {
                &&& final(self).pendientes() == old(self).pendientes()
                &&& r == if old(self).cerrada {
                    RecepcionComando::Cerrada
                } else {
                    RecepcionComando::TiempoAgotado
                }
            },
    {
        if self.items.len() > 0 {
            let comando = self.items.remove(0);
            proof {
                assert(self.items@ =~= old(self).items@.drop_first());
            }
            RecepcionComando::Comando(comando)
        } else if self.cerrada {
            RecepcionComando::Cerrada
        } else {
            RecepcionComando::TiempoAgotado
        }
    }

    /// Cierra el canal de forma permanente (la destrucción del extremo
    /// consumidor en el programa real). Los comandos ya encolados se
    /// conservan y pueden seguir retirándose.
    pub fn cerrar(&mut self)
        ensures
            final(self).cerrada,
            final(self).pendientes() == old(self).pendientes(),
    {
        self.cerrada = true;
    }
}

/// `c` es una intercalación de `a` y `b`: cada comando de `c` procede de una
/// de las dos secuencias, conservando el orden interno de cada una.
pub open spec fn es_intercalado(
    c: Seq<ComandoAudio>,
    a: Seq<ComandoAudio>,
    b: Seq<ComandoAudio>,
) -> bool
    decreases c.len(),
{
    if a.len() == 0 && b.len() == 0 {
        c.len() == 0
    } else {
        c.len() > 0 && {
            ||| (a.len() > 0 && c[0] == a[0] && es_intercalado(c.drop_first(), a.drop_first(), b))
            ||| (b.len() > 0 && c[0] == b[0] && es_intercalado(c.drop_first(), a, b.drop_first()))
        }
    }
}

/// `a` aparece dentro de `c` en el mismo orden, quizá con huecos.
pub open spec fn es_subsecuencia(a: Seq<ComandoAudio>, c: Seq<ComandoAudio>) -> bool
    decreases c.len(),
{
    if a.len() == 0 {
        true
    } else if c.len() == 0 {
        false
    } else {
        ||| (c[0] == a[0] && es_subsecuencia(a.drop_first(), c.drop_first()))
        ||| es_subsecuencia(a, c.drop_first())
    }
}

/// Ley de granularidad de la cola: si dos productores concurrentes envían
/// las secuencias `a` y `b` y el canal serializa sus envíos en la
/// intercalación `c`, entonces `c` contiene exactamente un comando por cada
/// envío (nada se funde ni se pierde) y conserva el orden interno de cada
/// productor (nada se reordena). Junto con el contrato de
/// [`ColaComandos::enviar_comando`], que añade exactamente el comando enviado
/// al final, esto fija el contenido de la cola tras cualquier carrera.
pub proof fn lemma_intercalado_granularidad(
    c: Seq<ComandoAudio>,
    a: Seq<ComandoAudio>,
    b: Seq<ComandoAudio>,
)
    requires
        es_intercalado(c, a, b),
    ensures
        c.len() == a.len() + b.len(),
        es_subsecuencia(a, c),
        es_subsecuencia(b, c),
    decreases c.len(),
{
    if a.len() == 0 && b.len() == 0 {
    } else {
        if a.len() > 0 && c[0] == a[0] && es_intercalado(c.drop_first(), a.drop_first(), b) {
            lemma_intercalado_granularidad(c.drop_first(), a.drop_first(), b);
        } else {
            lemma_intercalado_granularidad(c.drop_first(), a, b.drop_first());
        }
    }
}

} // verus!
