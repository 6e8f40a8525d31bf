//! Estado compartido del núcleo, comandos de audio y navegación por presets
//! de velocidad.
//!
//! El estado global del programa original se reorganiza aquí como un manillar
//! explícito ([`EstadoCompartido`]) que se construye una vez al arrancar y se
//! pasa a cada productor de eventos y al controlador; así pueden coexistir
//! varias instancias independientes en las pruebas.

use vstd::prelude::*;

use crate::config::{lemma_escalas_decrecientes, TablaPresets, VELOCIDAD_INICIAL};

verus! {

/// Estados de reproducción. Solo el controlador de reproducción escribe este
/// valor; los demás hilos únicamente lo leen.
#[derive(Clone, Copy, PartialEq, Eq, Structural, Debug)]
pub enum EstadoReproduccion {
    Idle,
    Reproduciendo,
    Pausado,
}

/// Comandos que los productores de eventos envían al controlador de audio.
#[derive(Clone, Copy, PartialEq, Eq, Structural, Debug)]
pub enum ComandoAudio {
    /// Reproducir el audio recién sintetizado.
    Reproducir,
    /// Detener la reproducción actual.
    Detener,
    /// Pausar o reanudar la reproducción.
    TogglePausa,
}

/// Manillar del estado compartido: la tabla de presets, el estado de
/// reproducción, la velocidad actual y la señal de salida.
pub struct EstadoCompartido {
    pub tabla: TablaPresets,
    pub estado: EstadoReproduccion,
    /// Velocidad actual (`length_scale` × 100). La escriben solo los
    /// productores de eventos; nunca el controlador.
    pub velocidad: u32,
    /// Señal de terminación: se escribe una sola vez y nunca se repone.
    pub debe_salir: bool,
}

/// Distancia absoluta entre una escala de la tabla y un valor de velocidad.
pub open spec fn diferencia(escala: u32, valor: u32) -> int {
    if escala >= valor {
        escala - valor
    } else {
        valor - escala
    }
}

/// `r` es el índice cuya escala minimiza la distancia a `valor`, con los
/// empates resueltos hacia el índice menor.
pub open spec fn es_indice_mas_cercano(t: TablaPresets, valor: u32, r: int) -> bool {
    &&& 0 <= r < t.len()
    &&& forall|j: int|
        0 <= j < t.len() ==> diferencia(t.escalas()[r], valor) <= diferencia(
            #[trigger] t.escalas()[j],
            valor,
        )
    &&& forall|j: int|
        0 <= j < r ==> diferencia(#[trigger] t.escalas()[j], valor) > diferencia(
            t.escalas()[r],
            valor,
        )
}

/// El índice del preset más cercano a `valor` (único cuando existe).
pub open spec fn indice_preset(t: TablaPresets, valor: u32) -> int {
    choose|r: int| es_indice_mas_cercano(t, valor, r)
}

/// A lo sumo un índice satisface [`es_indice_mas_cercano`].
pub proof fn lemma_indice_unico(t: TablaPresets, valor: u32, a: int, b: int)
    requires
        es_indice_mas_cercano(t, valor, a),
        es_indice_mas_cercano(t, valor, b),
    ensures
        a == b,
{
    if a < b {
        assert(diferencia(t.escalas()[a], valor) > diferencia(t.escalas()[b], valor));
        assert(diferencia(t.escalas()[b], valor) <= diferencia(t.escalas()[a], valor));
    }
    if b < a {
        assert(diferencia(t.escalas()[b], valor) > diferencia(t.escalas()[a], valor));
        assert(diferencia(t.escalas()[a], valor) <= diferencia(t.escalas()[b], valor));
    }
}

/// Cuando la velocidad coincide exactamente con la escala del preset `i`,
/// el índice más cercano es `i` mismo.
pub proof fn lemma_indice_de_preset_exacto(t: TablaPresets, i: int)
    requires
        t.bien_formada(),
        0 <= i < t.len(),
    ensures
        es_indice_mas_cercano(t, t.escalas()[i], i),
        indice_preset(t, t.escalas()[i]) == i,
{
    let v = t.escalas()[i];
    assert(diferencia(t.escalas()[i], v) == 0);
    assert forall|j: int| 0 <= j < i implies diferencia(#[trigger] t.escalas()[j], v)
        > diferencia(t.escalas()[i], v) by {
        lemma_escalas_decrecientes(t, j, i);
    }
    assert(es_indice_mas_cercano(t, v, i));
    lemma_indice_unico(t, v, indice_preset(t, v), i);
}

/// Velocidad que queda tras pedir el preset siguiente más rápido: la escala
/// del índice siguiente, o la misma velocidad si ya se está en el extremo.
pub open spec fn velocidad_tras_mas_rapido(t: TablaPresets, v: u32) -> u32 {
    let i = indice_preset(t, v);
    if i + 1 < t.len() {
        t.escalas()[i + 1]
    } else {
        v
    }
}

/// Velocidad que queda tras pedir el preset siguiente más lento.
pub open spec fn velocidad_tras_mas_lento(t: TablaPresets, v: u32) -> u32 {
    let i = indice_preset(t, v);
    if i > 0 {
        t.escalas()[i - 1]
    } else {
        v
    }
}

/// `n` peticiones consecutivas de "más rápido" a partir de `v`.
pub open spec fn velocidad_tras_n_mas_rapido(t: TablaPresets, v: u32, n: nat) -> u32
    decreases n,
{
    if n == 0 {
        v
    } else {
        velocidad_tras_mas_rapido(t, velocidad_tras_n_mas_rapido(t, v, (n - 1) as nat))
    }
}

/// `n` peticiones consecutivas de "más lento" a partir de `v`.
pub open spec fn velocidad_tras_n_mas_lento(t: TablaPresets, v: u32, n: nat) -> u32
    decreases n,
{
    if n == 0 {
        v
    } else {
        velocidad_tras_mas_lento(t, velocidad_tras_n_mas_lento(t, v, (n - 1) as nat))
    }
}

/// Ley de navegación hacia más rápido: es monótona y no envuelve. Partiendo
/// de la escala del preset `i`, `n` peticiones consecutivas de "más rápido"
/// dejan la velocidad en la escala del preset `min(i + n, len - 1)`; en
/// particular, desde el preset más rápido la petición no tiene efecto.
pub proof fn lemma_navegacion_mas_rapido(t: TablaPresets, i: int, n: nat)
    requires
        t.bien_formada(),
        0 <= i < t.len(),
    ensures
        velocidad_tras_n_mas_rapido(t, t.escalas()[i], n) == t.escalas()[
            if i + n < t.len() { i + n } else { t.len() as int - 1 }
        ],
    decreases n,
{
    if n > 0 {
        lemma_navegacion_mas_rapido(t, i, (n - 1) as nat);
        let j: int = if i + (n - 1) < t.len() { i + n - 1 } else { t.len() as int - 1 };
        let v_med = t.escalas()[j];
        lemma_indice_de_preset_exacto(t, j);
    }
}

/// Ley de navegación hacia más lento: es monótona y no envuelve. Partiendo
/// de la escala del preset `i`, `n` peticiones consecutivas de "más lento"
/// dejan la velocidad en la escala del preset `max(i - n, 0)`; en particular,
/// desde el preset más lento la petición no tiene efecto.
pub proof fn lemma_navegacion_mas_lento(t: TablaPresets, i: int, n: nat)
    requires
        t.bien_formada(),
        0 <= i < t.len(),
    ensures
        velocidad_tras_n_mas_lento(t, t.escalas()[i], n) == t.escalas()[
            if i - n >= 0 { i - n } else { 0 }
        ],
    decreases n,
{
    if n > 0 {
        lemma_navegacion_mas_lento(t, i, (n - 1) as nat);
        let j: int = if i - (n - 1) >= 0 { i - n + 1 } else { 0 };
        let v_med = t.escalas()[j];
        lemma_indice_de_preset_exacto(t, j);
    }
}

/// Distancia absoluta entre dos valores, como entero de máquina.
fn diferencia_abs(a: u32, b: u32) -> (r: u32)
    ensures
        r == diferencia(a, b),
{
    if a >= b {
        a - b
    } else {
        b - a
    }
}

impl EstadoCompartido {
    /// Invariante del manillar: la tabla de presets está bien formada.
    pub open spec fn bien_formado(self) -> bool {
        self.tabla.bien_formada()
    }

    /// Construye el manillar inicial: tabla predeterminada, reproducción
    /// parada, velocidad normal y señal de salida apagada.
    pub fn nueva() -> (c: EstadoCompartido)
        ensures
            c.bien_formado(),
            c.tabla.len() == 7,
            c.tabla.escalas() =~= seq![200u32, 133u32, 100u32, 80u32, 67u32, 50u32, 33u32],
            c.estado is Idle,
            c.velocidad == VELOCIDAD_INICIAL,
            !c.debe_salir,
    {
        EstadoCompartido {
            tabla: TablaPresets::nueva_predeterminada(),
            estado: EstadoReproduccion::Idle,
            velocidad: VELOCIDAD_INICIAL,
            debe_salir: false,
        }
    }

    /// Establece la velocidad a un valor absoluto de `length_scale` × 100 y
    /// dice si el valor cambió (el llamante registra el cambio si procede).
    pub fn establecer_velocidad(&mut self, length_scale_x100: u32) -> (cambio: bool)
        ensures
            final(self).velocidad == length_scale_x100,
            cambio == (old(self).velocidad != length_scale_x100),
            final(self).tabla == old(self).tabla,
            final(self).estado == old(self).estado,
            final(self).debe_salir == old(self).debe_salir,
    {
        if self.velocidad != length_scale_x100 {
            self.velocidad = length_scale_x100;
            true
        } else {
            false
        }
    }

    /// Devuelve el índice del preset cuya escala está más cerca de la
    /// velocidad actual; los empates se resuelven hacia el índice menor.
    /// La velocidad puede no coincidir con ningún preset si se escribió
    /// directamente.
    pub fn indice_preset_actual(&self) -> (r: usize)
        requires
            self.bien_formado(),
        ensures
            es_indice_mas_cercano(self.tabla, self.velocidad, r as int),
            r as int == indice_preset(self.tabla, self.velocidad),
    {
        let n = self.tabla.entradas.len();
        let mut mejor: usize = 0;
        let mut i: usize = 1;
        while i < n
            invariant
                n == self.tabla.len(),
                1 <= i <= n,
                mejor < i,
                forall|j: int|
                    0 <= j < i ==> diferencia(self.tabla.escalas()[mejor as int], self.velocidad)
                        <= diferencia(#[trigger] self.tabla.escalas()[j], self.velocidad),
                forall|j: int|
                    0 <= j < mejor ==> diferencia(#[trigger] self.tabla.escalas()[j], self.velocidad)
                        > diferencia(self.tabla.escalas()[mejor as int], self.velocidad),
            decreases n - i,
        {
            let d_i = diferencia_abs(self.tabla.entradas[i].escala, self.velocidad);
            let d_mejor = diferencia_abs(self.tabla.entradas[mejor].escala, self.velocidad);
            if d_i < d_mejor {
                mejor = i;
            }
            i = i + 1;
        }
        proof {
            assert(es_indice_mas_cercano(self.tabla, self.velocidad, mejor as int));
            lemma_indice_unico(
                self.tabla,
                self.velocidad,
                indice_preset(self.tabla, self.velocidad),
                mejor as int,
            );
        }
        mejor
    }

    /// Devuelve la etiqueta del preset de velocidad actual (ej. "x1.25").
    pub fn etiqueta_velocidad_actual(&self) -> (r: &'static str)
        requires
            self.bien_formado(),
        ensures
            r@ == self.tabla.entradas@[indice_preset(self.tabla, self.velocidad)].etiqueta@,
    {
        let idx = self.indice_preset_actual();
        self.tabla.entradas[idx].etiqueta
    }

    /// Pasa al siguiente preset más rápido (mayor multiplicador, menor
    /// escala); en el extremo de la tabla la petición se absorbe sin efecto.
    pub fn velocidad_preset_mas_rapido(&mut self)
        requires
            old(self).bien_formado(),
        ensures
            final(self).velocidad == velocidad_tras_mas_rapido(
                old(self).tabla,
                old(self).velocidad,
            ),
            final(self).tabla == old(self).tabla,
            final(self).estado == old(self).estado,
            final(self).debe_salir == old(self).debe_salir,
    {
        let idx = self.indice_preset_actual();
        let n = self.tabla.entradas.len();
        if idx < n - 1 {
            let escala = self.tabla.entradas[idx + 1].escala;
            let _ = self.establecer_velocidad(escala);
        }
    }

    /// Pasa al siguiente preset más lento (menor multiplicador, mayor
    /// escala); en el extremo de la tabla la petición se absorbe sin efecto.
    pub fn velocidad_preset_mas_lento(&mut self)
        requires
            old(self).bien_formado(),
        ensures
            final(self).velocidad == velocidad_tras_mas_lento(
                old(self).tabla,
                old(self).velocidad,
            ),
            final(self).tabla == old(self).tabla,
            final(self).estado == old(self).estado,
            final(self).debe_salir == old(self).debe_salir,
    {
        let idx = self.indice_preset_actual();
        if idx > 0 {
            let escala = self.tabla.entradas[idx - 1].escala;
            let _ = self.establecer_velocidad(escala);
        }
    }
}

} // verus!
