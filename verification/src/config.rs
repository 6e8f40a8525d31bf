//! Tabla de presets de velocidad y constantes de configuración del núcleo.

use vstd::prelude::*;

verus! {

/// Una entrada de la tabla de presets: etiqueta legible (ej. "x1.25") y
/// escala de duración (`length_scale` multiplicado por 100, guardado como
/// entero para que las lecturas compartidas sean de una sola palabra).
/// Una escala menor significa habla más rápida.
pub struct Preset {
    pub etiqueta: &'static str,
    pub escala: u32,
}

/// Tabla ordenada e inmutable de presets de velocidad, del más lento
/// (escala mayor) al más rápido (escala menor).
pub struct TablaPresets {
    pub entradas: Vec<Preset>,
}

/// Índice del preset por defecto (x1, velocidad normal).
pub const INDICE_PRESET_DEFECTO: usize = 2;

/// Velocidad inicial (`length_scale` × 100); coincide con la escala del
/// preset por defecto de la tabla predeterminada.
pub const VELOCIDAD_INICIAL: u32 = 100;

impl TablaPresets {
    /// Escalas de la tabla, en orden.
    pub open spec fn escalas(self) -> Seq<u32> {
        self.entradas@.map(|i: int, p: Preset| p.escala)
    }

    pub open spec fn len(self) -> nat {
        self.entradas@.len()
    }

    /// Invariante de la tabla: no vacía y con escalas estrictamente
    /// decrecientes (más lento primero). De aquí sale, en particular, que
    /// todas las escalas son distintas entre sí.
    pub open spec fn bien_formada(self) -> bool {
        &&& self.len() > 0
        &&& forall|i: int|
            0 <= i < self.len() - 1 ==> #[trigger] self.escalas()[i] > self.escalas()[i + 1]
    }

    /// Construye la tabla predeterminada de siete presets, de x0.5 a x3.
    pub fn nueva_predeterminada() -> (t: TablaPresets)
        ensures
            t.bien_formada(),
            t.len() == 7,
            t.escalas() =~= seq![200u32, 133u32, 100u32, 80u32, 67u32, 50u32, 33u32],
            t.entradas@[0].etiqueta@ == "x0.5"@,
            t.entradas@[1].etiqueta@ == "x0.75"@,
            t.entradas@[2].etiqueta@ == "x1"@,
            t.entradas@[3].etiqueta@ == "x1.25"@,
            t.entradas@[4].etiqueta@ == "x1.5"@,
            t.entradas@[5].etiqueta@ == "x2"@,
            t.entradas@[6].etiqueta@ == "x3"@,
            t.escalas()[INDICE_PRESET_DEFECTO as int] == VELOCIDAD_INICIAL,
    {
        let mut entradas: Vec<Preset> = Vec::new();
        entradas.push(Preset { etiqueta: "x0.5", escala: 200 });
        entradas.push(Preset { etiqueta: "x0.75", escala: 133 });
        entradas.push(Preset { etiqueta: "x1", escala: 100 });
        entradas.push(Preset { etiqueta: "x1.25", escala: 80 });
        entradas.push(Preset { etiqueta: "x1.5", escala: 67 });
        entradas.push(Preset { etiqueta: "x2", escala: 50 });
        entradas.push(Preset { etiqueta: "x3", escala: 33 });
        let t = TablaPresets { entradas };
        proof {
            assert(t.escalas() =~= seq![200u32, 133u32, 100u32, 80u32, 67u32, 50u32, 33u32]);
        }
        t
    }
}

/// Las escalas de una tabla bien formada son estrictamente decrecientes
/// también entre índices no adyacentes.
pub proof fn lemma_escalas_decrecientes(t: TablaPresets, i: int, j: int)
    requires
        t.bien_formada(),
        0 <= i < j < t.len(),
    ensures
        t.escalas()[i] > t.escalas()[j],
    decreases j - i,
{
    assert(t.escalas()[i] > t.escalas()[i + 1]);
    if i + 1 < j {
        lemma_escalas_decrecientes(t, i + 1, j);
    }
}

} // verus!
