//! The effect chain edited by the effect panel: effect kinds, effect
//! instances with their parameters, the ordered chain, and the panel's queue
//! of actions for the renderer.
//!
//! Floating-point values (intensity, parameter values) are held as their
//! IEEE-754 single-precision bit patterns (`f32::to_bits`); the chain only
//! stores and moves them.

use vstd::prelude::*;
use crate::text::{contains_seq, str_contains, str_eq, to_lowercase, unicode_lowercase};

verus! {

/// Kinds of effect (mirror of the renderer's effect kinds).
#[derive(Clone, Copy, Debug, PartialEq, Eq, Hash, Structural)]
pub enum EffectType {
    ColorAdjust,
    Blur,
    ChromaticAberration,
    EdgeDetect,
    Glow,
    Kaleidoscope,
    Invert,
    Pixelate,
    Vignette,
    FilmGrain,
    Custom,
}

/// The emoji shown beside each effect kind.
pub open spec fn effect_icon(t: EffectType) -> Seq<char> {
    match t {
        EffectType::ColorAdjust => "🎨"@,
        EffectType::Blur => "🌫️"@,
        EffectType::ChromaticAberration => "🌈"@,
        EffectType::EdgeDetect => "📐"@,
        EffectType::Glow => "✨"@,
        EffectType::Kaleidoscope => "🔮"@,
        EffectType::Invert => "🔄"@,
        EffectType::Pixelate => "🟩"@,
        EffectType::Vignette => "⭕"@,
        EffectType::FilmGrain => "📽️"@,
        EffectType::Custom => "⚙️"@,
    }
}

/// The localisation key of each effect kind's display name.
pub open spec fn effect_name_key(t: EffectType) -> Seq<char> {
    match t {
        EffectType::ColorAdjust => "effect-name-color-adjust"@,
        EffectType::Blur => "effect-name-blur"@,
        EffectType::ChromaticAberration => "effect-name-chromatic-aberration"@,
        EffectType::EdgeDetect => "effect-name-edge-detect"@,
        EffectType::Glow => "effect-name-glow"@,
        EffectType::Kaleidoscope => "effect-name-kaleidoscope"@,
        EffectType::Invert => "effect-name-invert"@,
        EffectType::Pixelate => "effect-name-pixelate"@,
        EffectType::Vignette => "effect-name-vignette"@,
        EffectType::FilmGrain => "effect-name-film-grain"@,
        EffectType::Custom => "effect-name-custom"@,
    }
}

/// The kinds offered in the add-effect menu, in menu order: every kind but
/// `Custom`.
pub open spec fn menu_effect_types() -> Seq<EffectType> {
    seq![
        EffectType::ColorAdjust,
        EffectType::Blur,
        EffectType::ChromaticAberration,
        EffectType::EdgeDetect,
        EffectType::Glow,
        EffectType::Kaleidoscope,
        EffectType::Invert,
        EffectType::Pixelate,
        EffectType::Vignette,
        EffectType::FilmGrain,
    ]
}

impl EffectType {
    /// The emoji of this kind.
    pub fn icon(&self) -> (s: &'static str)
        ensures
            s@ == effect_icon(*self),
    {
        match self {
            EffectType::ColorAdjust => "🎨",
            EffectType::Blur => "🌫️",
            EffectType::ChromaticAberration => "🌈",
            EffectType::EdgeDetect => "📐",
            EffectType::Glow => "✨",
            EffectType::Kaleidoscope => "🔮",
            EffectType::Invert => "🔄",
            EffectType::Pixelate => "🟩",
            EffectType::Vignette => "⭕",
            EffectType::FilmGrain => "📽️",
            EffectType::Custom => "⚙️",
        }
    }

    /// The localisation key of this kind's display name.
    pub fn name_key(&self) -> (s: &'static str)
        ensures
            s@ == effect_name_key(*self),
    {
        match self {
            EffectType::ColorAdjust => "effect-name-color-adjust",
            EffectType::Blur => "effect-name-blur",
            EffectType::ChromaticAberration => "effect-name-chromatic-aberration",
            EffectType::EdgeDetect => "effect-name-edge-detect",
            EffectType::Glow => "effect-name-glow",
            EffectType::Kaleidoscope => "effect-name-kaleidoscope",
            EffectType::Invert => "effect-name-invert",
            EffectType::Pixelate => "effect-name-pixelate",
            EffectType::Vignette => "effect-name-vignette",
            EffectType::FilmGrain => "effect-name-film-grain",
            EffectType::Custom => "effect-name-custom",
        }
    }

    /// The kinds of the add-effect menu, in order.
    pub fn all() -> (v: &'static [EffectType])
        ensures
            v@ == menu_effect_types(),
    {
        let v: &'static [EffectType] = &[
            EffectType::ColorAdjust,
            EffectType::Blur,
            EffectType::ChromaticAberration,
            EffectType::EdgeDetect,
            EffectType::Glow,
            EffectType::Kaleidoscope,
            EffectType::Invert,
            EffectType::Pixelate,
            EffectType::Vignette,
            EffectType::FilmGrain,
        ];
        assert(v@ =~= menu_effect_types());
        v
    }
}

/// Bit pattern of `0.0f32`.
pub const F32_ZERO: u32 = 0x0000_0000;
/// Bit pattern of `1.0f32`.
pub const F32_ONE: u32 = 0x3F80_0000;
/// Bit pattern of `0.01f32`.
pub const F32_0_01: u32 = 0x3C23_D70A;
/// Bit pattern of `0.1f32`.
pub const F32_0_1: u32 = 0x3DCC_CCCD;
/// Bit pattern of `0.5f32`.
pub const F32_0_5: u32 = 0x3F00_0000;
/// Bit pattern of `5.0f32`.
pub const F32_5: u32 = 0x40A0_0000;
/// Bit pattern of `6.0f32`.
pub const F32_6: u32 = 0x40C0_0000;
/// Bit pattern of `8.0f32`.
pub const F32_8: u32 = 0x4100_0000;
/// Bit pattern of `10.0f32`.
pub const F32_10: u32 = 0x4120_0000;

/// One effect of the chain.
#[derive(Clone, Debug)]
pub struct UIEffect {
    pub id: u64,
    pub effect_type: EffectType,
    pub enabled: bool,
    /// Bit pattern of the `f32` intensity.
    pub intensity: u32,
    pub expanded: bool,
    /// Named parameters with the bit patterns of their `f32` values; a name
    /// stands for the value of its first entry.
    pub parameters: Vec<(String, u32)>,
}

/// The parameters as (name, bits) pairs of texts.
pub open spec fn params_view(p: Seq<(String, u32)>) -> Seq<(Seq<char>, u32)> {
    p.map_values(|e: (String, u32)| (e.0@, e.1))
}

/// The value of parameter `name`: that of its first entry.
pub open spec fn param_lookup(p: Seq<(Seq<char>, u32)>, name: Seq<char>) -> Option<u32>
    decreases p.len(),
{
    if p.len() == 0 {
        None
    } else if p[0].0 == name {
        Some(p[0].1)
    } else {
        param_lookup(p.subrange(1, p.len() as int), name)
    }
}

/// The parameters a new effect of kind `t` starts with.
pub open spec fn default_params(t: EffectType) -> Seq<(Seq<char>, u32)> {
    match t {
        EffectType::ColorAdjust => seq![
            ("brightness"@, F32_ZERO),
            ("contrast"@, F32_ONE),
            ("saturation"@, F32_ONE),
        ],
        EffectType::Blur => seq![("radius"@, F32_5)],
        EffectType::ChromaticAberration => seq![("amount"@, F32_0_01)],
        EffectType::Glow => seq![("threshold"@, F32_0_5), ("radius"@, F32_10)],
        EffectType::Kaleidoscope => seq![("segments"@, F32_6), ("rotation"@, F32_ZERO)],
        EffectType::Pixelate => seq![("pixel_size"@, F32_8)],
        EffectType::Vignette => seq![("radius"@, F32_0_5), ("softness"@, F32_0_5)],
        EffectType::FilmGrain => seq![("amount"@, F32_0_1), ("speed"@, F32_ONE)],
        _ => seq![],
    }
}

/// `e` is a freshly made effect: this id and kind, enabled, full intensity,
/// expanded, with the kind's default parameters.
pub open spec fn is_new_effect(e: UIEffect, id: u64, t: EffectType) -> bool {
    &&& e.id == id
    &&& e.effect_type == t
    &&& e.enabled
    &&& e.intensity == F32_ONE
    &&& e.expanded
    &&& params_view(e.parameters@) == default_params(t)
}

/// No two parameters share a name.
pub open spec fn names_distinct(p: Seq<(Seq<char>, u32)>) -> bool {
    forall|a: int, b: int| 0 <= a < b < p.len() ==> p[a].0 != p[b].0
}

proof fn lemma_default_names_distinct(t: EffectType)
    ensures
        names_distinct(default_params(t)),
{
    reveal_strlit("brightness");
    reveal_strlit("contrast");
    reveal_strlit("saturation");
    reveal_strlit("threshold");
    reveal_strlit("radius");
    reveal_strlit("segments");
    reveal_strlit("rotation");
    reveal_strlit("softness");
    reveal_strlit("amount");
    reveal_strlit("speed");
    assert("brightness"@[0] != "saturation"@[0]);
    assert("segments"@[0] != "rotation"@[0]);
    assert("brightness"@.len() != "contrast"@.len());
    assert("contrast"@.len() != "saturation"@.len());
    assert("threshold"@.len() != "radius"@.len());
    assert("radius"@.len() != "softness"@.len());
    assert("amount"@.len() != "speed"@.len());
}

proof fn lemma_lookup_none(p: Seq<(Seq<char>, u32)>, name: Seq<char>)
    requires
        param_lookup(p, name) is None,
    ensures
        forall|j: int| 0 <= j < p.len() ==> p[j].0 != name,
    decreases p.len(),
{
    if p.len() > 0 {
        let ps = p.subrange(1, p.len() as int);
        lemma_lookup_none(ps, name);
        assert forall|j: int| 0 <= j < p.len() implies p[j].0 != name by {
            if j > 0 {
                assert(p[j] == ps[j - 1]);
            }
        }
    }
}

fn push_param(p: &mut Vec<(String, u32)>, name: &str, value: u32)
    ensures
        params_view(final(p)@) == params_view(old(p)@) + seq![(name@, value)],
{
    let ghost before = p@;
    p.push((String::from_str(name), value));
    assert(params_view(p@) =~= params_view(before) + seq![(name@, value)]);
}

impl UIEffect {
    /// A new effect of kind `effect_type` with its default parameters.
    pub fn new(id: u64, effect_type: EffectType) -> (e: Self)
        ensures
            is_new_effect(e, id, effect_type),
            names_distinct(params_view(e.parameters@)),
    {
        proof {
            lemma_default_names_distinct(effect_type);
        }
        let mut parameters: Vec<(String, u32)> = Vec::new();
        match effect_type {
            EffectType::ColorAdjust => {
                push_param(&mut parameters, "brightness", F32_ZERO);
                push_param(&mut parameters, "contrast", F32_ONE);
                push_param(&mut parameters, "saturation", F32_ONE);
            },
            EffectType::Blur => {
                push_param(&mut parameters, "radius", F32_5);
            },
            EffectType::ChromaticAberration => {
                push_param(&mut parameters, "amount", F32_0_01);
            },
            EffectType::Glow => {
                push_param(&mut parameters, "threshold", F32_0_5);
                push_param(&mut parameters, "radius", F32_10);
            },
            EffectType::Kaleidoscope => {
                push_param(&mut parameters, "segments", F32_6);
                push_param(&mut parameters, "rotation", F32_ZERO);
            },
            EffectType::Pixelate => {
                push_param(&mut parameters, "pixel_size", F32_8);
            },
            EffectType::Vignette => {
                push_param(&mut parameters, "radius", F32_0_5);
                push_param(&mut parameters, "softness", F32_0_5);
            },
            EffectType::FilmGrain => {
                push_param(&mut parameters, "amount", F32_0_1);
                push_param(&mut parameters, "speed", F32_ONE);
            },
            _ => {},
        }
        assert(params_view(parameters@) =~= default_params(effect_type));
        UIEffect {
            id,
            effect_type,
            enabled: true,
            intensity: F32_ONE,
            expanded: true,
            parameters,
        }
    }

    /// Index of the first entry named `name`.
    fn param_index(&self, name: &str) -> (r: Option<usize>)
        ensures
            match r {
                Some(i) => i < self.parameters@.len() && self.parameters@[i as int].0@ == name@
                    && param_lookup(params_view(self.parameters@), name@) == Some(
                    self.parameters@[i as int].1,
                ) && forall|j: int| 0 <= j < i ==> self.parameters@[j].0@ != name@,
                None => param_lookup(params_view(self.parameters@), name@) is None,
            },
    {
        let n = self.parameters.len();
        let ghost all = params_view(self.parameters@);
        let mut i: usize = 0;
        assert(all.subrange(0, n as int) =~= all);
        while i < n
            invariant
                n == self.parameters@.len(),
                all == params_view(self.parameters@),
                i <= n,
                param_lookup(all, name@) == param_lookup(all.subrange(i as int, n as int), name@),
                forall|j: int| 0 <= j < i ==> self.parameters@[j].0@ != name@,
            decreases n - i,
        {
            let ghost rest = all.subrange(i as int, n as int);
            assert(rest[0] == all[i as int]);
            if str_eq(self.parameters[i].0.as_str(), name) {
                return Some(i);
            }
            assert(rest.subrange(1, rest.len() as int) =~= all.subrange(i + 1, n as int));
            i = i + 1;
        }
        None
    }

    /// The value of parameter `name`, or `default` when there is none.
    pub fn get_param(&self, name: &str, default: u32) -> (v: u32)
        ensures
            v == match param_lookup(params_view(self.parameters@), name@) {
                Some(x) => x,
                None => default,
            },
    {
        match self.param_index(name) {
            Some(i) => self.parameters[i].1,
            None => default,
        }
    }

    /// Sets parameter `name` to `value`; every other parameter keeps its value.
    pub fn set_param(&mut self, name: &str, value: u32)
        ensures
            forall|k: Seq<char>|
                #![trigger param_lookup(params_view(final(self).parameters@), k)]
                param_lookup(params_view(final(self).parameters@), k) == if k == name@ {
                    Some(value)
                } else {
                    param_lookup(params_view(old(self).parameters@), k)
                },
            final(self).id == old(self).id,
            final(self).effect_type == old(self).effect_type,
            final(self).enabled == old(self).enabled,
            final(self).intensity == old(self).intensity,
            final(self).expanded == old(self).expanded,
            names_distinct(params_view(old(self).parameters@)) ==> names_distinct(
                params_view(final(self).parameters@),
            ),
    {
        let ghost old_p = params_view(self.parameters@);
        match self.param_index(name) {
            Some(i) => {
                let key = String::from_str(name);
                self.parameters.set(i, (key, value));
                proof {
                    assert(params_view(self.parameters@) =~= old_p.update(i as int, (name@, value)));
                    assert forall|k: Seq<char>| #[trigger]
                        param_lookup(params_view(self.parameters@), k) == if k == name@ {
                            Some(value)
                        } else {
                            param_lookup(old_p, k)
                        } by {
                        lemma_lookup_update(old_p, i as int, name@, value, k);
                    }
                    let now = params_view(self.parameters@);
                    assert forall|a: int| 0 <= a < now.len() implies now[a].0 == old_p[a].0 by {}
                }
            },
            None => {
                push_param(&mut self.parameters, name, value);
                proof {
                    assert forall|k: Seq<char>| #[trigger]
                        param_lookup(params_view(self.parameters@), k) == if k == name@ {
                            Some(value)
                        } else {
                            param_lookup(old_p, k)
                        } by {
                        lemma_lookup_push(old_p, name@, value, k);
                    }
                    lemma_lookup_none(old_p, name@);
                    let now = params_view(self.parameters@);
                    assert forall|a: int| 0 <= a < old_p.len() implies now[a] == old_p[a] by {}
                }
            },
        }
    }
}

proof fn lemma_lookup_update(p: Seq<(Seq<char>, u32)>, i: int, name: Seq<char>, v: u32, k: Seq<char>)
    requires
        0 <= i < p.len(),
        p[i].0 == name,
        forall|j: int| 0 <= j < i ==> p[j].0 != name,
    ensures
        param_lookup(p.update(i, (name, v)), k) == if k == name {
            Some(v)
        } else {
            param_lookup(p, k)
        },
    decreases p.len(),
{
    let q = p.update(i, (name, v));
    let ps = p.subrange(1, p.len() as int);
    let qs = q.subrange(1, q.len() as int);
    if i == 0 {
        assert(q[0] == (name, v));
        assert(qs =~= ps);
        if k != name {
            assert(p[0].0 != k);
            assert(param_lookup(p, k) == param_lookup(ps, k));
            assert(param_lookup(q, k) == param_lookup(qs, k));
        }
    } else {
        assert(q[0] == p[0]);
        assert(p[0].0 != name);
        assert(qs =~= ps.update(i - 1, (name, v)));
        lemma_lookup_update(ps, i - 1, name, v, k);
        if p[0].0 != k {
            assert(param_lookup(p, k) == param_lookup(ps, k));
            assert(param_lookup(q, k) == param_lookup(qs, k));
        }
    }
}

proof fn lemma_lookup_push(p: Seq<(Seq<char>, u32)>, name: Seq<char>, v: u32, k: Seq<char>)
    requires
        param_lookup(p, name) is None,
    ensures
        param_lookup(p + seq![(name, v)], k) == if k == name {
            Some(v)
        } else {
            param_lookup(p, k)
        },
    decreases p.len(),
{
    let q = p + seq![(name, v)];
    let qs = q.subrange(1, q.len() as int);
    if p.len() == 0 {
        assert(q[0] == (name, v));
        assert(qs =~= Seq::<(Seq<char>, u32)>::empty());
        if k != name {
            assert(param_lookup(q, k) == param_lookup(qs, k));
        }
    } else {
        let ps = p.subrange(1, p.len() as int);
        assert(q[0] == p[0]);
        assert(p[0].0 != name);
        assert(param_lookup(ps, name) is None);
        assert(qs =~= ps + seq![(name, v)]);
        lemma_lookup_push(ps, name, v, k);
        if p[0].0 != k {
            assert(param_lookup(p, k) == param_lookup(ps, k));
            assert(param_lookup(q, k) == param_lookup(qs, k));
        }
    }
}

/// The ordered chain of effects and the id the next added effect gets.
#[derive(Clone, Debug)]
pub struct UIEffectChain {
    pub effects: Vec<UIEffect>,
    pub next_id: u64,
}

/// `i` is the first position of an effect with this id.
pub open spec fn is_first_index(s: Seq<UIEffect>, id: u64, i: int) -> bool {
    &&& 0 <= i < s.len()
    &&& s[i].id == id
    &&& forall|j: int| 0 <= j < i ==> s[j].id != id
}

/// Some effect has this id.
pub open spec fn has_id(s: Seq<UIEffect>, id: u64) -> bool {
    exists|i: int| 0 <= i < s.len() && s[i].id == id
}

/// No two effects share an id.
pub open spec fn ids_unique(s: Seq<UIEffect>) -> bool {
    forall|i: int, j: int| 0 <= i < j < s.len() ==> s[i].id != s[j].id
}

/// `s` with the effects at `k` and `k + 1` exchanged.
pub open spec fn swap_adjacent(s: Seq<UIEffect>, k: int) -> Seq<UIEffect> {
    s.update(k, s[k + 1]).update(k + 1, s[k])
}

/// The first position of an effect with this id (meaningful when there is one).
pub open spec fn first_index(s: Seq<UIEffect>, id: u64) -> int {
    choose|i: int| is_first_index(s, id, i)
}

/// The chain after moving the first effect with this id one place towards the
/// front; unchanged when there is none or it is already first.
pub open spec fn moved_up(s: Seq<UIEffect>, id: u64) -> Seq<UIEffect> {
    if has_id(s, id) && first_index(s, id) > 0 {
        swap_adjacent(s, first_index(s, id) - 1)
    } else {
        s
    }
}

/// The chain after moving the first effect with this id one place towards the
/// back; unchanged when there is none or it is already last.
pub open spec fn moved_down(s: Seq<UIEffect>, id: u64) -> Seq<UIEffect> {
    if has_id(s, id) && first_index(s, id) < s.len() - 1 {
        swap_adjacent(s, first_index(s, id))
    } else {
        s
    }
}

/// Keeps the effects whose id is not `id`.
pub open spec fn other_than(id: u64) -> spec_fn(UIEffect) -> bool {
    |e: UIEffect| e.id != id
}

/// Where an id occurs, it has exactly one first position.
pub proof fn lemma_first_index(s: Seq<UIEffect>, id: u64)
    requires
        has_id(s, id),
    ensures
        is_first_index(s, id, first_index(s, id)),
        forall|i: int| #[trigger] is_first_index(s, id, i) ==> i == first_index(s, id),
{
    let w = choose|i: int| 0 <= i < s.len() && s[i].id == id;
    lemma_first_exists(s, id, w);
    let f = first_index(s, id);
    assert forall|i: int| #[trigger] is_first_index(s, id, i) implies i == f by {
        if i < f {
            assert(s[i].id == id);
        } else if f < i {
            assert(s[f].id == id);
        }
    }
}

proof fn lemma_first_exists(s: Seq<UIEffect>, id: u64, w: int)
    requires
        0 <= w < s.len(),
        s[w].id == id,
    ensures
        exists|i: int| is_first_index(s, id, i),
    decreases w,
{
    if forall|j: int| 0 <= j < w ==> s[j].id != id {
        assert(is_first_index(s, id, w));
    } else {
        let j = choose|j: int| 0 <= j < w && s[j].id == id;
        lemma_first_exists(s, id, j);
    }
}

proof fn lemma_filter_keeps_unique(s: Seq<UIEffect>, p: spec_fn(UIEffect) -> bool)
    requires
        ids_unique(s),
    ensures
        ids_unique(s.filter(p)),
    decreases s.len(),
{
    broadcast use vstd::seq_lib::group_filter_ensures;
    reveal(Seq::filter);
    if s.len() > 0 {
        let d = s.drop_last();
        lemma_filter_keeps_unique(d, p);
        if p(s.last()) {
            let fd = d.filter(p);
            assert forall|k: int| 0 <= k < fd.len() implies fd[k].id != s.last().id by {
                assert(fd.contains(fd[k]));
                d.lemma_filter_contains_rev(p, fd[k]);
                let j = choose|j: int| 0 <= j < d.len() && d[j] == fd[k];
                assert(s[j] == d[j]);
            }
        }
    }
}

impl UIEffectChain {
    /// Every effect has an id below the next one, and ids are unique.
    pub open spec fn wf(&self) -> bool {
        &&& forall|i: int| 0 <= i < self.effects@.len() ==> self.effects@[i].id
            < self.next_id
        &&& ids_unique(self.effects@)
    }

    /// An empty chain whose first effect gets id 1.
    pub fn new() -> (c: Self)
        ensures
            c.effects@.len() == 0,
            c.next_id == 1,
            (c.effects@, c.next_id as nat) == replay(Seq::<ChainStep>::empty()),
            c.wf(),
    {
        UIEffectChain { effects: Vec::new(), next_id: 1 }
    }

    /// Appends a new effect of this kind and returns its id.
    pub fn add_effect(&mut self, effect_type: EffectType) -> (id: u64)
        requires
            old(self).next_id < u64::MAX,
        ensures
            id == old(self).next_id,
            final(self).next_id == old(self).next_id + 1,
            final(self).effects@.len() == old(self).effects@.len() + 1,
            final(self).effects@.subrange(0, old(self).effects@.len() as int)
                == old(self).effects@,
            is_new_effect(final(self).effects@.last(), id, effect_type),
            (final(self).effects@, final(self).next_id as nat) == chain_step(
                old(self).effects@,
                old(self).next_id as nat,
                ChainStep::Add(final(self).effects@.last()),
            ),
            old(self).wf() ==> !has_id(old(self).effects@, id) && final(self).wf(),
    {
        let id = self.next_id;
        self.next_id = self.next_id + 1;
        self.effects.push(UIEffect::new(id, effect_type));
        assert(self.effects@.subrange(0, old(self).effects@.len() as int) =~= old(self).effects@);
        id
    }

    /// Removes every effect with this id; the others keep their order.
    pub fn remove_effect(&mut self, id: u64)
        ensures
            final(self).effects@ == old(self).effects@.filter(other_than(id)),
            final(self).next_id == old(self).next_id,
            (final(self).effects@, final(self).next_id as nat) == chain_step(
                old(self).effects@,
                old(self).next_id as nat,
                ChainStep::Remove(id),
            ),
            old(self).wf() ==> final(self).wf(),
    {
        broadcast use vstd::seq_lib::group_filter_ensures;
        let ghost orig = self.effects@;
        let n = self.effects.len();
        let mut i: usize = n;
        assert(orig.subrange(n as int, n as int).filter(other_than(id)) =~= Seq::<UIEffect>::empty()) by {
            reveal(Seq::filter);
        }
        assert(self.effects@ =~= orig.subrange(0, n as int) + orig.subrange(n as int, n as int).filter(other_than(id)));
        while i > 0
            invariant
                n == orig.len(),
                i <= n,
                self.next_id == old(self).next_id,
                self.effects@ == orig.subrange(0, i as int) + orig.subrange(i as int, n as int).filter(
                    other_than(id),
                ),
            decreases i,
        {
            i = i - 1;
            let ghost tail = orig.subrange(i + 1, n as int);
            proof {
                assert(orig.subrange(i as int, n as int) =~= seq![orig[i as int]] + tail);
                tail.lemma_filter_prepend(orig[i as int], other_than(id));
                assert(orig.subrange(0, i + 1) =~= orig.subrange(0, i as int).push(orig[i as int]));
            }
            if self.effects[i].id == id {
                self.effects.remove(i);
                assert(self.effects@ =~= orig.subrange(0, i as int) + orig.subrange(i as int, n as int).filter(other_than(id)));
            } else {
                assert(self.effects@ =~= orig.subrange(0, i as int) + orig.subrange(i as int, n as int).filter(other_than(id)));
            }
        }
        assert(orig.subrange(0, n as int) =~= orig);
        assert(self.effects@ =~= orig.filter(other_than(id)));
        proof {
            if old(self).wf() {
                lemma_filter_keeps_unique(orig, other_than(id));
                assert forall|k: int| 0 <= k < self.effects@.len() implies self.effects@[k].id
                    < self.next_id by {
                    assert(self.effects@.contains(self.effects@[k]));
                    orig.lemma_filter_contains_rev(other_than(id), self.effects@[k]);
                }
            }
        }
    }

    fn position(&self, id: u64) -> (r: Option<usize>)
        ensures
            match r {
                Some(i) => is_first_index(self.effects@, id, i as int),
                None => !has_id(self.effects@, id),
            },
    {
        let mut i: usize = 0;
        while i < self.effects.len()
            invariant
                i <= self.effects.len(),
                forall|j: int| 0 <= j < i ==> self.effects@[j].id != id,
            decreases self.effects.len() - i,
        {
            if self.effects[i].id == id {
                return Some(i);
            }
            i = i + 1;
        }
        None
    }

    /// The first effect with this id, to be changed in place; `None` (and the
    /// chain unchanged) when no effect has it.
    pub fn get_effect_mut(&mut self, id: u64) -> (r: Option<&mut UIEffect>)
        ensures
            match r {
                Some(e) => {
                    &&& is_first_index(old(self).effects@, id, first_index(old(self).effects@, id))
                    &&& *e == old(self).effects@[first_index(old(self).effects@, id)]
                    &&& final(self).effects@ == old(self).effects@.update(
                        first_index(old(self).effects@, id),
                        *final(e),
                    )
                    &&& final(self).next_id == old(self).next_id
                },
                None => !has_id(old(self).effects@, id) && *final(self) == *old(self),
            },
    {
        match self.position(id) {
            Some(i) => {
                proof {
                    lemma_first_index(self.effects@, id);
                }
                Some(&mut self.effects[i])
            },
            None => None,
        }
    }

    /// Moves the first effect with this id one place towards the front.
    pub fn move_up(&mut self, id: u64)
        ensures
            final(self).effects@ == moved_up(old(self).effects@, id),
            final(self).next_id == old(self).next_id,
            (final(self).effects@, final(self).next_id as nat) == chain_step(
                old(self).effects@,
                old(self).next_id as nat,
                ChainStep::MoveUp(id),
            ),
            old(self).wf() ==> final(self).wf(),
    {
        let ghost orig = self.effects@;
        match self.position(id) {
            Some(pos) => {
                proof {
                    lemma_first_index(orig, id);
                }
                if pos > 0 {
                    let e = self.effects.remove(pos);
                    self.effects.insert(pos - 1, e);
                    assert(self.effects@ =~= swap_adjacent(orig, pos - 1));
                }
            },
            None => {},
        }
        proof {
            lemma_swap_keeps_wf(orig, self.effects@, self.next_id as int);
        }
    }

    /// Moves the first effect with this id one place towards the back.
    pub fn move_down(&mut self, id: u64)
        ensures
            final(self).effects@ == moved_down(old(self).effects@, id),
            final(self).next_id == old(self).next_id,
            (final(self).effects@, final(self).next_id as nat) == chain_step(
                old(self).effects@,
                old(self).next_id as nat,
                ChainStep::MoveDown(id),
            ),
            old(self).wf() ==> final(self).wf(),
    {
        let ghost orig = self.effects@;
        match self.position(id) {
            Some(pos) => {
                proof {
                    lemma_first_index(orig, id);
                }
                if pos < self.effects.len() - 1 {
                    let e = self.effects.remove(pos);
                    self.effects.insert(pos + 1, e);
                    assert(self.effects@ =~= swap_adjacent(orig, pos as int));
                }
            },
            None => {},
        }
        proof {
            lemma_swap_keeps_wf(orig, self.effects@, self.next_id as int);
        }
    }
}

/// The empty chain with `next_id` 0 (`UIEffectChain::new` starts at 1).
impl Default for UIEffectChain {
    fn default() -> (c: Self)
        ensures
            c.effects@.len() == 0,
            c.next_id == 0,
            c.wf(),
    {
        UIEffectChain { effects: Vec::new(), next_id: 0 }
    }
}

proof fn lemma_swap_keeps_wf(orig: Seq<UIEffect>, now: Seq<UIEffect>, bound: int)
    requires
        now == orig || exists|k: int| 0 <= k < orig.len() - 1 && now == swap_adjacent(orig, k),
    ensures
        now.len() == orig.len(),
        ids_unique(orig) ==> ids_unique(now),
        (forall|i: int| 0 <= i < orig.len() ==> orig[i].id < bound) ==> (forall|i: int|
            0 <= i < now.len() ==> now[i].id < bound),
{
    if now != orig {
        let k = choose|k: int| 0 <= k < orig.len() - 1 && now == swap_adjacent(orig, k);
        assert forall|a: int| 0 <= a < now.len() implies now[a] == orig[if a == k {
            k + 1
        } else if a == k + 1 {
            k
        } else {
            a
        }] by {}
    }
}

/// One call on a chain, as its effect on the effects and the next id: adding
/// the given (freshly made) effect, removing an id, moving an id up or down.
pub enum ChainStep {
    Add(UIEffect),
    Remove(u64),
    MoveUp(u64),
    MoveDown(u64),
}

/// The effects and next id after one step.
pub open spec fn chain_step(s: Seq<UIEffect>, next: nat, step: ChainStep) -> (Seq<UIEffect>, nat) {
    match step {
        ChainStep::Add(e) => (s.push(e), next + 1),
        ChainStep::Remove(id) => (s.filter(other_than(id)), next),
        ChainStep::MoveUp(id) => (moved_up(s, id), next),
        ChainStep::MoveDown(id) => (moved_down(s, id), next),
    }
}

/// The effects and next id of a chain made by `UIEffectChain::new` and then
/// changed by these steps.
pub open spec fn replay(steps: Seq<ChainStep>) -> (Seq<UIEffect>, nat)
    decreases steps.len(),
{
    if steps.len() == 0 {
        (Seq::empty(), 1)
    } else {
        let (s, next) = replay(steps.drop_last());
        chain_step(s, next, steps.last())
    }
}

/// Every added effect has the id that was next when it was added, as
/// `add_effect` gives it.
pub open spec fn adds_take_next_id(steps: Seq<ChainStep>) -> bool
    decreases steps.len(),
{
    steps.len() == 0 || {
        &&& adds_take_next_id(steps.drop_last())
        &&& (steps.last() matches ChainStep::Add(e) ==> e.id == replay(steps.drop_last()).1)
    }
}

/// The ids handed out by the adds among the steps, in order.
pub open spec fn issued_ids(steps: Seq<ChainStep>) -> Seq<u64>
    decreases steps.len(),
{
    if steps.len() == 0 {
        Seq::empty()
    } else {
        match steps.last() {
            ChainStep::Add(e) => issued_ids(steps.drop_last()).push(e.id),
            _ => issued_ids(steps.drop_last()),
        }
    }
}

/// For a chain made by `new` and changed only by `add_effect`,
/// `remove_effect`, `move_up` and `move_down`: the ids handed out run 1, 2,
/// 3, ... so each is greater than every earlier one; the next id is one past
/// the last handed out; every effect in the chain has an id below it; and no
/// two effects share an id. So the next `add_effect` returns an id that no
/// effect of the chain has and that was never handed out before.
pub proof fn lemma_ids_handed_out_in_order(steps: Seq<ChainStep>)
    requires
        adds_take_next_id(steps),
    ensures
        ({
            let (s, next) = replay(steps);
            &&& issued_ids(steps).len() + 1 == next
            &&& forall|k: int| 0 <= k < issued_ids(steps).len() ==> issued_ids(steps)[k] == k + 1
            &&& forall|i: int| 0 <= i < s.len() ==> s[i].id < next
            &&& ids_unique(s)
        }),
    decreases steps.len(),
{
    if steps.len() > 0 {
        let prev = steps.drop_last();
        lemma_ids_handed_out_in_order(prev);
        let (s, next) = replay(prev);
        match steps.last() {
            ChainStep::Add(e) => {
                assert(e.id == next);
            },
            ChainStep::Remove(id) => {
                broadcast use vstd::seq_lib::group_filter_ensures;
                lemma_filter_keeps_unique(s, other_than(id));
                let t = s.filter(other_than(id));
                assert forall|i: int| 0 <= i < t.len() implies t[i].id < next by {
                    assert(t.contains(t[i]));
                    s.lemma_filter_contains_rev(other_than(id), t[i]);
                }
            },
            ChainStep::MoveUp(id) => {
                if has_id(s, id) {
                    lemma_first_index(s, id);
                }
                lemma_swap_keeps_wf(s, moved_up(s, id), next as int);
            },
            ChainStep::MoveDown(id) => {
                if has_id(s, id) {
                    lemma_first_index(s, id);
                }
                lemma_swap_keeps_wf(s, moved_down(s, id), next as int);
            },
        }
    }
}

/// Moving an effect one place up and then one place down gives the chain
/// back, when ids are unique and the effect was not already first.
pub proof fn lemma_move_up_then_down(s: Seq<UIEffect>, id: u64)
    requires
        ids_unique(s),
        has_id(s, id),
        first_index(s, id) > 0,
    ensures
        moved_down(moved_up(s, id), id) == s,
{
    lemma_first_index(s, id);
    let i = first_index(s, id);
    let t = swap_adjacent(s, i - 1);
    assert(moved_up(s, id) == t);
    assert(is_first_index(t, id, i - 1));
    assert(has_id(t, id));
    lemma_first_index(t, id);
    assert(swap_adjacent(t, i - 1) =~= s);
}

/// Moving an effect one place down and then one place up gives the chain
/// back, when ids are unique and the effect was not already last.
pub proof fn lemma_move_down_then_up(s: Seq<UIEffect>, id: u64)
    requires
        ids_unique(s),
        has_id(s, id),
        first_index(s, id) < s.len() - 1,
    ensures
        moved_up(moved_down(s, id), id) == s,
{
    lemma_first_index(s, id);
    let i = first_index(s, id);
    let t = swap_adjacent(s, i);
    assert(moved_down(s, id) == t);
    assert forall|j: int| 0 <= j < i + 1 implies t[j].id != id by {
        if j == i {
            assert(t[j] == s[i + 1]);
        }
    }
    assert(is_first_index(t, id, i + 1));
    assert(has_id(t, id));
    lemma_first_index(t, id);
    assert(swap_adjacent(t, i) =~= s);
}

/// After removing an id, no effect with it is left.
pub proof fn lemma_removed_id_absent(s: Seq<UIEffect>, id: u64)
    ensures
        !has_id(s.filter(other_than(id)), id),
{
    broadcast use vstd::seq_lib::group_filter_ensures;
    let f = s.filter(other_than(id));
    assert forall|i: int| 0 <= i < f.len() implies f[i].id != id by {
        s.lemma_filter_pred(other_than(id), i);
    }
}

/// Actions the effect panel reports to the renderer.
#[derive(Clone, Debug)]
pub enum EffectChainAction {
    /// Add a new effect of the given type
    AddEffect(EffectType),
    /// Remove an effect by ID
    RemoveEffect(u64),
    /// Move effect up in chain
    MoveUp(u64),
    /// Move effect down in chain
    MoveDown(u64),
    /// Toggle effect enabled state
    ToggleEnabled(u64),
    /// Set effect intensity (bit pattern of the `f32` value)
    SetIntensity(u64, u32),
    /// Set effect parameter (bit pattern of the `f32` value)
    SetParameter(u64, String, u32),
    /// Load a preset by name
    LoadPreset(String),
    /// Save current chain as preset
    SavePreset(String),
    /// Clear all effects
    ClearAll,
}

/// Ghost form of an action.
pub enum ActionView {
    AddEffect(EffectType),
    RemoveEffect(u64),
    MoveUp(u64),
    MoveDown(u64),
    ToggleEnabled(u64),
    SetIntensity(u64, u32),
    SetParameter(u64, Seq<char>, u32),
    LoadPreset(Seq<char>),
    SavePreset(Seq<char>),
    ClearAll,
}

/// The ghost form of an action.
pub open spec fn action_view(a: EffectChainAction) -> ActionView {
    match a {
        EffectChainAction::AddEffect(t) => ActionView::AddEffect(t),
        EffectChainAction::RemoveEffect(id) => ActionView::RemoveEffect(id),
        EffectChainAction::MoveUp(id) => ActionView::MoveUp(id),
        EffectChainAction::MoveDown(id) => ActionView::MoveDown(id),
        EffectChainAction::ToggleEnabled(id) => ActionView::ToggleEnabled(id),
        EffectChainAction::SetIntensity(id, v) => ActionView::SetIntensity(id, v),
        EffectChainAction::SetParameter(id, n, v) => ActionView::SetParameter(id, n@, v),
        EffectChainAction::LoadPreset(p) => ActionView::LoadPreset(p@),
        EffectChainAction::SavePreset(n) => ActionView::SavePreset(n@),
        EffectChainAction::ClearAll => ActionView::ClearAll,
    }
}

/// The ghost forms of a queue of actions.
pub open spec fn actions_view(s: Seq<EffectChainAction>) -> Seq<ActionView> {
    s.map_values(|a: EffectChainAction| action_view(a))
}

/// Preset entry for the browser.
#[derive(Clone, Debug)]
pub struct PresetEntry {
    pub name: String,
    pub category: String,
    pub path: String,
    pub is_favorite: bool,
}

/// A preset is listed for a search text when the text is empty or the
/// lower-cased preset name contains the lower-cased text.
pub open spec fn preset_listed(name: Seq<char>, search: Seq<char>) -> bool {
    search.len() == 0 || contains_seq(unicode_lowercase(name), unicode_lowercase(search))
}

/// Whether the preset browser lists a preset with this name for this search text.
pub fn preset_matches_search(name: &str, search: &str) -> (r: bool)
    ensures
        r == preset_listed(name@, search@),
{
    if search.unicode_len() == 0 {
        return true;
    }
    let search_lower = to_lowercase(search);
    let name_lower = to_lowercase(name);
    str_contains(name_lower.as_str(), search_lower.as_str())
}

/// State of the effect chain panel: the chain, what is shown, the preset
/// list, and the actions not yet taken by the renderer.
#[derive(Debug)]
pub struct EffectChainPanel {
    /// Current effect chain
    pub chain: UIEffectChain,
    /// Whether the panel is visible
    pub visible: bool,
    /// Show add effect menu
    pub show_add_menu: bool,
    /// Show preset browser
    pub show_preset_browser: bool,
    /// Preset search query
    pub preset_search: String,
    /// Available presets
    pub presets: Vec<PresetEntry>,
    /// Currently dragging effect ID
    pub dragging_effect: Option<u64>,
    /// Save preset name input
    pub save_preset_name: String,
    /// Pending actions
    pub actions: Vec<EffectChainAction>,
}

/// What the user changed on one effect card during a frame. The intensity is
/// given (as a bit pattern) only when it moved by more than the slider's
/// tolerance.
#[derive(Clone, Debug)]
pub struct CardEdit {
    pub enabled: bool,
    pub expanded: bool,
    pub intensity: Option<u32>,
    pub param_changes: Vec<(String, u32)>,
}

/// The value of parameter `k` after the changes are applied in order to
/// parameters `p`: the last change of `k`, else its earlier value.
pub open spec fn lookup_after(
    p: Seq<(Seq<char>, u32)>,
    changes: Seq<(Seq<char>, u32)>,
    k: Seq<char>,
) -> Option<u32>
    decreases changes.len(),
{
    if changes.len() == 0 {
        param_lookup(p, k)
    } else if changes.last().0 == k {
        Some(changes.last().1)
    } else {
        lookup_after(p, changes.drop_last(), k)
    }
}

/// The `SetParameter` reports of a card's parameter changes, in order.
pub open spec fn param_actions(id: u64, changes: Seq<(Seq<char>, u32)>) -> Seq<ActionView> {
    changes.map_values(|c: (Seq<char>, u32)| ActionView::SetParameter(id, c.0, c.1))
}

/// What a card edit reports: `ToggleEnabled` when the enabled flag changed,
/// `SetIntensity` when the intensity moved, then one `SetParameter` per
/// parameter change.
pub open spec fn card_actions(id: u64, was_enabled: bool, edit: CardEdit) -> Seq<ActionView> {
    (if edit.enabled != was_enabled {
        seq![ActionView::ToggleEnabled(id)]
    } else {
        seq![]
    }) + (match edit.intensity {
        Some(v) => seq![ActionView::SetIntensity(id, v)],
        None => seq![],
    }) + param_actions(id, params_view(edit.param_changes@))
}

/// The chain after the list's removal and move requests, applied in this
/// order: remove, move up, move down.
pub open spec fn after_requests(
    s: Seq<UIEffect>,
    remove: Option<u64>,
    up: Option<u64>,
    down: Option<u64>,
) -> Seq<UIEffect> {
    let s1 = match remove {
        Some(id) => s.filter(other_than(id)),
        None => s,
    };
    let s2 = match up {
        Some(id) => moved_up(s1, id),
        None => s1,
    };
    match down {
        Some(id) => moved_down(s2, id),
        None => s2,
    }
}

/// What the list's requests report, in the order they are applied.
pub open spec fn request_actions(remove: Option<u64>, up: Option<u64>, down: Option<u64>) -> Seq<
    ActionView,
> {
    (match remove {
        Some(id) => seq![ActionView::RemoveEffect(id)],
        None => seq![],
    }) + (match up {
        Some(id) => seq![ActionView::MoveUp(id)],
        None => seq![],
    }) + (match down {
        Some(id) => seq![ActionView::MoveDown(id)],
        None => seq![],
    })
}

/// The panel fields other than the chain and the action queue are the same.
pub open spec fn same_view_state(a: EffectChainPanel, b: EffectChainPanel) -> bool {
    &&& a.visible == b.visible
    &&& a.show_add_menu == b.show_add_menu
    &&& a.show_preset_browser == b.show_preset_browser
    &&& a.preset_search == b.preset_search
    &&& a.presets == b.presets
    &&& a.dragging_effect == b.dragging_effect
    &&& a.save_preset_name == b.save_preset_name
}

/// A hidden panel with the default (empty) chain, nothing open, no presets
/// and no pending actions.
impl Default for EffectChainPanel {
    fn default() -> (p: Self)
        ensures
            p.chain.effects@.len() == 0,
            p.chain.next_id == 0,
            !p.visible,
            !p.show_add_menu,
            !p.show_preset_browser,
            p.preset_search@.len() == 0,
            p.presets@.len() == 0,
            p.dragging_effect is None,
            p.save_preset_name@.len() == 0,
            p.actions@.len() == 0,
    {
        EffectChainPanel {
            chain: UIEffectChain::default(),
            visible: false,
            show_add_menu: false,
            show_preset_browser: false,
            preset_search: String::new(),
            presets: Vec::new(),
            dragging_effect: None,
            save_preset_name: String::new(),
            actions: Vec::new(),
        }
    }
}

impl EffectChainPanel {
    /// A visible panel with an empty chain, no presets and no pending actions.
    pub fn new() -> (p: Self)
        ensures
            p.chain.effects@.len() == 0,
            p.chain.next_id == 1,
            p.visible,
            !p.show_add_menu,
            !p.show_preset_browser,
            p.preset_search@.len() == 0,
            p.presets@.len() == 0,
            p.dragging_effect is None,
            p.save_preset_name@.len() == 0,
            p.actions@.len() == 0,
    {
        EffectChainPanel {
            chain: UIEffectChain::new(),
            visible: true,
            show_add_menu: false,
            show_preset_browser: false,
            preset_search: String::new(),
            presets: Vec::new(),
            dragging_effect: None,
            save_preset_name: String::new(),
            actions: Vec::new(),
        }
    }

    /// Replaces the list of available presets.
    pub fn set_presets(&mut self, presets: Vec<PresetEntry>)
        ensures
            *final(self) == (EffectChainPanel { presets: presets, ..*old(self) }),
    {
        self.presets = presets;
    }

    /// Hands out the pending actions, in the order they were queued, and
    /// leaves none pending.
    pub fn take_actions(&mut self) -> (taken: Vec<EffectChainAction>)
        ensures
            taken@ == old(self).actions@,
            final(self).actions@.len() == 0,
            *final(self) == (EffectChainPanel { actions: final(self).actions, ..*old(self) }),
    {
        let mut taken: Vec<EffectChainAction> = Vec::new();
        std::mem::swap(&mut taken, &mut self.actions);
        taken
    }

    /// Queues an action for the renderer.
    pub fn queue_action(&mut self, action: EffectChainAction)
        ensures
            actions_view(final(self).actions@) == actions_view(old(self).actions@).push(
                action_view(action),
            ),
            final(self).chain == old(self).chain,
            same_view_state(*final(self), *old(self)),
    {
        let ghost before = self.actions@;
        self.actions.push(action);
        assert(actions_view(self.actions@) =~= actions_view(before).push(action_view(action)));
    }

    /// The add button: shows or hides the add-effect menu.
    pub fn toggle_add_menu(&mut self)
        ensures
            *final(self) == (EffectChainPanel { show_add_menu: !old(self).show_add_menu, ..*old(self) }),
    {
        self.show_add_menu = !self.show_add_menu;
    }

    /// The presets button: shows or hides the preset browser.
    pub fn toggle_preset_browser(&mut self)
        ensures
            *final(self) == (EffectChainPanel {
                show_preset_browser: !old(self).show_preset_browser,
                ..*old(self)
            }),
    {
        self.show_preset_browser = !self.show_preset_browser;
    }

    /// The clear button: reports `ClearAll` and empties the chain (ids are
    /// not reused).
    pub fn clear_all(&mut self)
        ensures
            actions_view(final(self).actions@) == actions_view(old(self).actions@).push(
                ActionView::ClearAll,
            ),
            final(self).chain.effects@.len() == 0,
            final(self).chain.next_id == old(self).chain.next_id,
            same_view_state(*final(self), *old(self)),
    {
        self.queue_action(EffectChainAction::ClearAll);
        self.chain.effects = Vec::new();
    }

    /// An effect kind picked in the add-effect menu: the effect is appended,
    /// `AddEffect` is reported and the menu closes.
    pub fn add_from_menu(&mut self, effect_type: EffectType) -> (id: u64)
        requires
            old(self).chain.next_id < u64::MAX,
        ensures
            id == old(self).chain.next_id,
            final(self).chain.next_id == old(self).chain.next_id + 1,
            final(self).chain.effects@.len() == old(self).chain.effects@.len() + 1,
            final(self).chain.effects@.subrange(0, old(self).chain.effects@.len() as int)
                == old(self).chain.effects@,
            is_new_effect(final(self).chain.effects@.last(), id, effect_type),
            actions_view(final(self).actions@) == actions_view(old(self).actions@).push(
                ActionView::AddEffect(effect_type),
            ),
            same_view_state(*final(self), (EffectChainPanel { show_add_menu: false, ..*old(self) })),
    {
        let id = self.chain.add_effect(effect_type);
        self.queue_action(EffectChainAction::AddEffect(effect_type));
        self.show_add_menu = false;
        id
    }

    /// The footer's save button: opens the preset browser.
    pub fn open_save_dialog(&mut self)
        ensures
            *final(self) == (EffectChainPanel { show_preset_browser: true, ..*old(self) }),
    {
        self.show_preset_browser = true;
    }

    /// The browser window is closed.
    pub fn close_preset_browser(&mut self)
        ensures
            *final(self) == (EffectChainPanel { show_preset_browser: false, ..*old(self) }),
    {
        self.show_preset_browser = false;
    }

    /// A preset picked in the browser (by its position in the preset list):
    /// `LoadPreset` with its path is reported and the browser closes.
    pub fn load_preset(&mut self, index: usize)
        requires
            index < old(self).presets@.len(),
        ensures
            actions_view(final(self).actions@) == actions_view(old(self).actions@).push(
                ActionView::LoadPreset(old(self).presets@[index as int].path@),
            ),
            final(self).chain == old(self).chain,
            same_view_state(
                *final(self),
                (EffectChainPanel { show_preset_browser: false, ..*old(self) }),
            ),
    {
        let path = self.presets[index].path.clone();
        self.queue_action(EffectChainAction::LoadPreset(path));
        self.show_preset_browser = false;
    }

    /// The browser's save button: with a name typed, `SavePreset` with that
    /// name is reported and the name field is cleared; with none, nothing
    /// happens.
    pub fn save_preset(&mut self)
        ensures
            old(self).save_preset_name@.len() == 0 ==> final(self).actions@ == old(self).actions@
                && final(self).save_preset_name@ == old(self).save_preset_name@,
            old(self).save_preset_name@.len() > 0 ==> actions_view(final(self).actions@)
                == actions_view(old(self).actions@).push(
                ActionView::SavePreset(old(self).save_preset_name@),
            ) && final(self).save_preset_name@.len() == 0,
            final(self).chain == old(self).chain,
            same_view_state(
                *final(self),
                (EffectChainPanel { save_preset_name: final(self).save_preset_name, ..*old(self) }),
            ),
    {
        if self.save_preset_name.unicode_len() > 0 {
            let name = self.save_preset_name.clone();
            self.queue_action(EffectChainAction::SavePreset(name));
            self.save_preset_name = String::new();
        }
    }

    /// Applies one card's edit to the effect at `idx` and reports it: the
    /// enabled and expanded flags and the intensity take the new values, the
    /// parameter changes are set in order, and the reports of `card_actions`
    /// are queued.
    pub fn apply_card_edit(&mut self, idx: usize, edit: &CardEdit)
        requires
            idx < old(self).chain.effects@.len(),
        ensures
            final(self).chain.effects@.len() == old(self).chain.effects@.len(),
            forall|i: int|
                0 <= i < old(self).chain.effects@.len() && i != idx ==> final(self).chain.effects@[i]
                    == old(self).chain.effects@[i],
            final(self).chain.next_id == old(self).chain.next_id,
            final(self).chain.effects@[idx as int].id == old(self).chain.effects@[idx as int].id,
            final(self).chain.effects@[idx as int].effect_type == old(
                self,
            ).chain.effects@[idx as int].effect_type,
            final(self).chain.effects@[idx as int].enabled == edit.enabled,
            final(self).chain.effects@[idx as int].expanded == edit.expanded,
            final(self).chain.effects@[idx as int].intensity == match edit.intensity {
                Some(v) => v,
                None => old(self).chain.effects@[idx as int].intensity,
            },
            forall|k: Seq<char>|
                #![trigger param_lookup(params_view(final(self).chain.effects@[idx as int].parameters@), k)]
                param_lookup(params_view(final(self).chain.effects@[idx as int].parameters@), k)
                    == lookup_after(
                    params_view(old(self).chain.effects@[idx as int].parameters@),
                    params_view(edit.param_changes@),
                    k,
                ),
            actions_view(final(self).actions@) == actions_view(old(self).actions@) + card_actions(
                old(self).chain.effects@[idx as int].id,
                old(self).chain.effects@[idx as int].enabled,
                *edit,
            ),
            names_distinct(params_view(old(self).chain.effects@[idx as int].parameters@))
                ==> names_distinct(params_view(final(self).chain.effects@[idx as int].parameters@)),
            old(self).chain.wf() ==> final(self).chain.wf(),
            same_view_state(*final(self), *old(self)),
    {
        let ghost e0 = self.chain.effects@[idx as int];
        let ghost base = actions_view(self.actions@);
        let ghost changes = params_view(edit.param_changes@);
        let ghost p0 = params_view(e0.parameters@);
        let ghost orig = self.chain.effects@;
        let mut e = self.chain.effects.remove(idx);
        let id = e.id;
        if edit.enabled != e.enabled {
            e.enabled = edit.enabled;
            self.queue_action(EffectChainAction::ToggleEnabled(id));
        }
        e.expanded = edit.expanded;
        match edit.intensity {
            Some(v) => {
                e.intensity = v;
                self.queue_action(EffectChainAction::SetIntensity(id, v));
            },
            None => {},
        }
        let ghost mid = actions_view(self.actions@);
        let mut j: usize = 0;
        assert forall|k: Seq<char>| #[trigger]
            param_lookup(params_view(e.parameters@), k) == lookup_after(
                p0,
                changes.subrange(0, 0),
                k,
            ) by {}
        assert(param_actions(id, changes.subrange(0, 0)) =~= Seq::<ActionView>::empty());
        while j < edit.param_changes.len()
            invariant
                j <= edit.param_changes.len(),
                changes == params_view(edit.param_changes@),
                e.id == id,
                id == e0.id,
                e.effect_type == e0.effect_type,
                e.enabled == edit.enabled,
                e.expanded == edit.expanded,
                e.intensity == match edit.intensity {
                    Some(v) => v,
                    None => e0.intensity,
                },
                self.chain.effects@ == orig.remove(idx as int),
                self.chain.next_id == old(self).chain.next_id,
                same_view_state(*self, *old(self)),
                forall|k: Seq<char>| #[trigger]
                    param_lookup(params_view(e.parameters@), k) == lookup_after(
                        p0,
                        changes.subrange(0, j as int),
                        k,
                    ),
                actions_view(self.actions@) == mid + param_actions(id, changes.subrange(0, j as int)),
                names_distinct(p0) ==> names_distinct(params_view(e.parameters@)),
            decreases edit.param_changes.len() - j,
        {
            let name = &edit.param_changes[j].0;
            let value = edit.param_changes[j].1;
            let ghost before = params_view(e.parameters@);
            e.set_param(name.as_str(), value);
            self.queue_action(EffectChainAction::SetParameter(id, name.clone(), value));
            proof {
                let pre = changes.subrange(0, j + 1);
                assert(pre.drop_last() =~= changes.subrange(0, j as int));
                assert(pre.last() == (name@, value));
                assert forall|k: Seq<char>| #[trigger]
                    param_lookup(params_view(e.parameters@), k) == lookup_after(p0, pre, k) by {}
                assert(param_actions(id, pre) =~= param_actions(id, changes.subrange(0, j as int)).push(
                    ActionView::SetParameter(id, name@, value),
                ));
            }
            j = j + 1;
        }
        assert(changes.subrange(0, changes.len() as int) =~= changes);
        self.chain.effects.insert(idx, e);
        proof {
            assert(self.chain.effects@ =~= orig.update(idx as int, e));
            assert(actions_view(self.actions@) =~= base + card_actions(e0.id, e0.enabled, *edit));
            if old(self).chain.wf() {
                assert forall|a: int, b: int|
                    0 <= a < b < self.chain.effects@.len() implies self.chain.effects@[a].id
                    != self.chain.effects@[b].id by {
                    assert(self.chain.effects@[a].id == orig[a].id);
                    assert(self.chain.effects@[b].id == orig[b].id);
                }
                assert forall|a: int| 0 <= a < self.chain.effects@.len() implies self.chain.effects@[a].id
                    < self.chain.next_id by {
                    assert(self.chain.effects@[a].id == orig[a].id);
                }
            }
        }
    }

    /// Applies the list's requests of one frame, in this order: remove the
    /// effect, move one up, move one down; each applied request is reported.
    pub fn apply_list_requests(&mut self, remove: Option<u64>, up: Option<u64>, down: Option<u64>)
        ensures
            final(self).chain.effects@ == after_requests(old(self).chain.effects@, remove, up, down),
            final(self).chain.next_id == old(self).chain.next_id,
            actions_view(final(self).actions@) == actions_view(old(self).actions@)
                + request_actions(remove, up, down),
            old(self).chain.wf() ==> final(self).chain.wf(),
            same_view_state(*final(self), *old(self)),
    {
        let ghost base = actions_view(self.actions@);
        match remove {
            Some(id) => {
                self.chain.remove_effect(id);
                self.queue_action(EffectChainAction::RemoveEffect(id));
            },
            None => {},
        }
        let ghost a1 = actions_view(self.actions@);
        match up {
            Some(id) => {
                self.chain.move_up(id);
                self.queue_action(EffectChainAction::MoveUp(id));
            },
            None => {},
        }
        let ghost a2 = actions_view(self.actions@);
        match down {
            Some(id) => {
                self.chain.move_down(id);
                self.queue_action(EffectChainAction::MoveDown(id));
            },
            None => {},
        }
        assert(actions_view(self.actions@) =~= base + request_actions(remove, up, down));
    }

    /// Positions of the presets the browser lists for the current search
    /// text, in order.
    pub fn listed_presets(&self) -> (v: Vec<usize>)
        ensures
            v@ == Seq::new(self.presets@.len(), |i: int| i as usize).filter(
                |i: usize| preset_listed(self.presets@[i as int].name@, self.preset_search@),
            ),
    {
        broadcast use vstd::seq_lib::group_filter_ensures;
        let ghost pred = |i: usize| preset_listed(self.presets@[i as int].name@, self.preset_search@);
        let ghost all = Seq::new(self.presets@.len(), |i: int| i as usize);
        let mut v: Vec<usize> = Vec::new();
        let mut i: usize = 0;
        assert(all.subrange(0, 0) =~= Seq::<usize>::empty());
        proof {
            reveal(Seq::filter);
        }
        while i < self.presets.len()
            invariant
                i <= self.presets.len(),
                all == Seq::new(self.presets@.len(), |i: int| i as usize),
                pred == (|i: usize| preset_listed(self.presets@[i as int].name@, self.preset_search@)),
                v@ == all.subrange(0, i as int).filter(pred),
            decreases self.presets.len() - i,
        {
            let ghost pre = all.subrange(0, i as int);
            let listed = preset_matches_search(self.presets[i].name.as_str(), self.preset_search.as_str());
            proof {
                assert(all.subrange(0, i + 1) =~= pre.push(i));
                pre.lemma_filter_push(i, pred);
            }
            if listed {
                v.push(i);
            }
            i = i + 1;
        }
        assert(all.subrange(0, self.presets.len() as int) =~= all);
        v
    }
}


} // verus!
