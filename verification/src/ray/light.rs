//! Light sources.
use vstd::prelude::*;
use crate::ray::Flt;
use crate::ray::algebra::{Direction3, Position3};
use crate::ray::optics::Radiance;
use crate::ray::physics::Color;

verus! {

/// The power that a light emits.
pub type Flux = Flt;

/// A source of light.
#[derive(Debug, Clone, Copy, PartialEq)]
pub enum Light {
    /// A point that shines alike in every direction.
    PointLight { color: Color, flux: Flux, pos: Position3 },
    /// A parallelogram that shines to the side of its normal.
    ParallelogramLight {
        color: Color,
        flux: Flux,
        pos: Position3,
        nvec: Direction3,
        dir1: Direction3,
        dir2: Direction3,
    },
    /// A parallelogram that shines in one direction only.
    SunLight {
        color: Color,
        flux: Flux,
        pos: Position3,
        nvec: Direction3,
        dir1: Direction3,
        dir2: Direction3,
        dir: Direction3,
    },
}

impl Light {
    /// The power of the light.
    pub open spec fn power(self) -> Flt {
        match self {
            Light::PointLight { flux, .. } => flux,
            Light::ParallelogramLight { flux, .. } => flux,
            Light::SunLight { flux, .. } => flux,
        }
    }

    pub fn flux(&self) -> (r: Flt)
        ensures
            r == self.power(),
    {
        match self {
            Light::PointLight { flux, .. } => *flux,
            Light::ParallelogramLight { flux, .. } => *flux,
            Light::SunLight { flux, .. } => *flux,
        }
    }
}

/// The bit patterns of the five places along a side of an area light at
/// which the light is sampled: 0.1, 0.3, 0.5, 0.7 and 0.9.
pub open spec fn strata() -> Seq<u64> {
    seq![
        0x3FB9_9999_9999_999Au64,
        0x3FD3_3333_3333_3333u64,
        0x3FE0_0000_0000_0000u64,
        0x3FE6_6666_6666_6666u64,
        0x3FEC_CCCC_CCCC_CCCDu64,
    ]
}

/// The places of an area light at which the light is sampled, as shares of
/// its two sides: the five by five middles of the cells of a grid, row by
/// row.
pub fn sample_grid() -> (g: Vec<(Flt, Flt)>)
    ensures
        g.len() == 25,
        forall|i: int, j: int|
            0 <= i < 5 && 0 <= j < 5 ==> (#[trigger] g[5 * i + j]) == (
                Flt { bits: strata()[i] },
                Flt { bits: strata()[j] },
            ),
{
    let ts: [u64; 5] = [
        0x3FB9_9999_9999_999A,
        0x3FD3_3333_3333_3333,
        0x3FE0_0000_0000_0000,
        0x3FE6_6666_6666_6666,
        0x3FEC_CCCC_CCCC_CCCD,
    ];
    let mut g: Vec<(Flt, Flt)> = Vec::new();
    let mut i: usize = 0;
    while i < 5
        invariant
            i <= 5,
            ts@ =~= strata(),
            g.len() == 5 * i,
            forall|a: int, b: int|
                0 <= a < i && 0 <= b < 5 ==> (#[trigger] g[5 * a + b]) == (
                    Flt { bits: strata()[a] },
                    Flt { bits: strata()[b] },
                ),
        decreases 5 - i,
    {
        let mut j: usize = 0;
        let ghost rows = g@;
        while j < 5
            invariant
                i < 5,
                j <= 5,
                ts@ =~= strata(),
                rows.len() == 5 * i,
                g.len() == 5 * i + j,
                forall|k: int| 0 <= k < rows.len() ==> g@[k] == rows[k],
                forall|b: int|
                    0 <= b < j ==> (#[trigger] g[5 * i + b]) == (
                        Flt { bits: strata()[i as int] },
                        Flt { bits: strata()[b] },
                    ),
            decreases 5 - j,
        {
            g.push((Flt::from_bits(ts[i]), Flt::from_bits(ts[j])));
            j += 1;
        }
        proof {
            assert forall|a: int, b: int| 0 <= a < i + 1 && 0 <= b < 5 implies (#[trigger] g[5 * a
                + b]) == (Flt { bits: strata()[a] }, Flt { bits: strata()[b] }) by {
                if a < i {
                    assert(g@[5 * a + b] == rows[5 * a + b]);
                }
            }
        }
        i += 1;
    }
    g
}

impl Light {
    /// The radiance that the light sends over one of its samples, from what
    /// the formula of each kind of light gives: `point` for a point,
    /// `area` for a parallelogram, `sun` for a sun.
    pub fn get_radiance(&self, point: &Radiance, area: &Radiance, sun: &Radiance) -> (r: Radiance)
        ensures
            r == match *self {
                Light::PointLight { .. } => *point,
                Light::ParallelogramLight { .. } => *area,
                Light::SunLight { .. } => *sun,
            },
    {
        match self {
            Light::PointLight { .. } => *point,
            Light::ParallelogramLight { .. } => *area,
            Light::SunLight { .. } => *sun,
        }
    }

    /// Whether a vector from a lit point to the light, whose cosine with
    /// the normal of the light is `cos`, brings light to the point.  A
    /// point shines in every direction; a parallelogram shines only on
    /// what meets it from the front (`cos < 0`); a sun does not shine on
    /// what lies behind it (`cos > 0`).
    pub open spec fn shines(self, cos: Flt) -> bool {
        match self {
            Light::PointLight { .. } => true,
            Light::ParallelogramLight { .. } => cos.less(Flt::zero()),
            Light::SunLight { .. } => !Flt::zero().less(cos),
        }
    }

    /// The vectors among `cands` on which the light shines, in the order of
    /// `cands`.  Each vector comes with its cosine with the normal.
    pub open spec fn lit(self, cands: Seq<(Direction3, Flt)>) -> Seq<Direction3>
        decreases cands.len(),
    {
        if cands.len() == 0 {
            Seq::empty()
        } else {
            let before = self.lit(cands.drop_last());
            if self.shines(cands.last().1) {
                before.push(cands.last().0)
            } else {
                before
            }
        }
    }

    /// The vectors from a lit point to the places of the light that light
    /// it.  `cands` holds the vector to every place of the light that is
    /// sampled (the one place of a point light, the grid of a
    /// parallelogram, the place that a sun's ray through the point meets),
    /// each with its cosine with the normal of the light.
    pub fn get_direction(&self, cands: &Vec<(Direction3, Flt)>) -> (r: Vec<Direction3>)
        ensures
            r@ == self.lit(cands@),
    {
        let mut r: Vec<Direction3> = Vec::new();
        let mut i: usize = 0;
        assert(cands@.take(0).len() == 0);
        while i < cands.len()
            invariant
                i <= cands.len(),
                r@ == self.lit(cands@.take(i as int)),
            decreases cands.len() - i,
        {
            proof {
                assert(cands@.take(i + 1).drop_last() =~= cands@.take(i as int));
            }
            let keep = match self {
                Light::PointLight { .. } => true,
                Light::ParallelogramLight { .. } => cands[i].1.lt(&Flt::zero()),
                Light::SunLight { .. } => !cands[i].1.gt(&Flt::zero()),
            };
            if keep {
                r.push(cands[i].0);
            }
            i += 1;
        }
        assert(cands@.take(i as int) =~= cands@);
        r
    }
}

} // verus!
