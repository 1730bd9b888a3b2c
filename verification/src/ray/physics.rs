//! Wavelength bands, three-band colours and the Russian roulette.
use vstd::prelude::*;
use vstd::std_specs::cmp::PartialEqSpecImpl;
use core::ops::Neg;
use crate::ray::{Flt, ONE_THIRD_BITS};
use crate::ray::algebra::Direction3;
use crate::text::{fields, framed, same_text, texts};

verus! {

/// The three bands in which light is carried.  A photon has exactly one.
#[derive(Debug, PartialEq, Eq, Structural, Clone, Copy)]
pub enum Wavelength {
    Red,
    Green,
    Blue,
}

/// The form of the text of a band: `WL:` and a word.
pub const WAVELENGTH_PATTERN: &'static str = r"^WL:(\S+?)$";

impl Wavelength {
    /// The name of the band.
    pub open spec fn name_of(self) -> Seq<char> {
        match self {
            Wavelength::Red => "Red"@,
            Wavelength::Green => "Green"@,
            Wavelength::Blue => "Blue"@,
        }
    }

    /// The band of a name; nothing for a text that names none.
    pub open spec fn named(name: Seq<char>) -> Option<Wavelength> {
        if name == "Red"@ {
            Some(Wavelength::Red)
        } else if name == "Green"@ {
            Some(Wavelength::Green)
        } else if name == "Blue"@ {
            Some(Wavelength::Blue)
        } else {
            None
        }
    }

    /// The text of the band: `WL:` and its name.
    pub open spec fn text_of(self) -> Seq<char> {
        "WL:"@ + self.name_of()
    }

    /// The word that the text `s` carries behind `WL:`, where it has that
    /// form.
    pub open spec fn word_of(s: Seq<char>) -> Option<Seq<char>> {
        match fields(WAVELENGTH_PATTERN@, s, 1) {
            Some(f) => Some(f[0]),
            None => None,
        }
    }

    /// The name of the band, as it stands in a photon map.
    pub fn name(&self) -> (r: &'static str)
        ensures
            r@ == self.name_of(),
    {
        match self {
            Wavelength::Red => "Red",
            Wavelength::Green => "Green",
            Wavelength::Blue => "Blue",
        }
    }

    /// The band that a word names.
    pub fn from_name(name: &str) -> (r: Option<Wavelength>)
        ensures
            r == Wavelength::named(name@),
    {
        if same_text(name, "Red") {
            Some(Wavelength::Red)
        } else if same_text(name, "Green") {
            Some(Wavelength::Green)
        } else if same_text(name, "Blue") {
            Some(Wavelength::Blue)
        } else {
            None
        }
    }

    /// `WL:Red`, `WL:Green` or `WL:Blue`.
    pub fn to_string(&self) -> (r: String)
        ensures
            r@ == self.text_of(),
    {
        let mut s = String::from_str("WL:");
        s.append(self.name());
        s
    }

    /// The band that the word `word` of the text `s` names, and else the
    /// complaint that `s` is no wavelength.
    pub open spec fn read(word: Seq<char>, s: Seq<char>) -> Result<Wavelength, Seq<char>> {
        match Wavelength::named(word) {
            Some(w) => Ok(w),
            None => Err("invalid wavelength: "@ + s),
        }
    }

    /// The band that the word behind `WL:` in `s` names.
    pub fn from_word(word: &str, s: &str) -> (r: Result<Wavelength, String>)
        ensures
            match r {
                Ok(w) => Wavelength::read(word@, s@) == Ok::<Wavelength, Seq<char>>(w),
                Err(e) => Wavelength::read(word@, s@) == Err::<Wavelength, Seq<char>>(e@),
            },
    {
        match Wavelength::from_name(word) {
            Some(w) => Ok(w),
            None => Err(String::from_str("invalid wavelength: ").concat(s)),
        }
    }

    /// Reads a band from a text of the form `WL:` and a word.
    pub fn from_str(s: &str) -> (r: Result<Wavelength, String>)
        requires
            Wavelength::word_of(s@) is Some,
        ensures
            match r {
                Ok(w) => Wavelength::read(Wavelength::word_of(s@)->0, s@) == Ok::<
                    Wavelength,
                    Seq<char>,
                >(w),
                Err(e) => Wavelength::read(Wavelength::word_of(s@)->0, s@) == Err::<
                    Wavelength,
                    Seq<char>,
                >(e@),
            },
    {
        match framed(WAVELENGTH_PATTERN, s, 1) {
            Some(f) => {
                assert(texts(f@)[0] == f@[0]@);
                Wavelength::from_word(f[0].as_str(), s)
            },
            None => Err(String::new()),
        }
    }

    /// Reads a band from a text; nothing where the text has not the form
    /// `WL:` and a word.
    pub fn parse(s: &str) -> (r: Option<Result<Wavelength, String>>)
        ensures
            r is Some == Wavelength::word_of(s@) is Some,
            match r {
                Some(Ok(w)) => Wavelength::read(Wavelength::word_of(s@)->0, s@) == Ok::<
                    Wavelength,
                    Seq<char>,
                >(w),
                Some(Err(e)) => Wavelength::read(Wavelength::word_of(s@)->0, s@) == Err::<
                    Wavelength,
                    Seq<char>,
                >(e@),
                None => true,
            },
    {
        match framed(WAVELENGTH_PATTERN, s, 1) {
            Some(_) => Some(Wavelength::from_str(s)),
            None => None,
        }
    }
}

/// A name gives its band: reading the name of a band gives the band back.
pub proof fn lemma_name_round_trip(w: Wavelength)
    ensures
        Wavelength::named(w.name_of()) == Some(w),
{
    reveal_strlit("Red");
    reveal_strlit("Green");
    reveal_strlit("Blue");
    assert("Red"@ != "Green"@) by {
        assert("Red"@.len() != "Green"@.len());
    }
    assert("Red"@ != "Blue"@) by {
        assert("Red"@.len() != "Blue"@.len());
    }
    assert("Green"@ != "Blue"@) by {
        assert("Green"@.len() != "Blue"@.len());
    }
}

/// One scalar for each band: red, green, blue.
#[derive(Debug, Clone, Copy)]
pub struct Color(pub Flt, pub Flt, pub Flt);

/// The form of the text of a colour: `COL[`, three numbers with commas
/// between them, and `]`.
pub const COLOR_PATTERN: &'static str = r"^COL\[(\S+?),(\S+?),(\S+?)\]$";

impl Color {
    /// The texts of the three components in the text `s` of a colour;
    /// nothing where `s` has not the form of one.
    pub fn fields(s: &str) -> (r: Option<Vec<String>>)
        ensures
            match r {
                Some(v) => v.len() == 3 && fields(COLOR_PATTERN@, s@, 3) == Some(texts(v@)),
                None => fields(COLOR_PATTERN@, s@, 3) is None,
            },
    {
        framed(COLOR_PATTERN, s, 3)
    }

    pub open spec fn spec_black() -> Color {
        Color(Flt::zero(), Flt::zero(), Flt::zero())
    }

    pub open spec fn spec_white() -> Color {
        Color(Flt::one(), Flt::one(), Flt::one())
    }

    /// No light in any band.
    #[verifier::when_used_as_spec(spec_black)]
    pub fn black() -> (c: Color)
        ensures
            c == Color::spec_black(),
    {
        Color(Flt::zero(), Flt::zero(), Flt::zero())
    }

    /// One in every band.
    #[verifier::when_used_as_spec(spec_white)]
    pub fn white() -> (c: Color)
        ensures
            c == Color::spec_white(),
    {
        Color(Flt::one(), Flt::one(), Flt::one())
    }

    /// The component of a band.
    pub open spec fn band(self, w: Wavelength) -> Flt {
        match w {
            Wavelength::Red => self.0,
            Wavelength::Green => self.1,
            Wavelength::Blue => self.2,
        }
    }

    /// Band by band the same number.
    pub open spec fn same(self, other: Color) -> bool {
        self.0.same(other.0) && self.1.same(other.1) && self.2.same(other.2)
    }

    pub fn new(r: Flt, g: Flt, b: Flt) -> (c: Color)
        ensures
            c == Color(r, g, b),
    {
        Color(r, g, b)
    }

    /// The colour with each band's share of the whole.  `mag` is the sum of
    /// the bands, each taken as zero where it is below zero, and `shares`
    /// holds the bands divided by that sum: the colour is `shares`, unless
    /// the sum is zero; a colour without light has a third in each band.
    pub fn normalize(mag: &Flt, shares: &Color) -> (c: Color)
        ensures
            c == if mag.same(Flt::zero()) {
                Color(
                    Flt { bits: ONE_THIRD_BITS },
                    Flt { bits: ONE_THIRD_BITS },
                    Flt { bits: ONE_THIRD_BITS },
                )
            } else {
                *shares
            },
    {
        if mag.is_zero() {
            let third = Flt::from_bits(ONE_THIRD_BITS);
            Color(third, third, third)
        } else {
            *shares
        }
    }

    /// The band that a draw `p` from the unit interval picks, the colour
    /// being taken as the shares of the three bands: red below the red
    /// share, green below `rg`, the red and the green share together, and
    /// blue from there on.
    pub fn decide_wavelength(&self, rg: Flt, p: Flt) -> (w: Wavelength)
        ensures
            w == if p.less(self.0) {
                Wavelength::Red
            } else if p.less(rg) {
                Wavelength::Green
            } else {
                Wavelength::Blue
            },
    {
        if p.lt(&self.0) {
            Wavelength::Red
        } else if p.lt(&rg) {
            Wavelength::Green
        } else {
            Wavelength::Blue
        }
    }

    pub fn wavelength(&self, w: &Wavelength) -> (r: Flt)
        ensures
            r == self.band(*w),
    {
        match w {
            Wavelength::Red => self.0,
            Wavelength::Green => self.1,
            Wavelength::Blue => self.2,
        }
    }
}

impl PartialEq for Color {
    fn eq(&self, other: &Color) -> (r: bool) {
        self.0 == other.0 && self.1 == other.1 && self.2 == other.2
    }
}

impl PartialEqSpecImpl for Color {
    open spec fn obeys_eq_spec() -> bool {
        true
    }

    open spec fn eq_spec(&self, other: &Color) -> bool {
        self.same(*other)
    }
}

/// A draw `u` hits the probability `p`: it does not exceed it.
pub open spec fn hit(p: Flt, u: Flt) -> bool {
    !p.less(u)
}

/// Drops what is below zero: `a` itself unless `a < 0`, then zero.
pub fn clip_color(a: Flt) -> (r: Flt)
    ensures
        r == if a.less(Flt::zero()) { Flt::zero() } else { a },
{
    if a.lt(&Flt::zero()) {
        Flt::zero()
    } else {
        a
    }
}

/// `i` is what the roulette over `ps` gives for the draw `p`.
pub open spec fn selects(ps: Seq<Flt>, p: Flt, i: int) -> bool {
    &&& 0 <= i <= ps.len()
    &&& forall|j: int| 0 <= j < i ==> !hit(#[trigger] ps[j], p)
    &&& i < ps.len() ==> hit(ps[i], p)
}

/// The Russian roulette over the table `ps` for a draw `p` that was already
/// made: the first index whose entry the draw does not exceed, and the
/// length of the table where it exceeds every entry (none of the choices).
pub fn check_under(ps: &[Flt], p: &Flt) -> (i: usize)
    ensures
        selects(ps@, *p, i as int),
{
    let mut i: usize = 0;
    while i < ps.len() && p.gt(&ps[i])
        invariant
            i <= ps@.len(),
            forall|j: int| 0 <= j < i ==> !hit(ps@[j], *p),
        decreases ps@.len() - i,
    {
        i += 1;
    }
    i
}

/// The roulette has one outcome: a draw selects no two places of a table.
pub proof fn lemma_selects_one(ps: Seq<Flt>, p: Flt, i: int, j: int)
    requires
        selects(ps, p, i),
        selects(ps, p, j),
    ensures
        i == j,
{
    if i < j {
        assert(!hit(ps[i], p));
    } else if j < i {
        assert(!hit(ps[j], p));
    }
}

/// A larger probability is hit by every draw that hits a smaller one.
pub proof fn lemma_hit_grows(p: Flt, q: Flt, u: Flt)
    requires
        hit(p, u),
        p.at_most(q),
        !u.nan(),
    ensures
        hit(q, u),
{
}

/// A draw that is a number hits a probability exactly where it is at most
/// the probability.
pub proof fn lemma_hit_is_at_most(p: Flt, u: Flt)
    requires
        !p.nan(),
        !u.nan(),
    ensures
        hit(p, u) == u.at_most(p),
{
}

/// The roulette over a single probability: whether the draw hits it.
pub fn roulette_hit(p: &Flt, u: &Flt) -> (r: bool)
    ensures
        r == hit(*p, *u),
{
    let table: [Flt; 1] = [*p];
    check_under(table.as_slice(), u) == 0
}

/// The direction in which a mirror reflects, and the cosine of the angle
/// of incidence.  `cos` is the cosine between the normal `nvec` and the
/// reversed direction of the light, `rvec` the mirrored direction.
///
/// Light that arrives from behind (`cos < 0`) leaves along the normal, with
/// the cosine `-cos`.
pub fn specular_reflection(nvec: &Direction3, cos: &Flt, rvec: &Direction3) -> (r: (
    Direction3,
    Flt,
))
    ensures
        r == if cos.less(Flt::zero()) { (*nvec, cos.negated()) } else { (*rvec, *cos) },
{
    if cos.lt(&Flt::zero()) {
        (*nvec, cos.neg())
    } else {
        (*rvec, *cos)
    }
}

/// The direction in which light is refracted, and the cosine of the angle
/// of refraction.  `cos1` is the cosine of the angle of incidence, `g0` is
/// `eta^2 + cos1^2 - 1` for the relative index of refraction `eta`, `tvec`
/// the refracted direction and `cos2` its cosine, both worked out as if
/// there were one.
///
/// There is no refracted direction for light that arrives from behind
/// (`cos1 < 0`) and under total internal reflection (`g0 < 0`); the cosine
/// is then zero.
pub fn specular_refraction(cos1: &Flt, g0: &Flt, tvec: &Option<Direction3>, cos2: &Flt) -> (r: (
    Option<Direction3>,
    Flt,
))
    ensures
        r == if cos1.less(Flt::zero()) || g0.less(Flt::zero()) {
            (None::<Direction3>, Flt::zero())
        } else {
            (*tvec, *cos2)
        },
{
    if cos1.lt(&Flt::zero()) || g0.lt(&Flt::zero()) {
        (None, Flt::zero())
    } else {
        (*tvec, *cos2)
    }
}

/// The index of refraction of the medium that light enters, relative to
/// that of the medium it leaves.  `ior1` is the index of the medium left and
/// `ratio` the quotient of the two: the relative index is `ratio`, unless
/// `ior1` is zero (a medium that light does not travel in), then one.
pub fn relative_ior(ior1: &Flt, ratio: &Flt) -> (r: Flt)
    ensures
        r == if ior1.same(Flt::zero()) { Flt::one() } else { *ratio },
{
    if ior1.is_zero() {
        Flt::one()
    } else {
        *ratio
    }
}

/// The direction of glossy reflection.  `wi` is the sampled direction
/// round the mirrored one, `cos` its cosine with the surface normal, and
/// `folded` the sampled direction with its part across the mirrored one
/// turned round; each is none where it has no length.
///
/// A sample that dips below the surface (`cos < 0`) is folded back.  A
/// direction without length is replaced by the first axis.
pub fn reflection_glossy(cos: &Flt, wi: &Option<Direction3>, folded: &Option<Direction3>) -> (r:
    Direction3)
    ensures
        r == match (if cos.less(Flt::zero()) { *folded } else { *wi }) {
            Some(v) => v,
            None => (Direction3 { v: [Flt::one(), Flt::zero(), Flt::zero()] }),
        },
{
    let chosen = if cos.lt(&Flt::zero()) { *folded } else { *wi };
    match chosen {
        Some(v) => v,
        None => Direction3 { v: [Flt::one(), Flt::zero(), Flt::zero()] },
    }
}

/// Reflection and refraction at a boundary, by Snell's law.  `g` is
/// `1 / eta^2 + c1^2 - 1` for the relative index of refraction `eta` and
/// the cosine `c1` of the angle of incidence, `r` the reflected direction,
/// and `t` and `c2` are the refracted direction and its cosine, both worked
/// out as if there were one.
///
/// Where `g` is above zero the light is refracted along `t`.  Otherwise it
/// is reflected altogether: the refracted direction is the vector without
/// length and its cosine zero.
pub fn snell(g: &Flt, r: &Direction3, t: &Direction3, c1: &Flt, c2: &Flt) -> (s: (
    Direction3,
    Direction3,
    Flt,
    Flt,
))
    ensures
        s == if Flt::zero().less(*g) {
            (*r, *t, *c1, *c2)
        } else {
            (*r, Direction3 { v: [Flt::zero(), Flt::zero(), Flt::zero()] }, *c1, Flt::zero())
        },
{
    if g.gt(&Flt::zero()) {
        (*r, *t, *c1, *c2)
    } else {
        (*r, Direction3 { v: [Flt::zero(), Flt::zero(), Flt::zero()] }, *c1, Flt::zero())
    }
}

} // verus!
