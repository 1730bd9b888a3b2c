//! Radiance, photons and the kernels that weight them.
use vstd::prelude::*;
use core::ops::Neg;
use crate::ray::Flt;
use crate::ray::algebra::{Direction3, Position3, Vector3};
use crate::ray::geometry::Ray;
use crate::ray::physics::Wavelength;
use crate::text::{fields, framed, same_text, texts};

verus! {

/// The kernel that weights a photon by its distance from the point of the
/// estimate.
#[derive(Debug, PartialEq, Eq, Structural, Clone, Copy)]
pub enum PhotonFilter {
    /// Every photon counts alike.
    Non,
    Cone,
    Gauss,
}

/// The form of the text of a kernel: `PF:` and a word, which may be empty.
pub const PHOTON_FILTER_PATTERN: &'static str = r"^PF:(\S*?)$";

impl PhotonFilter {
    /// The name of the kernel.
    pub open spec fn name_of(self) -> Seq<char> {
        match self {
            PhotonFilter::Non => "None"@,
            PhotonFilter::Cone => "Cone"@,
            PhotonFilter::Gauss => "Gauss"@,
        }
    }

    /// The kernel of a name; nothing for a text that names none.
    pub open spec fn named(name: Seq<char>) -> Option<PhotonFilter> {
        if name == "None"@ {
            Some(PhotonFilter::Non)
        } else if name == "Cone"@ {
            Some(PhotonFilter::Cone)
        } else if name == "Gauss"@ {
            Some(PhotonFilter::Gauss)
        } else {
            None
        }
    }

    /// The word that the text `s` carries behind `PF:`, where it has that
    /// form.
    pub open spec fn word_of(s: Seq<char>) -> Option<Seq<char>> {
        match fields(PHOTON_FILTER_PATTERN@, s, 1) {
            Some(f) => Some(f[0]),
            None => None,
        }
    }

    /// The kernel that the word `word` of the text `s` names, and else the
    /// complaint that `s` is no kernel.
    pub open spec fn read(word: Seq<char>, s: Seq<char>) -> Result<PhotonFilter, Seq<char>> {
        match PhotonFilter::named(word) {
            Some(f) => Ok(f),
            None => Err("invalid photon filter: "@ + s),
        }
    }

    /// `PF:None`, `PF:Cone` or `PF:Gauss`.
    pub fn to_string(&self) -> (r: String)
        ensures
            r@ == "PF:"@ + self.name_of(),
    {
        let mut s = String::from_str("PF:");
        match self {
            PhotonFilter::Non => s.append("None"),
            PhotonFilter::Cone => s.append("Cone"),
            PhotonFilter::Gauss => s.append("Gauss"),
        }
        s
    }

    /// The kernel that the word behind `PF:` in `s` names.
    pub fn from_word(word: &str, s: &str) -> (r: Result<PhotonFilter, String>)
        ensures
            match r {
                Ok(f) => PhotonFilter::read(word@, s@) == Ok::<PhotonFilter, Seq<char>>(f),
                Err(e) => PhotonFilter::read(word@, s@) == Err::<PhotonFilter, Seq<char>>(e@),
            },
    {
        if same_text(word, "None") {
            Ok(PhotonFilter::Non)
        } else if same_text(word, "Cone") {
            Ok(PhotonFilter::Cone)
        } else if same_text(word, "Gauss") {
            Ok(PhotonFilter::Gauss)
        } else {
            Err(String::from_str("invalid photon filter: ").concat(s))
        }
    }

    /// Reads a kernel from a text of the form `PF:` and a word.
    pub fn from_str(s: &str) -> (r: Result<PhotonFilter, String>)
        requires
            PhotonFilter::word_of(s@) is Some,
        ensures
            match r {
                Ok(f) => PhotonFilter::read(PhotonFilter::word_of(s@)->0, s@) == Ok::<
                    PhotonFilter,
                    Seq<char>,
                >(f),
                Err(e) => PhotonFilter::read(PhotonFilter::word_of(s@)->0, s@) == Err::<
                    PhotonFilter,
                    Seq<char>,
                >(e@),
            },
    {
        match framed(PHOTON_FILTER_PATTERN, s, 1) {
            Some(f) => {
                assert(texts(f@)[0] == f@[0]@);
                PhotonFilter::from_word(f[0].as_str(), s)
            },
            None => Err(String::new()),
        }
    }

    /// Reads a kernel from a text; nothing where the text has not the form
    /// `PF:` and a word.
    pub fn parse(s: &str) -> (r: Option<Result<PhotonFilter, String>>)
        ensures
            r is Some == PhotonFilter::word_of(s@) is Some,
            match r {
                Some(Ok(f)) => PhotonFilter::read(PhotonFilter::word_of(s@)->0, s@) == Ok::<
                    PhotonFilter,
                    Seq<char>,
                >(f),
                Some(Err(e)) => PhotonFilter::read(PhotonFilter::word_of(s@)->0, s@) == Err::<
                    PhotonFilter,
                    Seq<char>,
                >(e@),
                None => true,
            },
    {
        match framed(PHOTON_FILTER_PATTERN, s, 1) {
            Some(_) => Some(PhotonFilter::from_str(s)),
            None => None,
        }
    }
}

/// The form of the text of a radiance: `RAD[`, three numbers with commas
/// between them, and `]`.
pub const RADIANCE_PATTERN: &'static str = r"^RAD\[(\S+?),(\S+?),(\S+?)\]$";

/// The form of the text of a photon: `PHOTON[`, the text of a band, a
/// comma, the text of a ray, and `]`.
pub const PHOTON_PATTERN: &'static str = r"^PHOTON\[(WL:\S+),(RAY\[\S+\])\]$";

/// Radiance in the three bands.
#[derive(Debug, PartialEq, Clone, Copy)]
pub struct Radiance(pub Flt, pub Flt, pub Flt);

impl Radiance {
    /// The texts of the three components in the text `s` of a radiance;
    /// nothing where `s` has not the form of one.
    pub fn fields(s: &str) -> (r: Option<Vec<String>>)
        ensures
            match r {
                Some(v) => v.len() == 3 && fields(RADIANCE_PATTERN@, s@, 3) == Some(texts(v@)),
                None => fields(RADIANCE_PATTERN@, s@, 3) is None,
            },
    {
        framed(RADIANCE_PATTERN, s, 3)
    }

    /// The component of a band.
    pub open spec fn band(self, w: Wavelength) -> Flt {
        match w {
            Wavelength::Red => self.0,
            Wavelength::Green => self.1,
            Wavelength::Blue => self.2,
        }
    }

    /// The radiance that has `pw` in the band `w` and zero in the others.
    pub open spec fn single(w: Wavelength, pw: Flt) -> Radiance {
        match w {
            Wavelength::Red => Radiance(pw, Flt::zero(), Flt::zero()),
            Wavelength::Green => Radiance(Flt::zero(), pw, Flt::zero()),
            Wavelength::Blue => Radiance(Flt::zero(), Flt::zero(), pw),
        }
    }

    pub open spec fn spec_radiance0() -> Radiance {
        Radiance(Flt::zero(), Flt::zero(), Flt::zero())
    }

    pub open spec fn spec_radiance1() -> Radiance {
        Radiance(Flt::one(), Flt::one(), Flt::one())
    }

    /// No radiance.
    #[verifier::when_used_as_spec(spec_radiance0)]
    pub fn radiance0() -> (r: Radiance)
        ensures
            r == Radiance::spec_radiance0(),
    {
        Radiance(Flt::zero(), Flt::zero(), Flt::zero())
    }

    /// One in every band.
    #[verifier::when_used_as_spec(spec_radiance1)]
    pub fn radiance1() -> (r: Radiance)
        ensures
            r == Radiance::spec_radiance1(),
    {
        Radiance(Flt::one(), Flt::one(), Flt::one())
    }

    pub fn select_wavelength(&self, w: Wavelength) -> (r: Flt)
        ensures
            r == self.band(w),
    {
        match w {
            Wavelength::Red => self.0,
            Wavelength::Green => self.1,
            Wavelength::Blue => self.2,
        }
    }

    pub fn r(&self) -> (r: Flt)
        ensures
            r == self.0,
    {
        self.0
    }

    pub fn g(&self) -> (r: Flt)
        ensures
            r == self.1,
    {
        self.1
    }

    pub fn b(&self) -> (r: Flt)
        ensures
            r == self.2,
    {
        self.2
    }
}

/// The distance of `d` from zero: `-d` where `d < 0`, else `d` as it is (a
/// negative zero and a NaN stay what they are).
pub fn rabs(d: Flt) -> (r: Flt)
    ensures
        r == if d.less(Flt::zero()) { d.negated() } else { d },
        !d.nan() ==> !r.less(Flt::zero()),
{
    if d.lt(&Flt::zero()) {
        d.neg()
    } else {
        d
    }
}

/// A packet of light of one band.  `ray.pos` is where it is, `ray.dir` the
/// direction in which it travels.
#[derive(Debug, PartialEq, Clone, Copy)]
pub struct Photon {
    pub wl: Wavelength,
    pub ray: Ray,
}

impl Photon {
    /// The texts of the band and of the ray in the text `s` of a photon;
    /// nothing where `s` has not the form of one.
    pub fn fields(s: &str) -> (r: Option<Vec<String>>)
        ensures
            match r {
                Some(v) => v.len() == 2 && fields(PHOTON_PATTERN@, s@, 2) == Some(texts(v@)),
                None => fields(PHOTON_PATTERN@, s@, 2) is None,
            },
    {
        framed(PHOTON_PATTERN, s, 2)
    }

    pub fn new(wl: &Wavelength, ray: &Ray) -> (p: Photon)
        ensures
            p.wl == *wl,
            p.ray == *ray,
    {
        Photon { wl: *wl, ray: *ray }
    }

    /// A red photon at `p` that travels along the first axis.
    pub fn dummy(p: &Position3) -> (ph: Photon)
        ensures
            ph.wl == Wavelength::Red,
            ph.ray.pos == *p,
            ph.ray.dir.v[0] == Flt::one(),
            ph.ray.dir.v[1] == Flt::zero(),
            ph.ray.dir.v[2] == Flt::zero(),
    {
        let ex = Vector3::new(Flt::one(), Flt::zero(), Flt::zero());
        Photon { wl: Wavelength::Red, ray: Ray::new(p, &ex) }
    }

    /// The three coordinates of the photon's place.
    pub fn to_points(&self) -> (r: [Flt; 3])
        ensures
            r == self.ray.pos.v,
    {
        self.ray.pos.v
    }

    /// What the photon adds to a surface that it arrives at.  `cos0` is the
    /// cosine between the surface normal and the photon's direction, `pw2`
    /// the photon's power times `-cos0`: the photon counts with `pw2` in
    /// its band where it arrives against the normal (`cos0 < 0`), and not
    /// at all otherwise.
    pub fn to_radiance(&self, cos0: &Flt, pw2: &Flt) -> (r: Radiance)
        ensures
            r == Radiance::single(
                self.wl,
                if cos0.less(Flt::zero()) { *pw2 } else { Flt::zero() },
            ),
    {
        let pw = if cos0.lt(&Flt::zero()) { *pw2 } else { Flt::zero() };
        match self.wl {
            Wavelength::Red => Radiance(pw, Flt::zero(), Flt::zero()),
            Wavelength::Green => Radiance(Flt::zero(), pw, Flt::zero()),
            Wavelength::Blue => Radiance(Flt::zero(), Flt::zero(), pw),
        }
    }
}

/// What a stored photon adds to the estimate at a surface that it reached
/// against the normal.  `cos0` is the cosine between the normal and the
/// photon's direction, `pw2` the photon's power times `-cos0`: the photon
/// counts with `pw2` in its band where `cos0 < 0`, and not at all otherwise.
pub fn photon_to_radiance(cos0: &Flt, pw2: &Flt, ph: &Photon) -> (r: Radiance)
    ensures
        r == Radiance::single(
            ph.wl,
            if cos0.less(Flt::zero()) { *pw2 } else { Flt::zero() },
        ),
{
    let pw = if cos0.lt(&Flt::zero()) { *pw2 } else { Flt::zero() };
    match ph.wl {
        Wavelength::Red => Radiance(pw, Flt::zero(), Flt::zero()),
        Wavelength::Green => Radiance(Flt::zero(), pw, Flt::zero()),
        Wavelength::Blue => Radiance(Flt::zero(), Flt::zero(), pw),
    }
}

} // verus!
